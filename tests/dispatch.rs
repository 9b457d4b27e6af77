use udp::{Dispatcher, LoopAction, LoopEvent, PeerAddr, ServerError, ShutdownState};

#[test]
fn receive_buffer_has_configured_size() {
    let d = Dispatcher::new(1024);
    let b = d.receive_buffer();
    assert_eq!(b.len(), 1024);
    assert!(b.iter().all(|x| *x == 0));
}

#[test]
fn received_datagram_is_dispatched() {
    let mut d = Dispatcher::new(8);
    let mut buffer = d.receive_buffer();
    buffer[..4].copy_from_slice(b"ping");
    let peer = PeerAddr::v4(127, 0, 0, 1, 5000);
    match d.on_event(LoopEvent::Received { buffer, len: 4, peer }) {
        LoopAction::Dispatch(ctx) => {
            assert_eq!(ctx.get_request(), &b"ping".to_vec());
            assert_eq!(ctx.get_socket_addr(), Some(peer));
            assert!(ctx.has_socket());
            assert!(ctx.get_response().get_response_data().is_empty());
            assert_eq!(ctx.get_data_value::<i32>("any"), None);
        }
        _ => panic!("expected a dispatch"),
    }
    assert!(!d.is_stopped());
}

#[test]
fn oversized_report_is_cut_to_buffer() {
    let mut d = Dispatcher::new(3);
    let buffer = vec![1u8, 2, 3];
    match d.on_event(LoopEvent::Received { buffer, len: 10, peer: PeerAddr::unspecified() }) {
        LoopAction::Dispatch(ctx) => assert_eq!(ctx.get_request(), &vec![1u8, 2, 3]),
        _ => panic!("expected a dispatch"),
    }
}

#[test]
fn read_error_is_reported_and_loop_goes_on() {
    let mut d = Dispatcher::new(8);
    match d.on_event(LoopEvent::ReadFailed(String::from("boom"))) {
        LoopAction::ReportReadError(e) => assert_eq!(e, ServerError::UdpRead(String::from("boom"))),
        _ => panic!("expected a report"),
    }
    assert!(!d.is_stopped());
    let buffer = d.receive_buffer();
    assert!(matches!(
        d.on_event(LoopEvent::Received { buffer, len: 1, peer: PeerAddr::unspecified() }),
        LoopAction::Dispatch(_)
    ));
}

#[test]
fn nothing_is_dispatched_after_shutdown() {
    let mut d = Dispatcher::new(8);
    assert!(matches!(d.on_event(LoopEvent::ShutdownRequested), LoopAction::Stop));
    assert!(d.is_stopped());
    let buffer = d.receive_buffer();
    assert!(matches!(
        d.on_event(LoopEvent::Received { buffer, len: 2, peer: PeerAddr::unspecified() }),
        LoopAction::Stop
    ));
    assert!(matches!(d.on_event(LoopEvent::ReadFailed(String::from("late"))), LoopAction::Stop));
}

#[test]
fn shutdown_fires_once() {
    let mut s = ShutdownState::new();
    assert!(!s.is_shutdown_requested());
    assert!(s.request_shutdown());
    assert!(!s.request_shutdown());
    assert!(s.is_shutdown_requested());
    assert!(!s.is_done());
    assert!(s.loop_stopped());
    assert!(!s.loop_stopped());
    assert!(s.is_done());
}
