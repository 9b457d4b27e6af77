use udp::{Datagram, InnerContext, IpAddress, PeerAddr, Response, ResponseError};

#[test]
fn test_context_creation() {
    let request: Vec<u8> = vec![1, 2, 3, 4];
    let client_addr = PeerAddr::v4(127, 0, 0, 1, 12345);
    let ctx = InnerContext::from_datagram(request.clone(), client_addr);
    assert_eq!(ctx.get_request(), &request);
    assert_eq!(ctx.get_socket_addr(), Some(client_addr));
}

#[test]
fn detached_context_is_empty() {
    let ctx = InnerContext::new();
    assert!(ctx.get_request().is_empty());
    assert!(ctx.get_response().get_response_data().is_empty());
    assert_eq!(ctx.get_socket_addr(), None);
    assert!(!ctx.has_socket());
    assert!(!ctx.is_aborted());
    assert_eq!(ctx.get_socket_host(), None);
    assert_eq!(ctx.get_socket_port(), None);
    assert_eq!(ctx.get_socket_addr_or_default(), PeerAddr::unspecified());
    assert_eq!(PeerAddr::unspecified(), PeerAddr::V4 { octets: [0, 0, 0, 0], port: 0 });
}

#[test]
fn peer_host_and_port() {
    let peer = PeerAddr::v4(192, 168, 1, 7, 5353);
    let ctx = InnerContext::from_datagram(vec![], peer);
    assert_eq!(ctx.get_socket_host(), Some(IpAddress::V4([192, 168, 1, 7])));
    assert_eq!(ctx.get_socket_port(), Some(5353));
    assert_eq!(ctx.get_socket_addr_or_default(), peer);
    let v6 = PeerAddr::V6 { segments: [0, 0, 0, 0, 0, 0, 0, 1], port: 9, flowinfo: 0, scope_id: 0 };
    assert_eq!(v6.ip(), IpAddress::V6([0, 0, 0, 0, 0, 0, 0, 1]));
    assert_eq!(v6.port(), 9);
}

#[test]
fn send_targets_the_sender() {
    let peer = PeerAddr::v4(127, 0, 0, 1, 4000);
    let mut ctx = InnerContext::from_datagram(b"hello".to_vec(), peer);
    let mut reply = b"Echo: ".to_vec();
    reply.extend_from_slice(ctx.get_request());
    match ctx.prepare_send(reply) {
        Ok(Datagram { data, peer: to }) => {
            assert_eq!(data, b"Echo: hello".to_vec());
            assert_eq!(to, peer);
        }
        Err(e) => panic!("unexpected error {:?}", e),
    }
    assert_eq!(ctx.get_response().get_response_data(), &b"Echo: hello".to_vec());
}

#[test]
fn send_without_socket_fails() {
    let mut ctx = InnerContext::new();
    let r = ctx.prepare_send(b"x".to_vec());
    assert!(matches!(r, Err(ResponseError::SocketNotAvailable)));
    assert_eq!(ctx.get_response().get_response_data(), &b"x".to_vec());

    let mut torn = InnerContext::from_datagram(vec![1], PeerAddr::v4(1, 2, 3, 4, 5));
    torn.set_socket(false);
    assert!(matches!(torn.prepare_send(vec![2]), Err(ResponseError::SocketNotAvailable)));
}

#[test]
fn send_without_address_fails() {
    let mut ctx = InnerContext::new();
    ctx.set_socket(true);
    let r = ctx.prepare_send(b"y".to_vec());
    assert!(matches!(r, Err(ResponseError::AddressNotAvailable)));
    assert_eq!(ctx.get_response().get_response_data(), &b"y".to_vec());
}

#[test]
fn write_outcome_maps_to_send_error() {
    assert_eq!(ResponseError::from_write(Ok(4)), Ok(()));
    assert_eq!(
        ResponseError::from_write(Err(String::from("refused"))),
        Err(ResponseError::SendError(String::from("refused")))
    );
}

#[test]
fn abort_flag() {
    let mut ctx = InnerContext::new();
    ctx.abort();
    assert!(ctx.is_aborted());
    ctx.cancel_abort();
    assert!(!ctx.is_aborted());
}

#[test]
fn response_from_and_default() {
    let r = Response::from(vec![9, 8]);
    assert_eq!(r.get_response_data(), &vec![9u8, 8]);
    let d = Response::default();
    assert!(d.get_response_data().is_empty());
    let mut ctx = InnerContext::new();
    ctx.set_response(b"set".to_vec());
    assert_eq!(ctx.get_response().get_response_data(), &b"set".to_vec());
}
