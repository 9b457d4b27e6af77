use udp::{
    bind_address, decimal_text, remove_trailing_zeros, PanicData, RequestError, ResponseError,
    Server, ServerConfig, ServerError, DEFAULT_BUFFER_SIZE, DEFAULT_HOST, DEFAULT_LISTEN_PORT,
};

#[test]
fn test_server_config() {
    let mut config = ServerConfig::new();
    config.host("127.0.0.1");
    config.port(8080);
    config.buffer_size(1024);
    let data = config.snapshot();
    assert_eq!(data.get_host(), "127.0.0.1");
    assert_eq!(data.get_port(), 8080);
    assert_eq!(data.get_buffer_size(), 1024);
    assert_eq!(data.bind_address(), "127.0.0.1:8080");
}

#[test]
fn default_config() {
    let c = ServerConfig::default();
    assert_eq!(c.get_host(), DEFAULT_HOST);
    assert_eq!(c.get_host(), "0.0.0.0");
    assert_eq!(c.get_port(), DEFAULT_LISTEN_PORT);
    assert_eq!(c.get_buffer_size(), DEFAULT_BUFFER_SIZE);
    assert_eq!(c.bind_address(), "0.0.0.0:60000");
}

#[test]
fn server_freezes_when_started() {
    let mut s: Server<u8> = Server::new();
    assert!(s.host("127.0.0.1"));
    assert!(s.port(0));
    assert!(s.buffer(1024));
    assert!(s.hook(1));
    assert!(s.hook(2));
    assert!(!s.is_running());
    let snapshot = s.start();
    assert!(s.is_running());
    assert_eq!(snapshot.bind_address(), "127.0.0.1:0");
    assert_eq!(snapshot.get_buffer_size(), 1024);
    assert!(!s.hook(3));
    assert!(!s.port(9));
    assert!(!s.host("10.0.0.1"));
    assert!(!s.buffer(1));
    assert_eq!(s.get_hooks(), &vec![1u8, 2]);
    assert_eq!(s.get_config().get_port(), 0);
    assert_eq!(s.get_config().get_host(), "127.0.0.1");
}

#[test]
fn address_text() {
    assert_eq!(decimal_text(0), "0");
    assert_eq!(decimal_text(7), "7");
    assert_eq!(decimal_text(10), "10");
    assert_eq!(decimal_text(65535), "65535");
    assert_eq!(bind_address("localhost", 443), "localhost:443");
    assert_eq!(bind_address("", 1), ":1");
}

#[test]
fn trailing_zeros() {
    let mut a = vec![1u8, 0, 2, 0, 0];
    assert_eq!(remove_trailing_zeros(&mut a), vec![1u8, 0, 2]);
    assert_eq!(a, vec![1u8, 0, 2]);
    let mut b = vec![0u8, 0];
    assert_eq!(remove_trailing_zeros(&mut b), Vec::<u8>::new());
    assert!(b.is_empty());
    let mut c: Vec<u8> = vec![];
    assert_eq!(remove_trailing_zeros(&mut c), Vec::<u8>::new());
    let mut d = vec![5u8];
    assert_eq!(remove_trailing_zeros(&mut d), vec![5u8]);
}

#[test]
fn panic_data() {
    let mut p = PanicData::from_message("boom");
    assert_eq!(p.get_message(), "boom");
    assert_eq!(p.get_location(), None);
    assert_eq!(p.describe(), "Panic: boom");
    p.set_location("src/lib.rs:10");
    assert_eq!(p.get_location(), Some(&String::from("src/lib.rs:10")));
    assert_eq!(p.describe(), "Panic: boom at src/lib.rs:10");
    let d = PanicData::default();
    assert_eq!(d.get_message(), "");
    assert_eq!(d.describe(), "Panic: ");
}

#[test]
fn panic_data_from_join_error() {
    let rt = tokio::runtime::Builder::new_current_thread().enable_all().build().unwrap();
    let err = rt.block_on(async {
        let handle = tokio::spawn(async {
            panic!("task failed");
        });
        handle.await.unwrap_err()
    });
    let text = err.to_string();
    let p = PanicData::from_join_error(err);
    assert_eq!(p.get_message(), &text);
    assert!(p.get_message().contains("panicked"));
    assert!(p.get_message().contains("task failed"));
    assert_eq!(p.get_location(), None);
}

#[test]
fn error_messages() {
    assert_eq!(ServerError::UdpBind(String::from("in use")).message(), "Udp bind error: in use");
    assert_eq!(ServerError::UdpRead(String::from("x")).message(), "Udp read error: x");
    assert_eq!(ServerError::Unknown(String::from("?")).message(), "Unknown error: ?");
    assert_eq!(ServerError::Other(String::from("o")).message(), "Error: o");
    assert_eq!(ResponseError::SendError(String::from("s")).message(), "Response error: s");
    assert_eq!(ResponseError::SocketNotAvailable.message(), "Socket not available");
    assert_eq!(ResponseError::AddressNotAvailable.message(), "Address not available");
    assert_eq!(ResponseError::Unknown.message(), "Unknown");
    assert_ne!(RequestError::BufferTooSmall, RequestError::Unknown);
}
