use irrigation_relay::handshake::{
    build_upgrade_request, contains_ignore_ascii_case, generate_websocket_key, HandshakeWait,
    ReadEvent,
};
use irrigation_relay::session::EmbassyWebSocketError;

#[test]
fn key_is_base64_of_the_random_bytes() {
    let zeros = [0u8; 16];
    assert_eq!(generate_websocket_key(&zeros).unwrap(), "AAAAAAAAAAAAAAAAAAAAAA==");
    let counting: [u8; 16] = core::array::from_fn(|i| i as u8);
    let key = generate_websocket_key(&counting).unwrap();
    assert_eq!(key, "AAECAwQFBgcICQoLDA0ODw==");
    assert_eq!(key.len(), 24);
}

#[test]
fn upgrade_request_text() {
    let request = build_upgrade_request([192, 168, 1, 20], 9001, "/ws", "dGhlIHNhbXBsZSBub25jZQ==");
    assert_eq!(
        request,
        "GET /ws HTTP/1.1\r\nHost: 192.168.1.20:9001\r\nUpgrade: websocket\r\nConnection: Upgrade\r\nSec-WebSocket-Key: dGhlIHNhbXBsZSBub25jZQ==\r\nSec-WebSocket-Version: 13\r\n\r\n"
    );
}

#[test]
fn upgrade_request_with_zero_octets_and_port() {
    let request = build_upgrade_request([0, 0, 0, 0], 0, "/", "k");
    assert!(request.starts_with("GET / HTTP/1.1\r\nHost: 0.0.0.0:0\r\n"));
}

#[test]
fn accept_header_found_in_any_case() {
    let needle = b"sec-websocket-accept";
    assert!(contains_ignore_ascii_case(b"HTTP/1.1 101\r\nSec-WebSocket-Accept: x\r\n", needle));
    assert!(contains_ignore_ascii_case(b"sec-websocket-accept: x", needle));
    assert!(contains_ignore_ascii_case(b"SEC-WEBSOCKET-ACCEPT", needle));
    assert!(!contains_ignore_ascii_case(b"HTTP/1.1 400 Bad Request\r\n", needle));
    assert!(!contains_ignore_ascii_case(b"Sec-WebSocket-Accep", needle));
}

#[test]
fn wait_succeeds_on_accept_header() {
    let mut wait = HandshakeWait::new();
    assert_eq!(wait.step(ReadEvent::Data(b"HTTP/1.1 101 Switching\r\n".to_vec())), None);
    assert_eq!(
        wait.step(ReadEvent::Data(b"Sec-WebSocket-Accept: abc\r\n\r\n".to_vec())),
        Some(Ok(()))
    );
}

#[test]
fn wait_finds_header_split_over_two_reads() {
    let mut wait = HandshakeWait::new();
    assert_eq!(wait.step(ReadEvent::Data(b"HTTP/1.1 101\r\nsec-webso".to_vec())), None);
    assert_eq!(wait.step(ReadEvent::Data(b"cket-accept: abc".to_vec())), Some(Ok(())));
}

#[test]
fn wait_times_out_when_nothing_was_read() {
    let mut wait = HandshakeWait::new();
    assert_eq!(
        wait.step(ReadEvent::DeadlinePassed),
        Some(Err(EmbassyWebSocketError::HandshakeTimeout))
    );
}

#[test]
fn wait_fails_when_bytes_never_matched() {
    let mut wait = HandshakeWait::new();
    assert_eq!(wait.step(ReadEvent::Data(b"HTTP/1.1 404 Not Found\r\n".to_vec())), None);
    assert_eq!(wait.total_bytes(), 24);
    assert_eq!(
        wait.step(ReadEvent::DeadlinePassed),
        Some(Err(EmbassyWebSocketError::HandshakeFailed))
    );
}

#[test]
fn wait_reports_peer_close_and_read_error() {
    let mut wait = HandshakeWait::new();
    assert_eq!(
        wait.step(ReadEvent::Data(Vec::new())),
        Some(Err(EmbassyWebSocketError::ConnectionClosed))
    );
    let mut wait = HandshakeWait::new();
    assert_eq!(wait.step(ReadEvent::Failed), Some(Err(EmbassyWebSocketError::ReadError)));
}
