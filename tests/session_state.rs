use irrigation_relay::handshake::ReadEvent;
use irrigation_relay::session::{EmbassyWebSocket, EmbassyWebSocketError, SessionState};

fn connected_session() -> EmbassyWebSocket {
    let mut ws = EmbassyWebSocket::new([10, 0, 0, 1], 9001, "/".to_string());
    ws.connect(true, &[0u8; 16]).unwrap();
    assert_eq!(
        ws.handshake_event(ReadEvent::Data(b"HTTP/1.1 101\r\nSec-WebSocket-Accept: x\r\n\r\n".to_vec())),
        Some(Ok(()))
    );
    ws
}

#[test]
fn new_session_is_disconnected() {
    let ws = EmbassyWebSocket::new([10, 0, 0, 1], 9001, "/".to_string());
    assert!(!ws.is_connected());
    assert_eq!(ws.state(), SessionState::Disconnected);
}

#[test]
fn connect_builds_request_and_waits_for_answer() {
    let mut ws = EmbassyWebSocket::new([10, 0, 0, 1], 9001, "/relay".to_string());
    let request = ws.connect(true, &[0u8; 16]).unwrap();
    assert!(request.starts_with("GET /relay HTTP/1.1\r\nHost: 10.0.0.1:9001\r\n"));
    assert!(request.contains("Sec-WebSocket-Key: AAAAAAAAAAAAAAAAAAAAAA==\r\n"));
    assert_eq!(ws.state(), SessionState::Connecting);
    assert_eq!(
        ws.handshake_event(ReadEvent::Data(b"HTTP/1.1 101\r\nSec-WebSocket-Accept: x".to_vec())),
        Some(Ok(()))
    );
    assert!(ws.is_connected());
}

#[test]
fn failed_open_leaves_session_disconnected() {
    let mut ws = EmbassyWebSocket::new([10, 0, 0, 1], 9001, "/".to_string());
    assert_eq!(ws.connect(false, &[0u8; 16]), Err(EmbassyWebSocketError::ConnectionFailed));
    assert_eq!(ws.state(), SessionState::Disconnected);
}

#[test]
fn failed_handshake_leaves_session_disconnected() {
    let mut ws = EmbassyWebSocket::new([10, 0, 0, 1], 9001, "/".to_string());
    ws.connect(true, &[0u8; 16]).unwrap();
    assert_eq!(
        ws.handshake_event(ReadEvent::DeadlinePassed),
        Some(Err(EmbassyWebSocketError::HandshakeTimeout))
    );
    assert_eq!(ws.state(), SessionState::Disconnected);
    ws.connect(true, &[0u8; 16]).unwrap();
    assert_eq!(ws.request_not_sent(), EmbassyWebSocketError::HandshakeFailed);
    assert_eq!(ws.state(), SessionState::Disconnected);
}

#[test]
fn write_needs_a_connection() {
    let ws = EmbassyWebSocket::new([10, 0, 0, 1], 9001, "/".to_string());
    assert_eq!(ws.write_text(b"controller", [1, 2, 3, 4]), Err(EmbassyWebSocketError::ConnectionClosed));
}

#[test]
fn write_frames_text_with_given_key() {
    let ws = connected_session();
    let frame = ws.write_text(b"user", [0, 0, 0, 0]).unwrap();
    assert_eq!(frame, vec![0x81, 0x84, 0, 0, 0, 0, b'u', b's', b'e', b'r']);
    assert_eq!(ws.write_text(&[b'x'; 126], [0, 0, 0, 0]), Err(EmbassyWebSocketError::FrameCreationFailed));
}

#[test]
fn failed_write_ends_session() {
    let mut ws = connected_session();
    assert_eq!(ws.write_done(true), Ok(()));
    assert_eq!(ws.write_done(false), Err(EmbassyWebSocketError::SendFailed));
    assert!(!ws.is_connected());
    assert_eq!(ws.write_done(true), Err(EmbassyWebSocketError::ConnectionClosed));
}

#[test]
fn reads_report_bytes_and_failures() {
    let mut ws = connected_session();
    assert_eq!(ws.read(Ok(12)), Ok(12));
    assert_eq!(ws.read_with_timeout(None), Err(EmbassyWebSocketError::ReadError));
    assert!(ws.is_connected());
    assert_eq!(ws.read_with_timeout(Some(Ok(0))), Ok(0));
    assert!(!ws.is_connected());
    assert_eq!(ws.read(Ok(3)), Err(EmbassyWebSocketError::ConnectionClosed));
    let mut ws = connected_session();
    assert_eq!(ws.read(Err(())), Err(EmbassyWebSocketError::ReadError));
    assert!(!ws.is_connected());
}

#[test]
fn disconnect_is_idempotent() {
    let mut ws = connected_session();
    assert!(ws.disconnect());
    assert!(!ws.disconnect());
    assert_eq!(ws.state(), SessionState::Disconnected);
}
