//! The device's WebSocket session: which state it is in, and what each
//! operation does to that state. The byte stream itself is driven by the
//! caller, which reports each outcome back.
use vstd::prelude::*;

use crate::frame::{bytes_to_websocket_frame, text_frame, FrameError, MAX_PAYLOAD_LEN};
use crate::handshake::{
    base64_of, build_upgrade_request, generate_websocket_key, step_outcome, step_response,
    upgrade_request, HandshakeWait, ReadEvent,
};

verus! {

#[derive(Debug, Clone, Copy, PartialEq, Eq, Structural)]
pub enum EmbassyWebSocketError {
    ConnectionFailed,
    HandshakeFailed,
    HandshakeTimeout,
    ConnectionClosed,
    ReadError,
    SendFailed,
    KeyGenerationFailed,
    FrameCreationFailed,
    MessageTooLarge,
}


#[derive(Debug, Clone, Copy, PartialEq, Eq, Structural)]
pub enum SessionState {
    Disconnected,
    Connecting,
    Connected,
}

/// A WebSocket session to one server endpoint. The caller owns the byte
/// stream; the session decides what to send, and tracks its state from the
/// outcomes the caller reports.
pub struct EmbassyWebSocket {
    ip: [u8; 4],
    port: u16,
    path: String,
    state: SessionState,
    wait: HandshakeWait,
}

impl EmbassyWebSocket {
    pub closed spec fn session_state(&self) -> SessionState {
        self.state
    }

    pub closed spec fn endpoint_ip(&self) -> Seq<u8> {
        self.ip@
    }

    pub closed spec fn endpoint_port(&self) -> u16 {
        self.port
    }

    pub closed spec fn endpoint_path(&self) -> Seq<char> {
        self.path@
    }

    /// The handshake answer read so far, while connecting.
    pub closed spec fn handshake_response(&self) -> Seq<u8> {
        self.wait@
    }

    pub open spec fn same_endpoint(&self, other: &Self) -> bool {
        &&& self.endpoint_ip() == other.endpoint_ip()
        &&& self.endpoint_port() == other.endpoint_port()
        &&& self.endpoint_path() == other.endpoint_path()
    }

    /// A session to `ip:port` at `path`, not yet connected.
    pub fn new(ip: [u8; 4], port: u16, path: String) -> (r: Self)
        ensures
            r.session_state() == SessionState::Disconnected,
            r.endpoint_ip() == ip@,
            r.endpoint_port() == port,
            r.endpoint_path() == path@,
    {
        EmbassyWebSocket { ip, port, path, state: SessionState::Disconnected, wait: HandshakeWait::new() }
    }

    pub fn is_connected(&self) -> (r: bool)
        ensures
            r == (self.session_state() == SessionState::Connected),
    {
        self.state == SessionState::Connected
    }

    pub fn state(&self) -> (r: SessionState)
        ensures
            r == self.session_state(),
    {
        self.state
    }

    /// Starts a connection once the caller has tried to open the stream.
    /// When it could not, the session is disconnected and the error is
    /// `ConnectionFailed`. Else the session is connecting and the result is
    /// the upgrade request to write, with the key made from `random`.
    pub fn connect(&mut self, stream_opened: bool, random: &[u8; 16]) -> (r: Result<
        String,
        EmbassyWebSocketError,
    >)
        ensures
            final(self).same_endpoint(old(self)),
            !stream_opened ==> r == Err::<String, EmbassyWebSocketError>(EmbassyWebSocketError::ConnectionFailed)
                && final(self).session_state() == SessionState::Disconnected,
            stream_opened ==> r is Ok && r->Ok_0@ == upgrade_request(
                old(self).endpoint_ip(),
                old(self).endpoint_port() as nat,
                old(self).endpoint_path(),
                base64_of(random@),
            ) && final(self).session_state() == SessionState::Connecting
                && final(self).handshake_response() == Seq::<u8>::empty(),
    {
        if !stream_opened {
            self.state = SessionState::Disconnected;
            return Err(EmbassyWebSocketError::ConnectionFailed);
        }
        let key = match generate_websocket_key(random) {
            Ok(key) => key,
            Err(e) => {
                self.state = SessionState::Disconnected;
                return Err(e);
            },
        };
        let request = build_upgrade_request(self.ip, self.port, self.path.as_str(), key.as_str());
        self.wait = HandshakeWait::new();
        self.state = SessionState::Connecting;
        Ok(request)
    }

    /// The upgrade request could not be written: the connection attempt
    /// ends with `HandshakeFailed`.
    pub fn request_not_sent(&mut self) -> (r: EmbassyWebSocketError)
        ensures
            r == EmbassyWebSocketError::HandshakeFailed,
            final(self).session_state() == SessionState::Disconnected,
            final(self).same_endpoint(old(self)),
    {
        self.state = SessionState::Disconnected;
        EmbassyWebSocketError::HandshakeFailed
    }

    /// Takes one event of the wait for the handshake answer. On success the
    /// session is connected, on failure disconnected; `None` keeps it waiting.
    pub fn handshake_event(&mut self, event: ReadEvent) -> (r: Option<
        Result<(), EmbassyWebSocketError>,
    >)
        requires
            old(self).session_state() == SessionState::Connecting,
        ensures
            r == step_outcome(old(self).handshake_response(), event@),
            final(self).handshake_response() == step_response(old(self).handshake_response(), event@),
            final(self).same_endpoint(old(self)),
            final(self).session_state() == match r {
                None => SessionState::Connecting,
                Some(Ok(())) => SessionState::Connected,
                Some(Err(_)) => SessionState::Disconnected,
            },
    {
        let r = self.wait.step(event);
        match r {
            None => {},
            Some(Ok(())) => {
                self.state = SessionState::Connected;
            },
            Some(Err(_)) => {
                self.state = SessionState::Disconnected;
            },
        }
        r
    }

    /// The frame to write for a text message, masked with `masking_key`,
    /// which the caller draws afresh for every frame. Fails with
    /// `ConnectionClosed` when not connected and with `FrameCreationFailed`
    /// when the text is over 125 bytes.
    pub fn write_text(&self, text: &[u8], masking_key: [u8; 4]) -> (r: Result<
        Vec<u8>,
        EmbassyWebSocketError,
    >)
        ensures
            self.session_state() != SessionState::Connected ==> r == Err::<Vec<u8>, EmbassyWebSocketError>(
                EmbassyWebSocketError::ConnectionClosed,
            ),
            self.session_state() == SessionState::Connected && text@.len() > MAX_PAYLOAD_LEN ==> r
                == Err::<Vec<u8>, EmbassyWebSocketError>(EmbassyWebSocketError::FrameCreationFailed),
            self.session_state() == SessionState::Connected && text@.len() <= MAX_PAYLOAD_LEN ==> r
                is Ok && r->Ok_0@ == text_frame(text@, masking_key@),
    {
        if self.state != SessionState::Connected {
            return Err(EmbassyWebSocketError::ConnectionClosed);
        }
        match bytes_to_websocket_frame(text, masking_key) {
            Ok(frame) => Ok(frame),
            Err(FrameError::PayloadTooLarge) => Err(EmbassyWebSocketError::FrameCreationFailed),
        }
    }

    /// Takes the outcome of writing and flushing a frame. A failed write ends
    /// the session with `SendFailed`.
    pub fn write_done(&mut self, written: bool) -> (r: Result<(), EmbassyWebSocketError>)
        ensures
            final(self).same_endpoint(old(self)),
            old(self).session_state() != SessionState::Connected ==> r == Err::<(), EmbassyWebSocketError>(
                EmbassyWebSocketError::ConnectionClosed,
            ) && final(self).session_state() == old(self).session_state(),
            old(self).session_state() == SessionState::Connected && written ==> r is Ok
                && final(self).session_state() == SessionState::Connected,
            old(self).session_state() == SessionState::Connected && !written ==> r == Err::<(), EmbassyWebSocketError>(
                EmbassyWebSocketError::SendFailed,
            ) && final(self).session_state() == SessionState::Disconnected,
    {
        if self.state != SessionState::Connected {
            return Err(EmbassyWebSocketError::ConnectionClosed);
        }
        if written {
            Ok(())
        } else {
            self.state = SessionState::Disconnected;
            Err(EmbassyWebSocketError::SendFailed)
        }
    }

    /// Takes the outcome of a read: the number of bytes read, or `Err` when
    /// the read failed. Zero bytes mean that the peer closed the stream, and
    /// a failed read is a `ReadError`; either ends the session.
    pub fn read(&mut self, outcome: Result<usize, ()>) -> (r: Result<usize, EmbassyWebSocketError>)
        ensures
            final(self).same_endpoint(old(self)),
            old(self).session_state() != SessionState::Connected ==> r == Err::<usize, EmbassyWebSocketError>(
                EmbassyWebSocketError::ConnectionClosed,
            ) && final(self).session_state() == old(self).session_state(),
            old(self).session_state() == SessionState::Connected ==> match outcome {
                Ok(n) => r == Ok::<usize, EmbassyWebSocketError>(n) && final(self).session_state() == (
                if n == 0 {
                    SessionState::Disconnected
                } else {
                    SessionState::Connected
                }),
                Err(()) => r == Err::<usize, EmbassyWebSocketError>(EmbassyWebSocketError::ReadError)
                    && final(self).session_state() == SessionState::Disconnected,
            },
    {
        if self.state != SessionState::Connected {
            return Err(EmbassyWebSocketError::ConnectionClosed);
        }
        match outcome {
            Ok(n) => {
                if n == 0 {
                    self.state = SessionState::Disconnected;
                }
                Ok(n)
            },
            Err(()) => {
                self.state = SessionState::Disconnected;
                Err(EmbassyWebSocketError::ReadError)
            },
        }
    }

    /// Like `read`, for a read with a time limit: `None` means that the time
    /// ran out, which is a `ReadError` but leaves the session connected.
    pub fn read_with_timeout(&mut self, outcome: Option<Result<usize, ()>>) -> (r: Result<
        usize,
        EmbassyWebSocketError,
    >)
        ensures
            final(self).same_endpoint(old(self)),
            old(self).session_state() != SessionState::Connected ==> r == Err::<usize, EmbassyWebSocketError>(
                EmbassyWebSocketError::ConnectionClosed,
            ) && final(self).session_state() == old(self).session_state(),
            old(self).session_state() == SessionState::Connected ==> match outcome {
                None => r == Err::<usize, EmbassyWebSocketError>(EmbassyWebSocketError::ReadError)
                    && final(self).session_state() == SessionState::Connected,
                Some(Ok(n)) => r == Ok::<usize, EmbassyWebSocketError>(n) && final(self).session_state() == (
                if n == 0 {
                    SessionState::Disconnected
                } else {
                    SessionState::Connected
                }),
                Some(Err(())) => r == Err::<usize, EmbassyWebSocketError>(EmbassyWebSocketError::ReadError)
                    && final(self).session_state() == SessionState::Disconnected,
            },
    {
        if self.state != SessionState::Connected {
            return Err(EmbassyWebSocketError::ConnectionClosed);
        }
        match outcome {
            None => Err(EmbassyWebSocketError::ReadError),
            Some(done) => self.read(done),
        }
    }

    /// Ends the session. The result tells whether a stream was live, which
    /// the caller then closes; a second call does nothing.
    pub fn disconnect(&mut self) -> (r: bool)
        ensures
            r == (old(self).session_state() != SessionState::Disconnected),
            final(self).session_state() == SessionState::Disconnected,
            final(self).same_endpoint(old(self)),
    {
        let live = self.state != SessionState::Disconnected;
        self.state = SessionState::Disconnected;
        live
    }
}

} // verus!
