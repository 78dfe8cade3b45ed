//! The client side of the WebSocket opening handshake: the key, the HTTP
//! upgrade request, and the wait for the server's answer.
use vstd::prelude::*;
use base64ct::{Base64, Encoding};

use crate::session::EmbassyWebSocketError;

verus! {

/// Number of random bytes behind a handshake key.
pub const KEY_SOURCE_LEN: usize = 16;

/// Length of a handshake key: 16 bytes in padded Base64.
pub const KEY_LEN: usize = 24;

/// Standard padded Base64 of a byte string.
pub uninterp spec fn base64_of(b: Seq<u8>) -> Seq<char>;

/// Relies on base64ct's `Base64::encode`: with an output buffer of at least
/// `((4 * n / 3) + 3) & !3` bytes (24 for 16 input bytes) it returns the
/// padded encoding and fails on nothing else.
#[verifier::external_body]
fn encode_key_bytes(random: &[u8; 16]) -> (r: Option<String>)
    ensures
        r is Some,
        r->Some_0@ == base64_of(random@),
        r->Some_0@.len() == KEY_LEN,
{
    let mut buffer = [0u8; 24];
    Base64::encode(random, &mut buffer).ok().map(String::from)
}

/// The `Sec-WebSocket-Key` for 16 random bytes: their padded Base64, 24
/// characters long. The caller supplies the randomness.
pub fn generate_websocket_key(random: &[u8; 16]) -> (r: Result<String, EmbassyWebSocketError>)
    ensures
        r is Ok,
        r->Ok_0@ == base64_of(random@),
        r->Ok_0@.len() == KEY_LEN,
{
    match encode_key_bytes(random) {
        Some(key) => Ok(key),
        None => Err(EmbassyWebSocketError::KeyGenerationFailed),
    }
}

/// The decimal digit for `d < 10`.
pub open spec fn digit_char(d: nat) -> char {
    if d == 0 { '0' }
    else if d == 1 { '1' }
    else if d == 2 { '2' }
    else if d == 3 { '3' }
    else if d == 4 { '4' }
    else if d == 5 { '5' }
    else if d == 6 { '6' }
    else if d == 7 { '7' }
    else if d == 8 { '8' }
    else { '9' }
}

/// The decimal text of `n`, without leading zeros.
pub open spec fn decimal(n: nat) -> Seq<char>
    decreases n,
{
    if n < 10 {
        seq![digit_char(n)]
    } else {
        decimal(n / 10) + seq![digit_char(n % 10)]
    }
}

/// Dotted-decimal text of an IPv4 address.
pub open spec fn ipv4_text(ip: Seq<u8>) -> Seq<char> {
    decimal(ip[0] as nat) + "."@ + decimal(ip[1] as nat) + "."@ + decimal(ip[2] as nat) + "."@
        + decimal(ip[3] as nat)
}

/// The HTTP/1.1 upgrade request for `path` on `ip:port` with the given key.
pub open spec fn upgrade_request(ip: Seq<u8>, port: nat, path: Seq<char>, key: Seq<char>) -> Seq<
    char,
> {
    "GET "@ + path + " HTTP/1.1\r\nHost: "@ + ipv4_text(ip) + ":"@ + decimal(port)
        + "\r\nUpgrade: websocket\r\nConnection: Upgrade\r\nSec-WebSocket-Key: "@ + key
        + "\r\nSec-WebSocket-Version: 13\r\n\r\n"@
}

fn digit_str(d: u32) -> (s: &'static str)
    requires
        d < 10,
    ensures
        s@ == seq![digit_char(d as nat)],
{
    proof {
        reveal_strlit("0");
        reveal_strlit("1");
        reveal_strlit("2");
        reveal_strlit("3");
        reveal_strlit("4");
        reveal_strlit("5");
        reveal_strlit("6");
        reveal_strlit("7");
        reveal_strlit("8");
        reveal_strlit("9");
    }
    let s = match d {
        0 => "0",
        1 => "1",
        2 => "2",
        3 => "3",
        4 => "4",
        5 => "5",
        6 => "6",
        7 => "7",
        8 => "8",
        _ => "9",
    };
    assert(s@ =~= seq![digit_char(d as nat)]);
    s
}

fn append_decimal(text: &mut String, n: u32)
    ensures
        final(text)@ == old(text)@ + decimal(n as nat),
    decreases n,
{
    if n >= 10 {
        append_decimal(text, n / 10);
    }
    text.append(digit_str(n % 10));
    proof {
        if n >= 10 {
            assert(decimal(n as nat) == decimal((n / 10) as nat) + seq![digit_char((n % 10) as nat)]);
        } else {
            assert(n % 10 == n);
        }
    }
    assert(final(text)@ =~= old(text)@ + decimal(n as nat)) by {
        if n >= 10 {
            assert(decimal(n as nat) == decimal((n / 10) as nat) + seq![digit_char((n % 10) as nat)]);
        }
    }
}

fn append_ipv4(text: &mut String, ip: [u8; 4])
    ensures
        final(text)@ == old(text)@ + ipv4_text(ip@),
{
    append_decimal(text, ip[0] as u32);
    text.append(".");
    append_decimal(text, ip[1] as u32);
    text.append(".");
    append_decimal(text, ip[2] as u32);
    text.append(".");
    append_decimal(text, ip[3] as u32);
    assert(text@ =~= old(text)@ + ipv4_text(ip@));
}

/// The upgrade request that opens a WebSocket session on `ip:port` at `path`.
pub fn build_upgrade_request(ip: [u8; 4], port: u16, path: &str, websocket_key: &str) -> (r:
    String)
    ensures
        r@ == upgrade_request(ip@, port as nat, path@, websocket_key@),
{
    let mut request = String::new();
    request.append("GET ");
    request.append(path);
    request.append(" HTTP/1.1\r\nHost: ");
    append_ipv4(&mut request, ip);
    request.append(":");
    append_decimal(&mut request, port as u32);
    request.append("\r\nUpgrade: websocket\r\nConnection: Upgrade\r\nSec-WebSocket-Key: ");
    request.append(websocket_key);
    request.append("\r\nSec-WebSocket-Version: 13\r\n\r\n");
    assert(request@ =~= upgrade_request(ip@, port as nat, path@, websocket_key@));
    request
}


/// ASCII lower case of a byte; other bytes are unchanged.
pub open spec fn ascii_lower(b: u8) -> u8 {
    if 65 <= b <= 90 { (b + 32) as u8 } else { b }
}

/// `needle` occurs in `hay` starting at `at`, ignoring ASCII case on the
/// side of `hay` (the needle is written in lower case).
pub open spec fn matches_at(hay: Seq<u8>, needle: Seq<u8>, at: int) -> bool {
    &&& 0 <= at
    &&& at + needle.len() <= hay.len()
    &&& forall|j: int| 0 <= j < needle.len() ==> ascii_lower(#[trigger] hay[at + j]) == needle[j]
}

pub open spec fn contains_folded(hay: Seq<u8>, needle: Seq<u8>) -> bool {
    exists|at: int| matches_at(hay, needle, at)
}

/// `sec-websocket-accept` in ASCII.
pub open spec fn accept_header() -> Seq<u8> {
    seq![115u8, 101, 99, 45, 119, 101, 98, 115, 111, 99, 107, 101, 116, 45, 97, 99, 99, 101, 112, 116]
}

/// The response text holds the `Sec-WebSocket-Accept` header name in any case.
pub open spec fn is_accepted(response: Seq<u8>) -> bool {
    contains_folded(response, accept_header())
}

fn lower_byte(b: u8) -> (r: u8)
    ensures
        r == ascii_lower(b),
{
    if 65 <= b && b <= 90 { b + 32 } else { b }
}

fn accept_header_bytes() -> (r: Vec<u8>)
    ensures
        r@ == accept_header(),
{
    let r: Vec<u8> = vec![115u8, 101, 99, 45, 119, 101, 98, 115, 111, 99, 107, 101, 116, 45, 97, 99, 99, 101, 112, 116];
    assert(r@ =~= accept_header());
    r
}

/// Whether `needle` (in lower case) occurs in `hay`, ignoring ASCII case.
pub fn contains_ignore_ascii_case(hay: &[u8], needle: &[u8]) -> (r: bool)
    ensures
        r == contains_folded(hay@, needle@),
{
    if needle.len() > hay.len() {
        assert(!contains_folded(hay@, needle@));
        return false;
    }
    if needle.len() == 0 {
        assert(matches_at(hay@, needle@, 0));
        return true;
    }
    let n = hay.len();
    let last = n - needle.len();
    let mut at: usize = 0;
    while at <= last
        invariant
            n == hay@.len(),
            last == n - needle@.len(),
            0 < needle@.len() <= n,
            0 <= at <= last + 1,
            forall|a: int| 0 <= a < at ==> !matches_at(hay@, needle@, a),
        decreases last + 1 - at,
    {
        let mut j: usize = 0;
        let mut ok = true;
        while j < needle.len()
            invariant
                at <= last,
                n == hay@.len(),
                last == n - needle@.len(),
                0 < needle@.len() <= n,
                0 <= j <= needle@.len(),
                ok == (forall|k: int| 0 <= k < j ==> ascii_lower(#[trigger] hay@[at + k]) == needle@[k]),
            decreases needle@.len() - j,
        {
            if lower_byte(hay[at + j]) != needle[j] {
                ok = false;
            }
            j = j + 1;
        }
        if ok {
            assert(matches_at(hay@, needle@, at as int));
            return true;
        }
        at = at + 1;
    }
    assert forall|a: int| !matches_at(hay@, needle@, a) by {
        if 0 <= a && a + needle@.len() <= hay@.len() {
            assert(a < at);
        }
    }
    false
}

/// What one read during the handshake wait produced.
pub enum ReadEvent {
    /// Bytes arrived; none at all means the peer closed the stream.
    Data(Vec<u8>),
    /// The read failed.
    Failed,
    /// The deadline passed before the answer was complete.
    DeadlinePassed,
}

pub ghost enum ReadEventView {
    Data(Seq<u8>),
    Failed,
    DeadlinePassed,
}

impl View for ReadEvent {
    type V = ReadEventView;

    open spec fn view(&self) -> ReadEventView {
        match self {
            ReadEvent::Data(b) => ReadEventView::Data(b@),
            ReadEvent::Failed => ReadEventView::Failed,
            ReadEvent::DeadlinePassed => ReadEventView::DeadlinePassed,
        }
    }
}

/// What one event decides, given the response text read so far: `None` to
/// keep waiting, else the outcome of the handshake.
pub open spec fn step_outcome(response: Seq<u8>, event: ReadEventView) -> Option<
    Result<(), EmbassyWebSocketError>,
> {
    match event {
        ReadEventView::Data(b) => if b.len() == 0 {
            Some(Err(EmbassyWebSocketError::ConnectionClosed))
        } else if is_accepted(response + b) {
            Some(Ok(()))
        } else {
            None
        },
        ReadEventView::Failed => Some(Err(EmbassyWebSocketError::ReadError)),
        ReadEventView::DeadlinePassed => if response.len() == 0 {
            Some(Err(EmbassyWebSocketError::HandshakeTimeout))
        } else {
            Some(Err(EmbassyWebSocketError::HandshakeFailed))
        },
    }
}

/// The response text after an event.
pub open spec fn step_response(response: Seq<u8>, event: ReadEventView) -> Seq<u8> {
    match event {
        ReadEventView::Data(b) => response + b,
        _ => response,
    }
}

/// The outcome of a run of events, from the response text read so far.
pub open spec fn run_outcome(response: Seq<u8>, events: Seq<ReadEventView>) -> Option<
    Result<(), EmbassyWebSocketError>,
>
    decreases events.len(),
{
    if events.len() == 0 {
        None
    } else {
        match step_outcome(response, events[0]) {
            Some(o) => Some(o),
            None => run_outcome(step_response(response, events[0]), events.drop_first()),
        }
    }
}

/// All bytes that a run of events delivers.
pub open spec fn delivered(events: Seq<ReadEventView>) -> Seq<u8>
    decreases events.len(),
{
    if events.len() == 0 {
        Seq::empty()
    } else {
        step_response(Seq::empty(), events[0]) + delivered(events.drop_first())
    }
}

/// The state of the wait for the server's handshake answer: every byte read so far.
pub struct HandshakeWait {
    response: Vec<u8>,
}

impl View for HandshakeWait {
    type V = Seq<u8>;

    closed spec fn view(&self) -> Seq<u8> {
        self.response@
    }
}

impl HandshakeWait {
    pub fn new() -> (r: Self)
        ensures
            r@ == Seq::<u8>::empty(),
    {
        HandshakeWait { response: Vec::new() }
    }

    /// Number of bytes read so far.
    pub fn total_bytes(&self) -> (r: usize)
        ensures
            r == self@.len(),
    {
        self.response.len()
    }

    /// Takes one event of the wait. The wait ends with success once the text
    /// read so far holds `Sec-WebSocket-Accept` in any case; with
    /// `ConnectionClosed` when the peer closes; with `ReadError` when a read
    /// fails; and at the deadline with `HandshakeTimeout` if nothing was ever
    /// read, else `HandshakeFailed`.
    pub fn step(&mut self, event: ReadEvent) -> (r: Option<Result<(), EmbassyWebSocketError>>)
        ensures
            r == step_outcome(old(self)@, event@),
            final(self)@ == step_response(old(self)@, event@),
    {
        match event {
            ReadEvent::Data(bytes) => {
                if bytes.len() == 0 {
                    return Some(Err(EmbassyWebSocketError::ConnectionClosed));
                }
                let ghost before = self.response@;
                let mut i: usize = 0;
                while i < bytes.len()
                    invariant
                        0 <= i <= bytes@.len(),
                        self.response@ == before + bytes@.subrange(0, i as int),
                    decreases bytes@.len() - i,
                {
                    self.response.push(bytes[i]);
                    assert(bytes@.subrange(0, i + 1) =~= bytes@.subrange(0, i as int).push(bytes@[i as int]));
                    i = i + 1;
                }
                assert(bytes@.subrange(0, bytes@.len() as int) =~= bytes@);
                let needle = accept_header_bytes();
                if contains_ignore_ascii_case(self.response.as_slice(), needle.as_slice()) {
                    Some(Ok(()))
                } else {
                    None
                }
            },
            ReadEvent::Failed => Some(Err(EmbassyWebSocketError::ReadError)),
            ReadEvent::DeadlinePassed => {
                if self.response.len() == 0 {
                    Some(Err(EmbassyWebSocketError::HandshakeTimeout))
                } else {
                    Some(Err(EmbassyWebSocketError::HandshakeFailed))
                }
            },
        }
    }
}

proof fn lemma_matches_extend(hay: Seq<u8>, more: Seq<u8>, needle: Seq<u8>, at: int)
    requires
        matches_at(hay, needle, at),
    ensures
        matches_at(hay + more, needle, at),
{
    assert forall|j: int| 0 <= j < needle.len() implies ascii_lower(#[trigger] (hay + more)[at + j])
        == needle[j] by {
        assert((hay + more)[at + j] == hay[at + j]);
    }
}

/// A text that does not hold the header name has no prefix that does.
proof fn lemma_not_accepted_prefix(response: Seq<u8>, more: Seq<u8>)
    requires
        !is_accepted(response + more),
    ensures
        !is_accepted(response),
{
    if is_accepted(response) {
        let at = choose|at: int| matches_at(response, accept_header(), at);
        lemma_matches_extend(response, more, accept_header(), at);
    }
}

/// A wait whose reads all bring bytes, whose text never holds the
/// `Sec-WebSocket-Accept` header name, and which then reaches its deadline,
/// fails with `HandshakeTimeout` when no byte was ever read and with
/// `HandshakeFailed` when some were.
pub proof fn lemma_unanswered_wait(response: Seq<u8>, events: Seq<ReadEventView>)
    requires
        events.len() >= 1,
        events.last() == ReadEventView::DeadlinePassed,
        forall|i: int| 0 <= i < events.len() - 1 ==> (#[trigger] events[i] is Data && events[i]->Data_0.len() > 0),
        !is_accepted(response + delivered(events)),
    ensures
        run_outcome(response, events) == Some(Err::<(), EmbassyWebSocketError>(
            if (response + delivered(events)).len() == 0 {
                EmbassyWebSocketError::HandshakeTimeout
            } else {
                EmbassyWebSocketError::HandshakeFailed
            },
        )),
    decreases events.len(),
{
    if events.len() == 1 {
        assert(delivered(events.drop_first()) =~= Seq::<u8>::empty());
        assert(delivered(events) =~= Seq::<u8>::empty());
        assert(response + delivered(events) =~= response);
    } else {
        let e = events[0];
        assert(e is Data);
        let b = e->Data_0;
        let rest = events.drop_first();
        assert(delivered(events) == step_response(Seq::empty(), e) + delivered(rest));
        assert(step_response(Seq::empty(), e) =~= b);
        assert(response + delivered(events) =~= (response + b) + delivered(rest));
        lemma_not_accepted_prefix(response + b, delivered(rest));
        assert(step_outcome(response, e) == None::<Result<(), EmbassyWebSocketError>>);
        assert forall|i: int| 0 <= i < rest.len() - 1 implies (#[trigger] rest[i] is Data && rest[i]->Data_0.len() > 0) by {
            assert(rest[i] == events[i + 1]);
        }
        lemma_unanswered_wait(response + b, rest);
        assert((response + delivered(events)).len() > 0);
    }
}

} // verus!
