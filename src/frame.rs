//! The client-to-server subset of the WebSocket wire format: one final text
//! frame, a single length byte (payloads of at most 125 bytes) and a 4-byte
//! masking key.
use vstd::prelude::*;

verus! {

/// Largest payload a single-byte length field can carry.
pub const MAX_PAYLOAD_LEN: usize = 125;

/// FIN bit set, opcode 0x1 (text).
pub const FIN_TEXT: u8 = 0x81;

/// MASK bit of the second header byte.
pub const MASK_BIT: u8 = 0x80;

/// Length of the fixed header: two bytes, then the masking key.
pub const HEADER_LEN: usize = 6;

#[derive(Debug, Clone, Copy, PartialEq, Eq, Structural)]
pub enum FrameError {
    PayloadTooLarge,
}

/// The payload XORed byte by byte with the key, which cycles every 4 bytes.
pub open spec fn masked(payload: Seq<u8>, key: Seq<u8>) -> Seq<u8> {
    Seq::new(payload.len(), |i: int| payload[i] ^ key[i % 4])
}

/// The frame that carries `payload` masked with `key`.
pub open spec fn text_frame(payload: Seq<u8>, key: Seq<u8>) -> Seq<u8> {
    seq![FIN_TEXT, (MASK_BIT + payload.len()) as u8] + key + masked(payload, key)
}

/// A masked single-frame text message whose length byte matches its size.
pub open spec fn is_masked_text_frame(frame: Seq<u8>) -> bool {
    &&& HEADER_LEN <= frame.len() <= HEADER_LEN + MAX_PAYLOAD_LEN
    &&& frame[0] == FIN_TEXT
    &&& frame[1] as int == MASK_BIT + (frame.len() - HEADER_LEN)
}

/// The masking key a frame carries.
pub open spec fn frame_key(frame: Seq<u8>) -> Seq<u8> {
    frame.subrange(2, 6)
}

/// The unmasked payload of a masked frame.
pub open spec fn frame_payload(frame: Seq<u8>) -> Seq<u8> {
    masked(frame.subrange(HEADER_LEN as int, frame.len() as int), frame_key(frame))
}

proof fn lemma_xor_twice(b: u8, k: u8)
    ensures
        (b ^ k) ^ k == b,
{
    assert((b ^ k) ^ k == b) by (bit_vector);
}

proof fn lemma_length_byte(n: u8)
    requires
        n <= 125,
    ensures
        MASK_BIT | n == MASK_BIT + n,
{
    assert(n <= 125 ==> 0x80u8 | n == 0x80u8 + n) by (bit_vector);
}

/// Masking is its own inverse: masking twice with one key gives the payload back.
pub proof fn lemma_mask_involutive(payload: Seq<u8>, key: Seq<u8>)
    requires
        key.len() == 4,
    ensures
        masked(masked(payload, key), key) == payload,
{
    assert forall|i: int| 0 <= i < payload.len() implies #[trigger] masked(
        masked(payload, key),
        key,
    )[i] == payload[i] by {
        lemma_xor_twice(payload[i], key[i % 4]);
    }
    assert(masked(masked(payload, key), key) =~= payload);
}

/// Decoding an encoded frame with the key it carries gives the payload back,
/// for every payload of at most 125 bytes and every 4-byte key.
pub proof fn lemma_frame_round_trip(payload: Seq<u8>, key: Seq<u8>)
    requires
        payload.len() <= MAX_PAYLOAD_LEN,
        key.len() == 4,
    ensures
        is_masked_text_frame(text_frame(payload, key)),
        frame_key(text_frame(payload, key)) == key,
        frame_payload(text_frame(payload, key)) == payload,
{
    let f = text_frame(payload, key);
    assert(frame_key(f) =~= key);
    assert(f.subrange(HEADER_LEN as int, f.len() as int) =~= masked(payload, key));
    lemma_mask_involutive(payload, key);
}

/// Builds the frame that carries `bytes` as one final, masked text message.
pub fn bytes_to_websocket_frame(bytes: &[u8], masking_key: [u8; 4]) -> (r: Result<
    Vec<u8>,
    FrameError,
>)
    ensures
        match r {
            Ok(frame) => bytes@.len() <= MAX_PAYLOAD_LEN && frame@ == text_frame(
                bytes@,
                masking_key@,
            ),
            Err(e) => bytes@.len() > MAX_PAYLOAD_LEN && e == FrameError::PayloadTooLarge,
        },
{
    let n = bytes.len();
    if n > MAX_PAYLOAD_LEN {
        return Err(FrameError::PayloadTooLarge);
    }
    let mut frame: Vec<u8> = Vec::with_capacity(n + HEADER_LEN);
    frame.push(FIN_TEXT);
    proof {
        lemma_length_byte(n as u8);
    }
    frame.push(MASK_BIT | (n as u8));
    let mut k: usize = 0;
    while k < 4
        invariant
            0 <= k <= 4,
            frame@ == seq![FIN_TEXT, (MASK_BIT + n) as u8] + masking_key@.subrange(0, k as int),
        decreases 4 - k,
    {
        frame.push(masking_key[k]);
        assert(masking_key@.subrange(0, k + 1) =~= masking_key@.subrange(0, k as int).push(
            masking_key@[k as int],
        ));
        k = k + 1;
    }
    assert(masking_key@.subrange(0, 4) =~= masking_key@);
    let mut i: usize = 0;
    while i < n
        invariant
            0 <= i <= n,
            n == bytes@.len(),
            n <= MAX_PAYLOAD_LEN,
            frame@ == seq![FIN_TEXT, (MASK_BIT + n) as u8] + masking_key@ + masked(
                bytes@.subrange(0, i as int),
                masking_key@,
            ),
        decreases n - i,
    {
        frame.push(bytes[i] ^ masking_key[i % 4]);
        assert(masked(bytes@.subrange(0, i + 1), masking_key@) =~= masked(
            bytes@.subrange(0, i as int),
            masking_key@,
        ).push(bytes@[i as int] ^ masking_key@[(i as int) % 4]));
        i = i + 1;
    }
    assert(bytes@.subrange(0, n as int) =~= bytes@);
    Ok(frame)
}

/// Reads a masked text frame back: the payload unmasked with the key the
/// frame carries, or `None` when the bytes are not such a frame.
pub fn decode_masked_text_frame(frame: &[u8]) -> (r: Option<Vec<u8>>)
    ensures
        match r {
            Some(payload) => is_masked_text_frame(frame@) && payload@ == frame_payload(frame@),
            None => !is_masked_text_frame(frame@),
        },
{
    let len = frame.len();
    if len < HEADER_LEN || len > HEADER_LEN + MAX_PAYLOAD_LEN {
        return None;
    }
    if frame[0] != FIN_TEXT || frame[1] as usize != MASK_BIT as usize + (len - HEADER_LEN) {
        return None;
    }
    let mut payload: Vec<u8> = Vec::with_capacity(len - HEADER_LEN);
    let mut i: usize = 0;
    let ghost body = frame@.subrange(HEADER_LEN as int, len as int);
    while i < len - HEADER_LEN
        invariant
            len == frame@.len(),
            HEADER_LEN <= len,
            0 <= i <= len - HEADER_LEN,
            body == frame@.subrange(HEADER_LEN as int, len as int),
            payload@ == masked(body.subrange(0, i as int), frame_key(frame@)),
        decreases len - HEADER_LEN - i,
    {
        let key_byte = frame[2 + i % 4];
        payload.push(frame[HEADER_LEN + i] ^ key_byte);
        assert(masked(body.subrange(0, i + 1), frame_key(frame@)) =~= masked(
            body.subrange(0, i as int),
            frame_key(frame@),
        ).push(body[i as int] ^ frame_key(frame@)[(i as int) % 4]));
        i = i + 1;
    }
    assert(body.subrange(0, body.len() as int) =~= body);
    Some(payload)
}

/// The payload of a frame from the server, which comes unmasked: the bytes
/// after the two header bytes, or `None` when the frame has no full header.
pub fn unmasked_frame_payload(frame: &[u8]) -> (r: Option<Vec<u8>>)
    ensures
        match r {
            Some(payload) => frame@.len() >= 2 && payload@ == frame@.subrange(
                2,
                frame@.len() as int,
            ),
            None => frame@.len() < 2,
        },
{
    if frame.len() < 2 {
        return None;
    }
    let mut payload: Vec<u8> = Vec::with_capacity(frame.len() - 2);
    let mut i: usize = 2;
    while i < frame.len()
        invariant
            2 <= i <= frame@.len(),
            payload@ == frame@.subrange(2, i as int),
        decreases frame@.len() - i,
    {
        payload.push(frame[i]);
        assert(frame@.subrange(2, i + 1) =~= frame@.subrange(2, i as int).push(frame@[i as int]));
        i = i + 1;
    }
    Some(payload)
}

} // verus!
