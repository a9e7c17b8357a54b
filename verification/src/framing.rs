//! Length-prefixed message framing.
//!
//! Every logical message on the wire is an 8-byte big-endian unsigned length
//! followed by that many payload bytes. A receiver must bound the length it is
//! willing to accept before allocating, so oversized prefixes are rejected
//! without touching the payload.

use vstd::prelude::*;

verus! {

/// The big-endian byte encoding of a 64-bit length.
pub open spec fn spec_be_bytes(n: u64) -> Seq<u8> {
    seq![
        (n >> 56) as u8,
        (n >> 48) as u8,
        (n >> 40) as u8,
        (n >> 32) as u8,
        (n >> 24) as u8,
        (n >> 16) as u8,
        (n >> 8) as u8,
        n as u8,
    ]
}

/// The 64-bit length read back from 8 big-endian bytes.
pub open spec fn spec_be_u64(b: Seq<u8>) -> u64
    recommends
        b.len() == 8,
{
    (((b[0] as u64) << 56) | ((b[1] as u64) << 48) | ((b[2] as u64) << 40) | ((b[3] as u64) << 32)
        | ((b[4] as u64) << 24) | ((b[5] as u64) << 16) | ((b[6] as u64) << 8) | (b[7] as u64)) as u64
}

/// Decoding the big-endian encoding of a length gives the length back.
pub proof fn lemma_be_round_trip(n: u64)
    ensures
        spec_be_u64(spec_be_bytes(n)) == n,
{
    let b = spec_be_bytes(n);
    assert(((((n >> 56) as u8) as u64) << 56 | (((n >> 48) as u8) as u64) << 48
        | (((n >> 40) as u8) as u64) << 40 | (((n >> 32) as u8) as u64) << 32
        | (((n >> 24) as u8) as u64) << 24 | (((n >> 16) as u8) as u64) << 16
        | (((n >> 8) as u8) as u64) << 8 | ((n as u8) as u64)) as u64 == n) by (bit_vector);
}

/// Writes a length as 8 big-endian bytes.
pub fn encode_length(length: u64) -> (r: Vec<u8>)
    ensures
        r@ == spec_be_bytes(length),
{
    let mut r: Vec<u8> = Vec::new();
    r.push((length >> 56) as u8);
    r.push((length >> 48) as u8);
    r.push((length >> 40) as u8);
    r.push((length >> 32) as u8);
    r.push((length >> 24) as u8);
    r.push((length >> 16) as u8);
    r.push((length >> 8) as u8);
    r.push(length as u8);
    proof {
        assert(r@ =~= spec_be_bytes(length));
    }
    r
}

/// Reads a length from 8 big-endian bytes.
pub fn decode_length(bytes: &[u8]) -> (r: u64)
    requires
        bytes@.len() == 8,
    ensures
        r == spec_be_u64(bytes@),
{
    ((bytes[0] as u64) << 56) | ((bytes[1] as u64) << 48) | ((bytes[2] as u64) << 40)
        | ((bytes[3] as u64) << 32) | ((bytes[4] as u64) << 24) | ((bytes[5] as u64) << 16)
        | ((bytes[6] as u64) << 8) | (bytes[7] as u64)
}

/// Why a buffer holds no frame: its bytes end before the frame does, or the
/// announced length is over the receiver's limit.
#[derive(Clone, Copy, Debug, PartialEq, Eq, Structural)]
pub enum FrameError {
    Truncated,
    Oversized,
}

/// One framed message: the payload's length as 8 big-endian bytes, then the
/// payload itself.
pub open spec fn spec_encode_frame(message: Seq<u8>) -> Seq<u8> {
    spec_be_bytes(message.len() as u64) + message
}

/// What decoding one frame from the front of a buffer yields: the payload and
/// the number of bytes consumed, or the reason there is no frame. A length
/// over `max_length` is rejected before the payload is looked at.
pub open spec fn spec_decode_frame(buffer: Seq<u8>, max_length: u64) -> Result<(Seq<u8>, int), FrameError> {
    if buffer.len() < 8 {
        Err(FrameError::Truncated)
    } else {
        let length = spec_be_u64(buffer.subrange(0, 8));
        if length > max_length {
            Err(FrameError::Oversized)
        } else if buffer.len() < 8 + length {
            Err(FrameError::Truncated)
        } else {
            Ok((buffer.subrange(8, 8 + length), 8 + length))
        }
    }
}

/// Frames a message for the wire.
pub fn encode_frame(message: &[u8]) -> (r: Vec<u8>)
    ensures
        r@ == spec_encode_frame(message@),
{
    let mut r = encode_length(message.len() as u64);
    let mut i: usize = 0;
    while i < message.len()
        invariant
            i <= message@.len(),
            r@ == spec_be_bytes(message@.len() as u64) + message@.subrange(0, i as int),
        decreases message@.len() - i,
    {
        r.push(message[i]);
        i = i + 1;
        proof {
            assert(message@.subrange(0, i - 1) + seq![message@[i - 1]]
                =~= message@.subrange(0, i as int));
        }
    }
    proof {
        assert(message@.subrange(0, message@.len() as int) =~= message@);
    }
    r
}

/// Decodes one frame from the front of a buffer. A length prefix above
/// `max_length` is refused at once, before any payload is read or space for
/// it is asked for.
pub fn decode_frame(buffer: &[u8], max_length: u64) -> (r: Result<(Vec<u8>, usize), FrameError>)
    ensures
        r matches Ok((payload, consumed))
            ==> spec_decode_frame(buffer@, max_length) == Ok::<(Seq<u8>, int), FrameError>((payload@, consumed as int)),
        r matches Err(e) ==> spec_decode_frame(buffer@, max_length) == Err::<(Seq<u8>, int), FrameError>(e),
{
    if buffer.len() < 8 {
        return Err(FrameError::Truncated);
    }
    let header: &[u8] = &buffer[0..8];
    let length = decode_length(header);
    proof {
        assert(header@ =~= buffer@.subrange(0, 8));
    }
    if length > max_length {
        return Err(FrameError::Oversized);
    }
    if ((buffer.len() - 8) as u64) < length {
        return Err(FrameError::Truncated);
    }
    let length = length as usize;
    let mut payload: Vec<u8> = Vec::new();
    let mut i: usize = 0;
    while i < length
        invariant
            i <= length,
            8 + length <= buffer@.len(),
            8 + length <= usize::MAX,
            payload@ == buffer@.subrange(8, 8 + i as int),
        decreases length - i,
    {
        payload.push(buffer[8 + i]);
        i = i + 1;
        proof {
            assert(buffer@.subrange(8, 8 + (i - 1)) + seq![buffer@[8 + (i - 1)]]
                =~= buffer@.subrange(8, 8 + i as int));
        }
    }
    Ok((payload, 8 + length))
}

/// Law: framing round-trips. Decoding a buffer that starts with an encoded
/// frame yields that frame's payload and consumes exactly the frame, whatever
/// bytes follow, as long as the payload is within the receiver's limit.
pub proof fn lemma_frame_round_trip(message: Seq<u8>, rest: Seq<u8>, max_length: u64)
    requires
        message.len() <= max_length,
    ensures
        spec_decode_frame(spec_encode_frame(message) + rest, max_length)
            == Ok::<(Seq<u8>, int), FrameError>((message, 8 + message.len() as int)),
{
    let buffer = spec_encode_frame(message) + rest;
    assert(buffer.subrange(0, 8) =~= spec_be_bytes(message.len() as u64));
    lemma_be_round_trip(message.len() as u64);
    assert(buffer.subrange(8, 8 + message.len() as int) =~= message);
}

} // verus!
