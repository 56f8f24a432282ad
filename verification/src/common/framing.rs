//! Length-prefixed framing for the TCP control channel.
//!
//! Wire format per message:
//!   [length: u32 LE][MessagePack payload: length bytes]
//! The reading and writing of the stream, and the MessagePack coding of the
//! payload, stand around these functions; here are the frame's rules.
use vstd::prelude::*;

use crate::common::bytes::{
    lemma_le_u32_roundtrip, le_u32_at, le_u32_bytes, read_u32_le, write_u32_le,
};
use crate::common::error::FramingError;

verus! {

/// Size of the length prefix in bytes.
pub const LENGTH_PREFIX_BYTES: usize = 4;

/// Maximum allowed message size (4 MiB). Protects against malformed lengths.
pub const MAX_MESSAGE_BYTES: u32 = 4194304;

/// The length that a prefix announces, or the error that refuses it.
pub open spec fn prefix_result(prefix: Seq<u8>) -> Result<u32, FramingError> {
    if le_u32_at(prefix, 0) > MAX_MESSAGE_BYTES {
        Err(FramingError::MessageTooLarge(le_u32_at(prefix, 0)))
    } else {
        Ok(le_u32_at(prefix, 0))
    }
}

/// Reads the length prefix of a message: the number of payload bytes that
/// follow it, refused when above `MAX_MESSAGE_BYTES`.
pub fn read_length_prefix(prefix: &[u8]) -> (res: Result<u32, FramingError>)
    requires
        prefix@.len() == LENGTH_PREFIX_BYTES,
    ensures
        le_u32_at(prefix@, 0) <= MAX_MESSAGE_BYTES ==> res == Ok::<u32, FramingError>(
            le_u32_at(prefix@, 0),
        ),
        le_u32_at(prefix@, 0) > MAX_MESSAGE_BYTES ==> (res matches Err(
            FramingError::MessageTooLarge(m),
        ) && m == le_u32_at(prefix@, 0)),
{
    let len = read_u32_le(prefix, 0);
    if len > MAX_MESSAGE_BYTES {
        return Err(FramingError::MessageTooLarge(len));
    }
    Ok(len)
}

/// The frame of a payload: its length, then the payload itself.
pub open spec fn frame_bytes(payload: Seq<u8>) -> Seq<u8> {
    le_u32_bytes(payload.len() as u32) + payload
}

/// Frames an encoded payload for the stream: the four bytes of its length,
/// then the payload. A payload above `MAX_MESSAGE_BYTES` is refused, and the
/// error carries its length cut to 32 bits.
pub fn frame_message(payload: &[u8]) -> (res: Result<Vec<u8>, FramingError>)
    ensures
        payload@.len() > MAX_MESSAGE_BYTES ==> (res matches Err(FramingError::MessageTooLarge(m))
            && m == payload@.len() % 0x1_0000_0000),
        payload@.len() <= MAX_MESSAGE_BYTES ==> (res matches Ok(v) && v@ == frame_bytes(payload@)),
{
    let n = payload.len();
    if n > MAX_MESSAGE_BYTES as usize {
        let cut = ((n as u64) % 0x1_0000_0000u64) as u32;
        return Err(FramingError::MessageTooLarge(cut));
    }
    let mut out: Vec<u8> = vec![0u8; LENGTH_PREFIX_BYTES];
    write_u32_le(out.as_mut_slice(), 0, n as u32);
    assert(out@ =~= le_u32_bytes(n as u32));
    let mut i: usize = 0;
    while i < n
        invariant
            i <= n,
            n == payload@.len(),
            out@ == le_u32_bytes(n as u32) + payload@.take(i as int),
        decreases n - i,
    {
        out.push(payload[i]);
        assert(out@ =~= le_u32_bytes(n as u32) + payload@.take(i + 1));
        i = i + 1;
    }
    assert(payload@.take(n as int) =~= payload@);
    Ok(out)
}

/// Reading the prefix of a framed payload gives the payload's length, and
/// the payload follows the prefix unchanged.
pub proof fn lemma_frame_roundtrip(payload: Seq<u8>)
    requires
        payload.len() <= MAX_MESSAGE_BYTES,
    ensures
        prefix_result(frame_bytes(payload).take(4)) == Ok::<u32, FramingError>(
            payload.len() as u32,
        ),
        frame_bytes(payload).skip(4) == payload,
{
    let f = frame_bytes(payload);
    lemma_le_u32_roundtrip(payload.len() as u32);
    assert(le_u32_at(f.take(4), 0) == le_u32_at(le_u32_bytes(payload.len() as u32), 0));
    assert(f.skip(4) =~= payload);
}

} // verus!
