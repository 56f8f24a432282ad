//! The UDP audio packet format.
//!
//! Wire format of one datagram, every integer little-endian:
//!   [seq: u32][timestamp_us: u64][frame_count: u16][samples: frame_count x 4 bytes]
//! A sample is an IEEE-754 single-precision value; here it is carried as its
//! bit pattern (`f32::to_bits`), whose little-endian bytes are exactly the
//! bytes of the sample on the wire.
use vstd::prelude::*;

use crate::common::bytes::{
    lemma_le_u16_bytes_of_read, lemma_le_u16_roundtrip, lemma_le_u32_bytes_of_read,
    lemma_le_u32_roundtrip, lemma_le_u64_bytes_of_read, lemma_le_u64_roundtrip, le_u16_at, le_u16_bytes, read_u16_le, read_u32_le, read_u64_le, le_u32_at, le_u32_bytes, le_u64_at, le_u64_bytes, write_u16_le,
    write_u32_le, write_u64_le,
};
use crate::common::error::PacketError;

verus! {

/// Header size in bytes: seq(4) + timestamp_us(8) + frame_count(2).
pub const HEADER_SIZE: usize = 14;

/// Maximum number of samples in one packet.
pub const MAX_FRAMES: usize = 1024;

/// Largest datagram that a packet of `MAX_FRAMES` samples takes.
pub const MAX_PACKET_BYTES: usize = 4110;

/// A decoded audio packet ready for the jitter buffer.
#[derive(Debug, Clone, PartialEq, Eq)]
pub struct AudioPacket {
    /// Monotonically increasing sequence number. Wraps at u32::MAX.
    pub seq: u32,
    /// Sender clock in microseconds at the moment of capture.
    pub timestamp_us: u64,
    /// Mono PCM samples, each given by the bit pattern of its `f32` value.
    pub samples: Vec<u32>,
}

/// The mathematical content of an `AudioPacket`.
#[verifier::ext_equal]
pub struct PacketModel {
    pub seq: u32,
    pub timestamp_us: u64,
    pub samples: Seq<u32>,
}

impl View for AudioPacket {
    type V = PacketModel;

    open spec fn view(&self) -> PacketModel {
        PacketModel { seq: self.seq, timestamp_us: self.timestamp_us, samples: self.samples@ }
    }
}

/// The bytes of a sequence of samples, each in four little-endian bytes.
pub open spec fn samples_bytes(s: Seq<u32>) -> Seq<u8>
    decreases s.len(),
{
    if s.len() == 0 {
        Seq::empty()
    } else {
        samples_bytes(s.drop_last()) + le_u32_bytes(s.last())
    }
}

/// Length in bytes of a packet of `n` samples.
pub open spec fn packet_len(n: nat) -> nat {
    HEADER_SIZE as nat + 4 * n
}

/// The datagram of a packet whose sample count fits the header field.
pub open spec fn packet_bytes(p: PacketModel) -> Seq<u8> {
    le_u32_bytes(p.seq) + le_u64_bytes(p.timestamp_us) + le_u16_bytes(p.samples.len() as u16)
        + samples_bytes(p.samples)
}

/// What encoding a packet gives: its datagram, or the error that refuses it.
pub open spec fn encode_result(p: PacketModel) -> Result<Seq<u8>, PacketError> {
    if p.samples.len() > MAX_FRAMES {
        Err(PacketError::TooManyFrames(p.samples.len() as usize))
    } else {
        Ok(packet_bytes(p))
    }
}

/// What decoding a datagram gives: the packet its first bytes hold, or the
/// error that refuses it. Bytes after the announced samples are ignored.
pub open spec fn decode_result(b: Seq<u8>) -> Result<PacketModel, PacketError> {
    if b.len() < HEADER_SIZE {
        Err(PacketError::TooShort { got: b.len() as usize })
    } else {
        let n = le_u16_at(b, 12) as nat;
        if b.len() < packet_len(n) {
            Err(PacketError::Truncated { expected: packet_len(n) as usize, got: b.len() as usize })
        } else {
            Ok(
                PacketModel {
                    seq: le_u32_at(b, 0),
                    timestamp_us: le_u64_at(b, 4),
                    samples: Seq::new(n, |j: int| le_u32_at(b, HEADER_SIZE + 4 * j)),
                },
            )
        }
    }
}

/// The bytes of samples are four per sample, those of sample `j` at `4 * j`.
pub proof fn lemma_samples_bytes(s: Seq<u32>)
    ensures
        samples_bytes(s).len() == 4 * s.len(),
        forall|j: int|
            0 <= j < s.len() ==> #[trigger] samples_bytes(s).subrange(4 * j, 4 * j + 4)
                == le_u32_bytes(s[j]),
    decreases s.len(),
{
    if s.len() > 0 {
        let t = s.drop_last();
        lemma_samples_bytes(t);
        assert forall|j: int| 0 <= j < s.len() implies #[trigger] samples_bytes(s).subrange(
            4 * j,
            4 * j + 4,
        ) == le_u32_bytes(s[j]) by {
            if j < t.len() {
                assert(samples_bytes(s).subrange(4 * j, 4 * j + 4) =~= samples_bytes(t).subrange(
                    4 * j,
                    4 * j + 4,
                ));
            } else {
                assert(samples_bytes(s).subrange(4 * j, 4 * j + 4) =~= le_u32_bytes(s.last()));
            }
        }
    }
}

/// Appending one sample appends its four bytes.
pub proof fn lemma_samples_bytes_take(s: Seq<u32>, i: int)
    requires
        0 <= i < s.len(),
    ensures
        samples_bytes(s.take(i + 1)) == samples_bytes(s.take(i)) + le_u32_bytes(s[i]),
{
    assert(s.take(i + 1).drop_last() =~= s.take(i));
}

/// Decoding the datagram of a packet that fits gives the packet back.
pub proof fn lemma_decode_of_encode(p: PacketModel)
    requires
        p.samples.len() <= MAX_FRAMES,
    ensures
        encode_result(p) == Ok::<Seq<u8>, PacketError>(packet_bytes(p)),
        packet_bytes(p).len() == packet_len(p.samples.len()),
        decode_result(packet_bytes(p)) == Ok::<PacketModel, PacketError>(p),
{
    let b = packet_bytes(p);
    let s = p.samples;
    let n = s.len();
    lemma_samples_bytes(s);
    lemma_le_u32_roundtrip(p.seq);
    lemma_le_u64_roundtrip(p.timestamp_us);
    lemma_le_u16_roundtrip(n as u16);
    let h32 = le_u32_bytes(p.seq);
    let h64 = le_u64_bytes(p.timestamp_us);
    let h16 = le_u16_bytes(n as u16);
    let sb = samples_bytes(s);
    assert(b =~= h32 + h64 + h16 + sb);
    assert(le_u32_at(b, 0) == le_u32_at(h32, 0));
    assert(le_u32_at(b, 4) == le_u32_at(h64, 0));
    assert(le_u32_at(b, 8) == le_u32_at(h64, 4));
    assert(le_u64_at(b, 4) == le_u64_at(h64, 0));
    assert(le_u16_at(b, 12) == le_u16_at(h16, 0));
    let samples = Seq::new(n, |j: int| le_u32_at(b, HEADER_SIZE + 4 * j));
    assert forall|j: int| 0 <= j < n implies samples[j] == s[j] by {
        let c = sb.subrange(4 * j, 4 * j + 4);
        assert(c == le_u32_bytes(s[j]));
        lemma_le_u32_roundtrip(s[j]);
        assert(b[HEADER_SIZE + 4 * j] == c[0]);
        assert(b[HEADER_SIZE + 4 * j + 1] == c[1]);
        assert(b[HEADER_SIZE + 4 * j + 2] == c[2]);
        assert(b[HEADER_SIZE + 4 * j + 3] == c[3]);
        assert(le_u32_at(b, HEADER_SIZE + 4 * j) == le_u32_at(c, 0));
    }
    assert(samples =~= s);
}

/// Encoding a decoded packet that fits gives back the bytes it was read from.
pub proof fn lemma_encode_of_decode(b: Seq<u8>)
    requires
        decode_result(b) is Ok,
        decode_result(b)->Ok_0.samples.len() <= MAX_FRAMES,
    ensures
        encode_result(decode_result(b)->Ok_0) == Ok::<Seq<u8>, PacketError>(
            b.take(packet_len(decode_result(b)->Ok_0.samples.len()) as int),
        ),
{
    let p = decode_result(b)->Ok_0;
    let s = p.samples;
    let n = s.len();
    lemma_samples_bytes(s);
    lemma_le_u32_bytes_of_read(b, 0);
    lemma_le_u64_bytes_of_read(b, 4);
    lemma_le_u16_bytes_of_read(b, 12);
    let sb = samples_bytes(s);
    assert forall|j: int| 0 <= j < n implies #[trigger] sb.subrange(4 * j, 4 * j + 4) == b.subrange(
        HEADER_SIZE + 4 * j,
        HEADER_SIZE + 4 * j + 4,
    ) by {
        lemma_le_u32_bytes_of_read(b, HEADER_SIZE + 4 * j);
    }
    assert forall|k: int| 0 <= k < 4 * n implies #[trigger] sb[k] == b[HEADER_SIZE + k] by {
        let j = k / 4;
        assert(sb.subrange(4 * j, 4 * j + 4)[k - 4 * j] == sb[k]);
        assert(b.subrange(HEADER_SIZE + 4 * j, HEADER_SIZE + 4 * j + 4)[k - 4 * j] == b[HEADER_SIZE
            + k]);
    }
    assert(packet_bytes(p) =~= b.take(packet_len(n) as int));
}

/// Bytes after a packet's samples play no part in decoding it.
pub proof fn lemma_decode_ignores_trailing(b: Seq<u8>, extra: Seq<u8>)
    requires
        decode_result(b) is Ok,
    ensures
        decode_result(b + extra) == decode_result(b),
{
    let c = b + extra;
    assert(le_u16_at(c, 12) == le_u16_at(b, 12));
    assert(le_u32_at(c, 0) == le_u32_at(b, 0));
    assert(le_u64_at(c, 4) == le_u64_at(b, 4));
    let n = le_u16_at(b, 12) as nat;
    assert(Seq::new(n, |j: int| le_u32_at(c, HEADER_SIZE + 4 * j)) =~= Seq::new(
        n,
        |j: int| le_u32_at(b, HEADER_SIZE + 4 * j),
    ));
}

impl AudioPacket {
    /// Encode into `buf`, returning the number of bytes written.
    pub fn encode_into(&self, buf: &mut [u8]) -> (res: Result<usize, PacketError>)
        ensures
            match encode_result(self@) {
                Err(e) => res == Err::<usize, PacketError>(e) && final(buf)@ == old(buf)@,
                Ok(bytes) => if old(buf)@.len() < bytes.len() {
                    res == Err::<usize, PacketError>(
                        PacketError::BufferTooSmall {
                            need: bytes.len() as usize,
                            got: old(buf)@.len() as usize,
                        },
                    ) && final(buf)@ == old(buf)@
                } else {
                    res == Ok::<usize, PacketError>(bytes.len() as usize) && final(buf)@ == bytes
                        + old(buf)@.subrange(bytes.len() as int, old(buf)@.len() as int)
                },
            },
    {
        let frame_count = self.samples.len();
        if frame_count > MAX_FRAMES {
            return Err(PacketError::TooManyFrames(frame_count));
        }
        proof {
            lemma_samples_bytes(self.samples@);
        }
        let total = HEADER_SIZE + frame_count * 4;
        if buf.len() < total {
            return Err(PacketError::BufferTooSmall { need: total, got: buf.len() });
        }
        let ghost old_buf = buf@;
        let ghost len = buf@.len() as int;
        let ghost s = self.samples@;
        write_u32_le(buf, 0, self.seq);
        write_u64_le(buf, 4, self.timestamp_us);
        write_u16_le(buf, 12, frame_count as u16);
        let ghost header = le_u32_bytes(self.seq) + le_u64_bytes(self.timestamp_us) + le_u16_bytes(
            frame_count as u16,
        );
        assert(buf@ =~= header + samples_bytes(s.take(0)) + old_buf.subrange(14, len));
        let mut i: usize = 0;
        while i < frame_count
            invariant
                i <= frame_count,
                frame_count == s.len(),
                frame_count <= MAX_FRAMES,
                s == self.samples@,
                total == HEADER_SIZE + frame_count * 4,
                total <= len,
                len == old_buf.len(),
                header.len() == HEADER_SIZE,
                buf@ == header + samples_bytes(s.take(i as int)) + old_buf.subrange(
                    14 + 4 * i,
                    len,
                ),
            decreases frame_count - i,
        {
            proof {
                lemma_samples_bytes(s.take(i as int));
                lemma_samples_bytes_take(s, i as int);
            }
            let pos = HEADER_SIZE + i * 4;
            write_u32_le(buf, pos, self.samples[i]);
            assert(buf@ =~= header + samples_bytes(s.take(i + 1)) + old_buf.subrange(
                14 + 4 * (i + 1),
                len,
            ));
            i = i + 1;
        }
        assert(s.take(frame_count as int) =~= s);
        assert(header + samples_bytes(s) =~= packet_bytes(self@));
        Ok(total)
    }

    /// Decode from a raw UDP datagram.
    pub fn decode(buf: &[u8]) -> (res: Result<AudioPacket, PacketError>)
        ensures
            match decode_result(buf@) {
                Ok(p) => res matches Ok(q) && q@ == p,
                Err(e) => res == Err::<AudioPacket, PacketError>(e),
            },
    {
        if buf.len() < HEADER_SIZE {
            return Err(PacketError::TooShort { got: buf.len() });
        }
        let seq = read_u32_le(buf, 0);
        let timestamp_us = read_u64_le(buf, 4);
        let frame_count = read_u16_le(buf, 12) as usize;
        let expected_len = HEADER_SIZE + frame_count * 4;
        if buf.len() < expected_len {
            return Err(PacketError::Truncated { expected: expected_len, got: buf.len() });
        }
        let mut samples: Vec<u32> = Vec::with_capacity(frame_count);
        let mut i: usize = 0;
        while i < frame_count
            invariant
                i <= frame_count,
                expected_len == HEADER_SIZE + frame_count * 4,
                expected_len <= buf@.len(),
                samples@.len() == i,
                forall|k: int|
                    0 <= k < i ==> #[trigger] samples@[k] == le_u32_at(buf@, HEADER_SIZE + 4 * k),
            decreases frame_count - i,
        {
            let offset = HEADER_SIZE + i * 4;
            samples.push(read_u32_le(buf, offset));
            i = i + 1;
        }
        let p = AudioPacket { seq, timestamp_us, samples };
        assert(p@ =~= decode_result(buf@)->Ok_0);
        Ok(p)
    }

    /// Encode into a freshly allocated buffer.
    pub fn encode(&self) -> (res: Result<Vec<u8>, PacketError>)
        ensures
            match encode_result(self@) {
                Ok(bytes) => res matches Ok(v) && v@ == bytes,
                Err(e) => res == Err::<Vec<u8>, PacketError>(e),
            },
    {
        if self.samples.len() > MAX_FRAMES {
            return Err(PacketError::TooManyFrames(self.samples.len()));
        }
        proof {
            lemma_samples_bytes(self.samples@);
        }
        let mut buf = vec![0u8; HEADER_SIZE + self.samples.len() * 4];
        let n = match self.encode_into(buf.as_mut_slice()) {
            Ok(n) => n,
            Err(e) => return Err(e),
        };
        buf.truncate(n);
        assert(buf@ =~= packet_bytes(self@));
        Ok(buf)
    }
}

// ---------------------------------------------------------------------------
// Sender clock
// ---------------------------------------------------------------------------

/// A reading of the system clock.
#[verifier::external_type_specification]
#[verifier::external_body]
pub struct ExSystemTime(std::time::SystemTime);

/// The error of a clock reading that lies before the time it is measured from.
#[verifier::external_type_specification]
#[verifier::external_body]
pub struct ExSystemTimeError(std::time::SystemTimeError);

/// `std::time::SystemTime::now`: the current reading of the system clock.
/// Nothing is stated of it: it depends on the time of the call.
#[verifier::external_body]
fn system_time_now() -> std::time::SystemTime {
    std::time::SystemTime::now()
}

/// `SystemTime::duration_since(UNIX_EPOCH)`: the time elapsed from the Unix
/// epoch to `t`, or an error when `t` lies before it. Nothing is stated of
/// the result: a reading of the clock is opaque here.
#[verifier::external_body]
fn elapsed_since_unix_epoch(t: &std::time::SystemTime) -> Result<
    core::time::Duration,
    std::time::SystemTimeError,
> {
    t.duration_since(std::time::UNIX_EPOCH)
}

/// `Duration::as_micros`: the whole microseconds of `d`. Nothing is stated of
/// the result: a duration is opaque here.
#[verifier::external_body]
fn duration_as_micros(d: &core::time::Duration) -> u128 {
    d.as_micros()
}

/// The timestamp of a clock reading `elapsed_us` microseconds after the Unix
/// epoch, cut to 64 bits; 0 for a reading that could not be taken.
pub open spec fn timestamp_of(elapsed_us: Option<u128>) -> u64 {
    match elapsed_us {
        Some(m) => (m % 0x1_0000_0000_0000_0000) as u64,
        None => 0,
    }
}

/// The timestamp of a clock reading `elapsed_us` microseconds after the Unix
/// epoch, cut to 64 bits; 0 for a reading that could not be taken.
pub fn timestamp_from_elapsed(elapsed_us: Option<u128>) -> (r: u64)
    ensures
        r == timestamp_of(elapsed_us),
{
    match elapsed_us {
        Some(m) => (m % 0x1_0000_0000_0000_0000u128) as u64,
        None => 0,
    }
}

/// Returns the current time in microseconds since the Unix epoch (0 when the
/// clock reads earlier). Use this on the sender side to fill `timestamp_us`.
pub fn now_us() -> u64 {
    let t = system_time_now();
    let elapsed = match elapsed_since_unix_epoch(&t) {
        Ok(d) => Some(duration_as_micros(&d)),
        Err(_) => None,
    };
    timestamp_from_elapsed(elapsed)
}

} // verus!
