//! Little-endian encoding of fixed-width unsigned integers.
use vstd::prelude::*;
use vstd::arithmetic::div_mod::lemma_fundamental_div_mod_converse;

verus! {

/// The two bytes of `v`, least significant first.
pub open spec fn le_u16_bytes(v: u16) -> Seq<u8> {
    seq![(v % 256) as u8, (v / 256) as u8]
}

/// The four bytes of `v`, least significant first.
pub open spec fn le_u32_bytes(v: u32) -> Seq<u8> {
    seq![
        (v % 256) as u8,
        ((v / 256) % 256) as u8,
        ((v / 65536) % 256) as u8,
        (v / 16777216) as u8,
    ]
}

/// The eight bytes of `v`, least significant first.
pub open spec fn le_u64_bytes(v: u64) -> Seq<u8> {
    le_u32_bytes((v % 4294967296) as u32) + le_u32_bytes((v / 4294967296) as u32)
}

/// The value of the two bytes of `b` at `i`, read least significant first.
pub open spec fn le_u16_at(b: Seq<u8>, i: int) -> u16 {
    (b[i] + 256 * b[i + 1]) as u16
}

/// The value of the four bytes of `b` at `i`, read least significant first.
pub open spec fn le_u32_at(b: Seq<u8>, i: int) -> u32 {
    (b[i] + 256 * b[i + 1] + 65536 * b[i + 2] + 16777216 * b[i + 3]) as u32
}

/// The value of the eight bytes of `b` at `i`, read least significant first.
pub open spec fn le_u64_at(b: Seq<u8>, i: int) -> u64 {
    (le_u32_at(b, i) + 4294967296 * le_u32_at(b, i + 4)) as u64
}

/// Reading back the bytes of a `u16` gives the `u16`.
pub proof fn lemma_le_u16_roundtrip(v: u16)
    ensures
        le_u16_at(le_u16_bytes(v), 0) == v,
{
}

/// Reading back the bytes of a `u32` gives the `u32`.
pub proof fn lemma_le_u32_roundtrip(v: u32)
    ensures
        le_u32_at(le_u32_bytes(v), 0) == v,
{
}

/// Reading back the bytes of a `u64` gives the `u64`.
pub proof fn lemma_le_u64_roundtrip(v: u64)
    ensures
        le_u64_at(le_u64_bytes(v), 0) == v,
{
    lemma_le_u32_roundtrip((v % 4294967296) as u32);
    lemma_le_u32_roundtrip((v / 4294967296) as u32);
}

/// Writing out the value read from four bytes gives those bytes back.
pub proof fn lemma_le_u32_bytes_of_read(b: Seq<u8>, i: int)
    requires
        0 <= i,
        i + 4 <= b.len(),
    ensures
        le_u32_bytes(le_u32_at(b, i)) == b.subrange(i, i + 4),
{
    let x0 = b[i] as int;
    let x1 = b[i + 1] as int;
    let x2 = b[i + 2] as int;
    let x3 = b[i + 3] as int;
    let v = x0 + 256 * x1 + 65536 * x2 + 16777216 * x3;
    assert(le_u32_at(b, i) == v);
    lemma_fundamental_div_mod_converse(v, 256, x1 + 256 * x2 + 65536 * x3, x0);
    lemma_fundamental_div_mod_converse(v, 65536, x2 + 256 * x3, x0 + 256 * x1);
    lemma_fundamental_div_mod_converse(v, 16777216, x3, x0 + 256 * x1 + 65536 * x2);
    lemma_fundamental_div_mod_converse(x1 + 256 * x2 + 65536 * x3, 256, x2 + 256 * x3, x1);
    lemma_fundamental_div_mod_converse(x2 + 256 * x3, 256, x3, x2);
    assert(le_u32_bytes(le_u32_at(b, i)) =~= b.subrange(i, i + 4));
}

/// Writing out the value read from two bytes gives those bytes back.
pub proof fn lemma_le_u16_bytes_of_read(b: Seq<u8>, i: int)
    requires
        0 <= i,
        i + 2 <= b.len(),
    ensures
        le_u16_bytes(le_u16_at(b, i)) == b.subrange(i, i + 2),
{
    let x0 = b[i] as int;
    let x1 = b[i + 1] as int;
    lemma_fundamental_div_mod_converse(x0 + 256 * x1, 256, x1, x0);
    assert(le_u16_bytes(le_u16_at(b, i)) =~= b.subrange(i, i + 2));
}

/// Writing out the value read from eight bytes gives those bytes back.
pub proof fn lemma_le_u64_bytes_of_read(b: Seq<u8>, i: int)
    requires
        0 <= i,
        i + 8 <= b.len(),
    ensures
        le_u64_bytes(le_u64_at(b, i)) == b.subrange(i, i + 8),
{
    let lo = le_u32_at(b, i) as int;
    let hi = le_u32_at(b, i + 4) as int;
    lemma_fundamental_div_mod_converse(lo + 4294967296 * hi, 4294967296, hi, lo);
    lemma_le_u32_bytes_of_read(b, i);
    lemma_le_u32_bytes_of_read(b, i + 4);
    assert(le_u64_bytes(le_u64_at(b, i)) =~= b.subrange(i, i + 8));
}

/// Writes the bytes of `v` into `buf` at `pos`, least significant first.
pub fn write_u16_le(buf: &mut [u8], pos: usize, v: u16)
    requires
        pos + 2 <= old(buf)@.len(),
    ensures
        final(buf)@ == old(buf)@.subrange(0, pos as int) + le_u16_bytes(v) + old(buf)@.subrange(
            pos + 2,
            old(buf)@.len() as int,
        ),
{
    buf[pos] = (v % 256) as u8;
    buf[pos + 1] = (v / 256) as u8;
    assert(buf@ =~= old(buf)@.subrange(0, pos as int) + le_u16_bytes(v) + old(buf)@.subrange(
        pos + 2,
        old(buf)@.len() as int,
    ));
}

/// Writes the bytes of `v` into `buf` at `pos`, least significant first.
pub fn write_u32_le(buf: &mut [u8], pos: usize, v: u32)
    requires
        pos + 4 <= old(buf)@.len(),
    ensures
        final(buf)@ == old(buf)@.subrange(0, pos as int) + le_u32_bytes(v) + old(buf)@.subrange(
            pos + 4,
            old(buf)@.len() as int,
        ),
{
    buf[pos] = (v % 256) as u8;
    buf[pos + 1] = ((v / 256) % 256) as u8;
    buf[pos + 2] = ((v / 65536) % 256) as u8;
    buf[pos + 3] = (v / 16777216) as u8;
    assert(buf@ =~= old(buf)@.subrange(0, pos as int) + le_u32_bytes(v) + old(buf)@.subrange(
        pos + 4,
        old(buf)@.len() as int,
    ));
}

/// Writes the bytes of `v` into `buf` at `pos`, least significant first.
pub fn write_u64_le(buf: &mut [u8], pos: usize, v: u64)
    requires
        pos + 8 <= old(buf).len(),
    ensures
        final(buf)@ == old(buf)@.subrange(0, pos as int) + le_u64_bytes(v) + old(buf)@.subrange(
            pos + 8,
            old(buf)@.len() as int,
        ),
{
    let lo = (v % 4294967296) as u32;
    let hi = (v / 4294967296) as u32;
    write_u32_le(buf, pos, lo);
    write_u32_le(buf, pos + 4, hi);
    assert(buf@ =~= old(buf)@.subrange(0, pos as int) + le_u64_bytes(v) + old(buf)@.subrange(
        pos + 8,
        old(buf)@.len() as int,
    ));
}

/// Reads the two bytes of `b` at `pos`, least significant first.
pub fn read_u16_le(b: &[u8], pos: usize) -> (v: u16)
    requires
        pos + 2 <= b@.len(),
    ensures
        v == le_u16_at(b@, pos as int),
{
    b[pos] as u16 + (b[pos + 1] as u16) * 256
}

/// Reads the four bytes of `b` at `pos`, least significant first.
pub fn read_u32_le(b: &[u8], pos: usize) -> (v: u32)
    requires
        pos + 4 <= b@.len(),
    ensures
        v == le_u32_at(b@, pos as int),
{
    b[pos] as u32 + (b[pos + 1] as u32) * 256 + (b[pos + 2] as u32) * 65536 + (b[pos + 3] as u32)
        * 16777216
}

/// Reads the eight bytes of `b` at `pos`, least significant first.
pub fn read_u64_le(b: &[u8], pos: usize) -> (v: u64)
    requires
        pos + 8 <= b.len(),
    ensures
        v == le_u64_at(b@, pos as int),
{
    let lo = read_u32_le(b, pos);
    let hi = read_u32_le(b, pos + 4);
    lo as u64 + (hi as u64) * 4294967296
}

} // verus!
