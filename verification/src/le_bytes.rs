//! Little-endian integer encodings, the byte order of the HAL's
//! property buffers on every macOS target (x86_64 and arm64 alike).

use vstd::prelude::*;

verus! {

/// The `u32` encoded by the four bytes `b[0..4]`, least significant
/// first.
pub open spec fn le_u32(b: Seq<u8>) -> u32 {
    (b[0] as nat + b[1] as nat * 0x100 + b[2] as nat * 0x1_0000 + b[3] as nat * 0x100_0000) as u32
}

/// The four bytes of `v`, least significant first.
pub open spec fn le_bytes_u32(v: u32) -> Seq<u8> {
    seq![
        (v % 0x100) as u8,
        ((v / 0x100) % 0x100) as u8,
        ((v / 0x1_0000) % 0x100) as u8,
        ((v / 0x100_0000) % 0x100) as u8,
    ]
}

/// The `u64` encoded by the eight bytes `b[0..8]`, least significant
/// first.
pub open spec fn le_u64(b: Seq<u8>) -> u64 {
    (le_u32(b) as nat + le_u32(b.subrange(4, 8)) as nat * 0x1_0000_0000) as u64
}

/// The eight bytes of `v`, least significant first.
pub open spec fn le_bytes_u64(v: u64) -> Seq<u8> {
    le_bytes_u32((v % 0x1_0000_0000) as u32) + le_bytes_u32((v / 0x1_0000_0000) as u32)
}

/// Encoding a `u32` and decoding it again gives it back.
pub proof fn lemma_u32_round_trip(v: u32)
    ensures
        le_bytes_u32(v).len() == 4,
        le_u32(le_bytes_u32(v)) == v,
{
    let b = le_bytes_u32(v);
    assert(b[0] as nat + b[1] as nat * 0x100 + b[2] as nat * 0x1_0000 + b[3] as nat * 0x100_0000
        == v);
}

/// Decoding four bytes and encoding the value again gives them back.
pub proof fn lemma_u32_bytes_round_trip(b: Seq<u8>)
    requires
        b.len() == 4,
    ensures
        le_bytes_u32(le_u32(b)) == b,
{
    let b0 = b[0] as int;
    let b1 = b[1] as int;
    let b2 = b[2] as int;
    let b3 = b[3] as int;
    let v = le_u32(b) as int;
    assert(v == b0 + b1 * 0x100 + b2 * 0x1_0000 + b3 * 0x100_0000);
    assert(v % 0x100 == b0 && (v / 0x100) % 0x100 == b1 && (v / 0x1_0000) % 0x100 == b2 && (v
        / 0x100_0000) % 0x100 == b3) by (nonlinear_arith)
        requires
            v == b0 + b1 * 0x100 + b2 * 0x1_0000 + b3 * 0x100_0000,
            0 <= b0 < 0x100,
            0 <= b1 < 0x100,
            0 <= b2 < 0x100,
            0 <= b3 < 0x100,
    ;
    assert(le_bytes_u32(le_u32(b)) =~= b);
}

/// Encoding a `u64` and decoding it again gives it back.
pub proof fn lemma_u64_round_trip(v: u64)
    ensures
        le_bytes_u64(v).len() == 8,
        le_u64(le_bytes_u64(v)) == v,
{
    let lo = (v % 0x1_0000_0000) as u32;
    let hi = (v / 0x1_0000_0000) as u32;
    lemma_u32_round_trip(lo);
    lemma_u32_round_trip(hi);
    let b = le_bytes_u64(v);
    assert(b.subrange(0, 4) =~= le_bytes_u32(lo));
    assert(b.subrange(4, 8) =~= le_bytes_u32(hi));
    assert(le_u32(b) == le_u32(b.subrange(0, 4)));
}

/// Decoding eight bytes and encoding the value again gives them back.
pub proof fn lemma_u64_bytes_round_trip(b: Seq<u8>)
    requires
        b.len() == 8,
    ensures
        le_bytes_u64(le_u64(b)) == b,
{
    let lo = le_u32(b);
    let hi = le_u32(b.subrange(4, 8));
    let v = le_u64(b);
    assert(le_u32(b) == le_u32(b.subrange(0, 4)));
    lemma_u32_bytes_round_trip(b.subrange(0, 4));
    lemma_u32_bytes_round_trip(b.subrange(4, 8));
    assert(v % 0x1_0000_0000 == lo);
    assert(v / 0x1_0000_0000 == hi);
    assert(le_bytes_u64(v) =~= b.subrange(0, 4) + b.subrange(4, 8));
    assert(b.subrange(0, 4) + b.subrange(4, 8) =~= b);
}

/// Decode a little-endian `u32` from the four bytes at `off`.
pub fn read_le_u32(buf: &[u8], off: usize) -> (r: u32)
    requires
        off + 4 <= buf@.len(),
    ensures
        r == le_u32(buf@.subrange(off as int, off + 4)),
{
    (buf[off] as u32) + (buf[off + 1] as u32) * 0x100 + (buf[off + 2] as u32) * 0x1_0000
        + (buf[off + 3] as u32) * 0x100_0000
}

/// Decode a little-endian `u64` from the eight bytes at `off`.
pub fn read_le_u64(buf: &[u8], off: usize) -> (r: u64)
    requires
        off + 8 <= buf@.len(),
    ensures
        r == le_u64(buf@.subrange(off as int, off + 8)),
{
    let _n = buf.len();
    let lo = read_le_u32(buf, off);
    let hi = read_le_u32(buf, off + 4);
    assert(buf@.subrange(off as int, off + 8).subrange(4, 8) =~= buf@.subrange(
        off + 4,
        off + 8,
    ));
    assert(buf@.subrange(off as int, off + 8).subrange(0, 4) =~= buf@.subrange(
        off as int,
        off + 4,
    ));
    (lo as u64) + (hi as u64) * 0x1_0000_0000
}

/// Write the little-endian bytes of `v` at `off`, leaving every other
/// byte of the buffer unchanged.
pub fn write_le_u32(buf: &mut [u8], off: usize, v: u32)
    requires
        off + 4 <= old(buf)@.len(),
    ensures
        final(buf)@ == old(buf)@.subrange(0, off as int) + le_bytes_u32(v) + old(buf)@.subrange(
            off + 4,
            old(buf)@.len() as int,
        ),
{
    buf[off] = (v % 0x100) as u8;
    buf[off + 1] = ((v / 0x100) % 0x100) as u8;
    buf[off + 2] = ((v / 0x1_0000) % 0x100) as u8;
    buf[off + 3] = ((v / 0x100_0000) % 0x100) as u8;
    assert(buf@ =~= old(buf)@.subrange(0, off as int) + le_bytes_u32(v) + old(buf)@.subrange(
        off + 4,
        old(buf)@.len() as int,
    ));
}

/// Write the little-endian bytes of `v` at `off`, leaving every other
/// byte of the buffer unchanged.
pub fn write_le_u64(buf: &mut [u8], off: usize, v: u64)
    requires
        off + 8 <= old(buf)@.len(),
    ensures
        final(buf)@ == old(buf)@.subrange(0, off as int) + le_bytes_u64(v) + old(buf)@.subrange(
            off + 8,
            old(buf)@.len() as int,
        ),
{
    let _n = buf.len();
    write_le_u32(buf, off, (v % 0x1_0000_0000) as u32);
    write_le_u32(buf, off + 4, (v / 0x1_0000_0000) as u32);
    assert(buf@ =~= old(buf)@.subrange(0, off as int) + le_bytes_u64(v) + old(buf)@.subrange(
        off + 8,
        old(buf)@.len() as int,
    ));
}

} // verus!
