//! Bit fields of a byte and big-endian numbers, stated arithmetically.
use vstd::prelude::*;

verus! {

/// The shifts and masks used by the container formats, as arithmetic.
pub proof fn lemma_byte_fields(b: u8)
    by (bit_vector)
    ensures
        b >> 6 == b / 64,
        b >> 4 == b / 16,
        b >> 3 == b / 8,
        (b & 0x20 != 0) == (b / 32 % 2 == 1),
        (b & 0x10 != 0) == (b / 16 % 2 == 1),
        (b & 0x80 != 0) == (b >= 128),
        b & 0x0F == b % 16,
        b & 0x1F == b % 32,
        b & 0x7F == b % 128,
        (b & 0x70) >> 4 == b / 16 % 8,
        0x80u8 | (b & 0x7F) == 128 + b % 128,
{
}

/// A 16-bit number from its big-endian bytes.
pub open spec fn be16(hi: u8, lo: u8) -> nat {
    (hi * 256 + lo) as nat
}

/// A 32-bit number from its big-endian bytes.
pub open spec fn be32(b0: u8, b1: u8, b2: u8, b3: u8) -> nat {
    (b0 * 0x100_0000 + b1 * 0x1_0000 + b2 * 256 + b3) as nat
}

/// The big-endian bytes of a 16-bit number.
pub open spec fn be16_bytes(x: u16) -> Seq<u8> {
    seq![(x / 256) as u8, (x % 256) as u8]
}

/// The big-endian bytes of the low 24 bits of a number.
pub open spec fn be24_bytes(x: u32) -> Seq<u8> {
    seq![(x / 0x1_0000 % 256) as u8, (x / 256 % 256) as u8, (x % 256) as u8]
}

/// The big-endian bytes of a 32-bit number.
pub open spec fn be32_bytes(x: u32) -> Seq<u8> {
    seq![
        (x / 0x100_0000) as u8,
        (x / 0x1_0000 % 256) as u8,
        (x / 256 % 256) as u8,
        (x % 256) as u8,
    ]
}

/// Reads a big-endian 16-bit number.
pub fn u16_from_be(hi: u8, lo: u8) -> (r: u16)
    ensures
        r == be16(hi, lo),
{
    hi as u16 * 256 + lo as u16
}

/// Reads a big-endian 32-bit number.
pub fn u32_from_be(b0: u8, b1: u8, b2: u8, b3: u8) -> (r: u32)
    ensures
        r == be32(b0, b1, b2, b3),
{
    b0 as u32 * 0x100_0000 + b1 as u32 * 0x1_0000 + b2 as u32 * 256 + b3 as u32
}

/// Appends a 16-bit number, big-endian.
pub fn push_be16(v: &mut Vec<u8>, x: u16)
    ensures
        final(v)@ == old(v)@ + be16_bytes(x),
{
    v.push((x / 256) as u8);
    v.push((x % 256) as u8);
    assert(v@ =~= old(v)@ + be16_bytes(x));
}

/// Appends a 32-bit number, big-endian.
pub fn push_be32(v: &mut Vec<u8>, x: u32)
    ensures
        final(v)@ == old(v)@ + be32_bytes(x),
{
    v.push((x / 0x100_0000) as u8);
    v.push((x / 0x1_0000 % 256) as u8);
    v.push((x / 256 % 256) as u8);
    v.push((x % 256) as u8);
    assert(v@ =~= old(v)@ + be32_bytes(x));
}

/// Appends a slice of bytes.
pub fn push_slice(v: &mut Vec<u8>, s: &[u8])
    ensures
        final(v)@ == old(v)@ + s@,
{
    v.extend_from_slice(s);
    assert(v@ =~= old(v)@ + s@);
}

/// Big-endian bytes read back as the number they were written from.
pub proof fn lemma_be_roundtrip(x: u16, y: u32)
    ensures
        be16(be16_bytes(x)[0], be16_bytes(x)[1]) == x,
        be32(be32_bytes(y)[0], be32_bytes(y)[1], be32_bytes(y)[2], be32_bytes(y)[3]) == y,
{
}

/// Numbers are written with the most significant byte first.
pub proof fn law_numbers_are_big_endian(x: u16, y: u32, z: u32)
    ensures
        be16_bytes(x).len() == 2,
        256 * be16_bytes(x)[0] + be16_bytes(x)[1] == x,
        be24_bytes(z).len() == 3,
        0x1_0000 * be24_bytes(z)[0] + 256 * be24_bytes(z)[1] + be24_bytes(z)[2] == z % 0x100_0000,
        be32_bytes(y).len() == 4,
        0x100_0000 * be32_bytes(y)[0] + 0x1_0000 * be32_bytes(y)[1] + 256 * be32_bytes(y)[2]
            + be32_bytes(y)[3] == y,
{
}

/// Numbers are read with the most significant byte first.
pub proof fn law_numbers_are_read_big_endian(b0: u8, b1: u8, b2: u8, b3: u8)
    ensures
        be16(b0, b1) == 256 * b0 + b1,
        be32(b0, b1, b2, b3) == 256 * (256 * (256 * b0 + b1) + b2) + b3,
{
}

} // verus!
