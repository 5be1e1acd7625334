//! Fixed-width integers as byte sequences.

use vstd::prelude::*;

verus! {

/// The two bytes of `x`, most significant first.
pub open spec fn be16(x: u16) -> Seq<u8> {
    seq![(x / 256) as u8, (x % 256) as u8]
}

/// The number whose big-endian bytes are `hi`, `lo`.
pub open spec fn be16_value(hi: u8, lo: u8) -> u16 {
    (hi * 256 + lo) as u16
}

/// Splits `x` into its two bytes, most significant first.
pub fn to_be16(x: u16) -> (r: Vec<u8>)
    ensures
        r@ == be16(x),
{
    let mut out: Vec<u8> = Vec::new();
    out.push((x / 256) as u8);
    out.push((x % 256) as u8);
    assert(out@ =~= be16(x));
    out
}

/// Joins two bytes, most significant first, into a number.
pub fn from_be16(hi: u8, lo: u8) -> (r: u16)
    ensures
        r == be16_value(hi, lo),
{
    (hi as u16) * 256 + (lo as u16)
}

/// The four bytes of `x`, least significant first.
pub open spec fn le32(x: u32) -> Seq<u8> {
    seq![
        (x % 256) as u8,
        (x / 0x100 % 256) as u8,
        (x / 0x1_0000 % 256) as u8,
        (x / 0x100_0000 % 256) as u8,
    ]
}

/// The number whose little-endian bytes are the first four of `s`.
pub open spec fn le32_value(s: Seq<u8>) -> u32
    recommends
        s.len() >= 4,
{
    (s[0] + s[1] * 0x100 + s[2] * 0x1_0000 + s[3] * 0x100_0000) as u32
}

/// The eight bytes of `x`, least significant first: the low half, then the
/// high half.
pub open spec fn le64(x: u64) -> Seq<u8> {
    le32((x % 0x1_0000_0000) as u32) + le32((x / 0x1_0000_0000) as u32)
}

/// The number whose little-endian bytes are the first eight of `s`.
pub open spec fn le64_value(s: Seq<u8>) -> u64
    recommends
        s.len() >= 8,
{
    (le32_value(s) + le32_value(s.skip(4)) * 0x1_0000_0000) as u64
}

/// Reading back the big-endian bytes of a number gives the number.
pub proof fn lemma_be16_value(x: u16)
    ensures
        be16(x).len() == 2,
        be16_value(be16(x)[0], be16(x)[1]) == x,
{
}

/// Reading back the little-endian bytes of a 32-bit number gives the number,
/// whatever follows them.
pub proof fn lemma_le32_value(x: u32, rest: Seq<u8>)
    ensures
        le32(x).len() == 4,
        le32_value(le32(x) + rest) == x,
{
}

/// Reading back the little-endian bytes of a 64-bit number gives the number,
/// whatever follows them.
pub proof fn lemma_le64_value(x: u64, rest: Seq<u8>)
    ensures
        le64(x).len() == 8,
        le64_value(le64(x) + rest) == x,
{
    let low = (x % 0x1_0000_0000) as u32;
    let high = (x / 0x1_0000_0000) as u32;
    lemma_le32_value(low, le32(high) + rest);
    lemma_le32_value(high, rest);
    assert(le64(x) + rest =~= le32(low) + (le32(high) + rest));
    assert((le64(x) + rest).skip(4) =~= le32(high) + rest);
}

} // verus!
