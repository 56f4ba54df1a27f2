//! Fixed-width integers as bytes, in both byte orders.
use vstd::prelude::*;

verus! {

/// Two bytes, the high one first.
pub open spec fn be16(x: u16) -> Seq<u8> {
    seq![(x / 256) as u8, (x % 256) as u8]
}

/// Two bytes, the low one first.
pub open spec fn le16(x: u16) -> Seq<u8> {
    seq![(x % 256) as u8, (x / 256) as u8]
}

/// Four bytes, the highest first.
pub open spec fn be32(x: u32) -> Seq<u8> {
    seq![
        (x / 0x100_0000) as u8,
        (x / 0x1_0000 % 256) as u8,
        (x / 256 % 256) as u8,
        (x % 256) as u8,
    ]
}

/// Four bytes, the lowest first.
pub open spec fn le32(x: u32) -> Seq<u8> {
    seq![
        (x % 256) as u8,
        (x / 256 % 256) as u8,
        (x / 0x1_0000 % 256) as u8,
        (x / 0x100_0000) as u8,
    ]
}

/// The number that two bytes write, the high one first.
pub open spec fn from_be16(hi: u8, lo: u8) -> u16 {
    (hi * 256 + lo) as u16
}

/// The number that two bytes write, the low one first.
pub open spec fn from_le16(lo: u8, hi: u8) -> u16 {
    (hi * 256 + lo) as u16
}

/// The number that four bytes write, the lowest first.
pub open spec fn from_le32(a: u8, b: u8, c: u8, d: u8) -> u32 {
    (a + b * 256 + c * 0x1_0000 + d * 0x100_0000) as u32
}

/// Appends a 16-bit number, the high byte first.
pub fn push_be16(out: &mut Vec<u8>, x: u16)
    ensures
        final(out)@ == old(out)@ + be16(x),
{
    out.push((x / 256) as u8);
    out.push((x % 256) as u8);
}

/// Appends a 16-bit number, the low byte first.
pub fn push_le16(out: &mut Vec<u8>, x: u16)
    ensures
        final(out)@ == old(out)@ + le16(x),
{
    out.push((x % 256) as u8);
    out.push((x / 256) as u8);
}

/// Appends a 32-bit number, the highest byte first.
pub fn push_be32(out: &mut Vec<u8>, x: u32)
    ensures
        final(out)@ == old(out)@ + be32(x),
{
    out.push((x / 0x100_0000) as u8);
    out.push((x / 0x1_0000 % 256) as u8);
    out.push((x / 256 % 256) as u8);
    out.push((x % 256) as u8);
}

/// Appends a 32-bit number, the lowest byte first.
pub fn push_le32(out: &mut Vec<u8>, x: u32)
    ensures
        final(out)@ == old(out)@ + le32(x),
{
    out.push((x % 256) as u8);
    out.push((x / 256 % 256) as u8);
    out.push((x / 0x1_0000 % 256) as u8);
    out.push((x / 0x100_0000) as u8);
}

/// Reads a 16-bit number, the high byte first.
pub fn read_be16(hi: u8, lo: u8) -> (r: u16)
    ensures
        r == from_be16(hi, lo),
{
    hi as u16 * 256 + lo as u16
}

/// Reads a 16-bit number, the low byte first.
pub fn read_le16(lo: u8, hi: u8) -> (r: u16)
    ensures
        r == from_le16(lo, hi),
{
    hi as u16 * 256 + lo as u16
}

/// Reads a 32-bit number, the lowest byte first.
pub fn read_le32(a: u8, b: u8, c: u8, d: u8) -> (r: u32)
    ensures
        r == from_le32(a, b, c, d),
{
    a as u32 + b as u32 * 256 + c as u32 * 0x1_0000 + d as u32 * 0x100_0000
}

/// Whether two byte strings are equal.
pub fn same_bytes(a: &[u8], b: &[u8]) -> (r: bool)
    ensures
        r == (a@ == b@),
{
    if a.len() != b.len() {
        return false;
    }
    let mut i: usize = 0;
    while i < a.len()
        invariant
            i <= a.len(),
            a.len() == b.len(),
            forall|j: int| 0 <= j < i ==> a@[j] == b@[j],
        decreases a.len() - i,
    {
        if a[i] != b[i] {
            return false;
        }
        i = i + 1;
    }
    assert(a@ == b@);
    true
}

/// Writing a number and reading it back gives the number, in every width and order.
pub proof fn bytes_round_trip(x: u16, y: u32)
    ensures
        from_be16(be16(x)[0], be16(x)[1]) == x,
        from_le16(le16(x)[0], le16(x)[1]) == x,
        from_le32(le32(y)[0], le32(y)[1], le32(y)[2], le32(y)[3]) == y,
{
}

/// The bytes of a number are its digits to the base 256, from the highest on or from the lowest
/// on.
pub proof fn bytes_write_their_number(x: u16, y: u32)
    ensures
        be16(x).len() == 2 && be16(x)[0] * 256 + be16(x)[1] == x,
        le16(x).len() == 2 && le16(x)[0] + le16(x)[1] * 256 == x,
        be32(y).len() == 4 && be32(y)[0] * 0x100_0000 + be32(y)[1] * 0x1_0000 + be32(y)[2] * 256
            + be32(y)[3] == y,
        le32(y).len() == 4 && le32(y)[0] + le32(y)[1] * 256 + le32(y)[2] * 0x1_0000 + le32(y)[3]
            * 0x100_0000 == y,
{
}

/// Reading two or four bytes gives the number whose digits to the base 256 they are.
pub proof fn bytes_read_as_their_number(a: u8, b: u8, c: u8, d: u8)
    ensures
        from_be16(a, b) == a * 256 + b,
        from_le16(a, b) == a + b * 256,
        from_le32(a, b, c, d) == a + b * 256 + c * 0x1_0000 + d * 0x100_0000,
{
}

} // verus!
