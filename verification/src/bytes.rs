use vstd::prelude::*;

verus! {

/// The four bytes of a 32-bit value, least significant first (the byte order
/// of every x86 and x64 target).
pub open spec fn le32(x: u32) -> Seq<u8> {
    seq![(x & 0xff) as u8, ((x >> 8) & 0xff) as u8, ((x >> 16) & 0xff) as u8, ((x >> 24) & 0xff) as u8]
}

/// The 32-bit value of four bytes, least significant first.
pub open spec fn from_le32(b0: u8, b1: u8, b2: u8, b3: u8) -> u32 {
    (b0 as u32) | ((b1 as u32) << 8) | ((b2 as u32) << 16) | ((b3 as u32) << 24)
}

/// The 32-bit value of the four bytes of `bytes` at `at`.
pub open spec fn le32_at(bytes: Seq<u8>, at: int) -> u32 {
    from_le32(bytes[at], bytes[at + 1], bytes[at + 2], bytes[at + 3])
}

/// The 16-bit value of the two bytes of `bytes` at `at`.
pub open spec fn le16_at(bytes: Seq<u8>, at: int) -> u16 {
    ((bytes[at] as u16) | ((bytes[at + 1] as u16) << 8)) as u16
}

/// The eight bytes of a 64-bit value, least significant first.
pub open spec fn le64(x: u64) -> Seq<u8> {
    seq![
        (x & 0xff) as u8,
        ((x >> 8) & 0xff) as u8,
        ((x >> 16) & 0xff) as u8,
        ((x >> 24) & 0xff) as u8,
        ((x >> 32) & 0xff) as u8,
        ((x >> 40) & 0xff) as u8,
        ((x >> 48) & 0xff) as u8,
        ((x >> 56) & 0xff) as u8,
    ]
}

pub proof fn lemma_le32_round_trip(x: u32)
    ensures
        le32_at(le32(x), 0) == x,
{
    let b = le32(x);
    assert(from_le32(
        (x & 0xff) as u8,
        ((x >> 8) & 0xff) as u8,
        ((x >> 16) & 0xff) as u8,
        ((x >> 24) & 0xff) as u8,
    ) == x) by (bit_vector);
}

pub proof fn lemma_from_le32_round_trip(b0: u8, b1: u8, b2: u8, b3: u8)
    ensures
        le32(from_le32(b0, b1, b2, b3)) == seq![b0, b1, b2, b3],
{
    let x = from_le32(b0, b1, b2, b3);
    assert((x & 0xff) as u8 == b0 && ((x >> 8) & 0xff) as u8 == b1 && ((x >> 16) & 0xff) as u8
        == b2 && ((x >> 24) & 0xff) as u8 == b3) by (bit_vector)
        requires
            x == (b0 as u32) | ((b1 as u32) << 8) | ((b2 as u32) << 16) | ((b3 as u32) << 24),
    ;
    assert(le32(x) =~= seq![b0, b1, b2, b3]);
}

/// Appends the four bytes of `x`, least significant first.
pub fn push_le32(bytes: &mut Vec<u8>, x: u32)
    ensures
        final(bytes)@ == old(bytes)@ + le32(x),
{
    bytes.push((x & 0xff) as u8);
    bytes.push(((x >> 8) & 0xff) as u8);
    bytes.push(((x >> 16) & 0xff) as u8);
    bytes.push(((x >> 24) & 0xff) as u8);
    assert(final(bytes)@ =~= old(bytes)@ + le32(x));
}

/// Appends the eight bytes of `x`, least significant first.
pub fn push_le64(bytes: &mut Vec<u8>, x: u64)
    ensures
        final(bytes)@ == old(bytes)@ + le64(x),
{
    bytes.push((x & 0xff) as u8);
    bytes.push(((x >> 8) & 0xff) as u8);
    bytes.push(((x >> 16) & 0xff) as u8);
    bytes.push(((x >> 24) & 0xff) as u8);
    bytes.push(((x >> 32) & 0xff) as u8);
    bytes.push(((x >> 40) & 0xff) as u8);
    bytes.push(((x >> 48) & 0xff) as u8);
    bytes.push(((x >> 56) & 0xff) as u8);
    assert(final(bytes)@ =~= old(bytes)@ + le64(x));
}

/// Reads the 32-bit value at `at`, least significant byte first.
pub fn read_le32(bytes: &[u8], at: usize) -> (x: u32)
    requires
        at + 4 <= bytes@.len(),
    ensures
        x == le32_at(bytes@, at as int),
{
    (bytes[at] as u32) | ((bytes[at + 1] as u32) << 8) | ((bytes[at + 2] as u32) << 16) | ((
    bytes[at + 3] as u32) << 24)
}

/// Reads the 16-bit value at `at`, least significant byte first.
pub fn read_le16(bytes: &[u8], at: usize) -> (x: u16)
    requires
        at + 2 <= bytes@.len(),
    ensures
        x == le16_at(bytes@, at as int),
{
    ((bytes[at] as u16) | ((bytes[at + 1] as u16) << 8)) as u16
}

} // verus!
