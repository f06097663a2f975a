use vstd::prelude::*;

pub mod arp;
pub mod ethernet;

verus! {

/// The two bytes of `value`, the more significant first.
pub open spec fn be16(value: u16) -> Seq<u8> {
    seq![(value / 256) as u8, (value % 256) as u8]
}

/// The four bytes of `value`, the most significant first.
pub open spec fn be32(value: u32) -> Seq<u8> {
    seq![
        (value / 16777216) as u8,
        ((value / 65536) % 256) as u8,
        ((value / 256) % 256) as u8,
        (value % 256) as u8,
    ]
}

/// The value whose two bytes, the more significant first, are `high` and `low`.
pub open spec fn from_be16(high: u8, low: u8) -> u16 {
    (high as u16 * 256 + low as u16) as u16
}

/// The value whose four bytes, the most significant first, are given.
pub open spec fn from_be32(b0: u8, b1: u8, b2: u8, b3: u8) -> u32 {
    (b0 as u32 * 16777216 + b1 as u32 * 65536 + b2 as u32 * 256 + b3 as u32) as u32
}

/// Reading the bytes of a value back gives the value.
pub proof fn lemma_be16_round_trip(value: u16)
    ensures
        be16(value).len() == 2,
        from_be16(be16(value)[0], be16(value)[1]) == value,
{
}

/// Reading the bytes of a value back gives the value.
pub proof fn lemma_be32_round_trip(value: u32)
    ensures
        be32(value).len() == 4,
        from_be32(be32(value)[0], be32(value)[1], be32(value)[2], be32(value)[3]) == value,
{
}

/// Appends the two bytes of `value`, the more significant first.
pub fn push_be16(bytes: &mut Vec<u8>, value: u16)
    ensures
        final(bytes)@ == old(bytes)@ + be16(value),
{
    bytes.push((value / 256) as u8);
    bytes.push((value % 256) as u8);
    assert(final(bytes)@ =~= old(bytes)@ + be16(value));
}

/// Appends the four bytes of `value`, the most significant first.
pub fn push_be32(bytes: &mut Vec<u8>, value: u32)
    ensures
        final(bytes)@ == old(bytes)@ + be32(value),
{
    bytes.push((value / 16777216) as u8);
    bytes.push(((value / 65536) % 256) as u8);
    bytes.push(((value / 256) % 256) as u8);
    bytes.push((value % 256) as u8);
    assert(final(bytes)@ =~= old(bytes)@ + be32(value));
}

/// Appends a copy of every byte of `more`.
pub fn push_all(bytes: &mut Vec<u8>, more: &[u8])
    ensures
        final(bytes)@ == old(bytes)@ + more@,
{
    let mut index: usize = 0;
    while index < more.len()
        invariant
            index <= more@.len(),
            bytes@ == old(bytes)@ + more@.subrange(0, index as int),
        decreases more@.len() - index,
    {
        bytes.push(more[index]);
        assert(bytes@ =~= old(bytes)@ + more@.subrange(0, index + 1));
        index = index + 1;
    }
    assert(more@.subrange(0, index as int) =~= more@);
}

/// The value whose two bytes, the more significant first, stand at `at`.
pub fn read_be16(bytes: &[u8], at: usize) -> (value: u16)
    requires
        at + 2 <= bytes@.len(),
    ensures
        value == from_be16(bytes@[at as int], bytes@[at + 1]),
{
    (bytes[at] as u16) * 256 + (bytes[at + 1] as u16)
}

/// The value whose four bytes, the most significant first, stand at `at`.
pub fn read_be32(bytes: &[u8], at: usize) -> (value: u32)
    requires
        at + 4 <= bytes@.len(),
    ensures
        value == from_be32(bytes@[at as int], bytes@[at + 1], bytes@[at + 2], bytes@[at + 3]),
{
    (bytes[at] as u32) * 16777216 + (bytes[at + 1] as u32) * 65536 + (bytes[at + 2] as u32) * 256
        + (bytes[at + 3] as u32)
}

} // verus!
