use vstd::prelude::*;

verus! {

/// `weight` where `flag` holds, else 0: the value of one bit of a register.
#[verifier::opaque]
pub open spec fn bit(flag: bool, weight: int) -> int {
    if flag {
        weight
    } else {
        0
    }
}

/// `weight` where `flag` holds, else 0.
pub fn bit_value(flag: bool, weight: u32) -> (value: u32)
    ensures
        value == bit(flag, weight as int),
        value <= weight,
{
    reveal(bit);
    if flag {
        weight
    } else {
        0
    }
}

/// Whether the bit of weight `weight`, a power of two, is set in `value`.
pub open spec fn has_bit(value: int, weight: int) -> bool {
    (value / weight) % 2 == 1
}

/// Whether the bit of weight `weight` is set in `value`.
pub fn test_bit(value: u32, weight: u32) -> (set: bool)
    requires
        weight > 0,
    ensures
        set == has_bit(value as int, weight as int),
{
    (value / weight) % 2 == 1
}

} // verus!
