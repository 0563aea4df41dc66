use vstd::prelude::*;

verus! {

/// True when the sign bit (bit 7) of an 8-bit value is set, i.e. the value
/// is negative under the two's-complement reading.
pub fn is_up_7bit(value: u8) -> (r: bool)
    ensures
        r == (value >= 0x80),
{
    value >= 0x80
}

/// True when an 8-bit value is zero.
pub fn is_zero(value: u8) -> (r: bool)
    ensures
        r == (value == 0),
{
    value == 0
}

} // verus!
