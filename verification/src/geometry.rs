//! Sizes in logical pixels, read through the bit pattern of an IEEE 754
//! double (`f64::to_bits`): one sign bit, eleven exponent bits, fifty-two
//! fraction bits.

use vstd::prelude::*;

verus! {

/// The sign bit of a double.
pub const SIGN_BIT: u64 = 0x8000_0000_0000_0000u64;

/// The bit pattern of positive infinity: every exponent bit set, no
/// fraction bit set.
pub const INFINITY_BITS: u64 = 0x7ff0_0000_0000_0000u64;

/// The pattern without its sign bit.
pub open spec fn magnitude(bits: u64) -> int {
    if bits >= SIGN_BIT {
        bits - SIGN_BIT
    } else {
        bits as int
    }
}

/// Whether the pattern is a NaN: exponent all ones and a non-zero fraction.
pub open spec fn is_nan(bits: u64) -> bool {
    magnitude(bits) > INFINITY_BITS
}

/// Whether the double with this pattern compares less than or equal to
/// zero: it is a number, and it is negative or one of the two zeros. A NaN
/// compares with nothing and so is not counted.
pub open spec fn non_positive(bits: u64) -> bool {
    !is_nan(bits) && (bits >= SIGN_BIT || bits == 0)
}

/// Whether the double with this pattern is zero or below.
pub fn is_non_positive(bits: u64) -> (answer: bool)
    ensures
        answer == non_positive(bits),
{
    if bits >= SIGN_BIT {
        bits - SIGN_BIT <= INFINITY_BITS
    } else {
        bits == 0
    }
}

/// Whether a surface of this width and height can be placed: both are
/// above zero, or not numbers at all.
pub fn is_placeable(width: u64, height: u64) -> (answer: bool)
    ensures
        answer == (!non_positive(width) && !non_positive(height)),
{
    !is_non_positive(width) && !is_non_positive(height)
}

} // verus!
