//! Classification of IEEE 754 binary64 values by their bit patterns.
use vstd::prelude::*;

verus! {

/// Weight of the sign bit: 2^63.
pub const SIGN_BIT: u64 = 0x8000_0000_0000_0000;

/// Weight of the lowest exponent bit: 2^52.
pub const EXPONENT_UNIT: u64 = 0x0010_0000_0000_0000;

/// The biased exponent that marks infinities and NaNs.
pub const EXPONENT_SPECIAL: u64 = 0x7ff;

/// Encoding of `+0.0`.
pub const POSITIVE_ZERO: u64 = 0;

/// Encoding of `1.0`.
pub const ONE: u64 = 0x3ff0_0000_0000_0000;

/// Encoding of `10.0`.
pub const TEN: u64 = 0x4024_0000_0000_0000;

/// The sign bit: 1 for negative values (and `-0.0`), 0 otherwise.
pub open spec fn sign_of(b: u64) -> int {
    b as int / SIGN_BIT as int
}

/// The encoding without its sign bit. For finite values, a larger magnitude
/// encodes a larger absolute value.
pub open spec fn magnitude_of(b: u64) -> int {
    b as int % SIGN_BIT as int
}

/// The biased exponent field.
pub open spec fn exponent_of(b: u64) -> int {
    magnitude_of(b) / EXPONENT_UNIT as int
}

/// Neither an infinity nor a NaN.
pub open spec fn is_finite(b: u64) -> bool {
    exponent_of(b) != EXPONENT_SPECIAL as int
}

/// A finite value strictly greater than zero.
pub open spec fn is_positive(b: u64) -> bool {
    is_finite(b) && sign_of(b) == 0 && magnitude_of(b) != 0
}

/// Whether `b` encodes a finite value.
pub fn finite(b: u64) -> (r: bool)
    ensures
        r == is_finite(b),
{
    (b % SIGN_BIT) / EXPONENT_UNIT != EXPONENT_SPECIAL
}

/// Whether `b` encodes a finite value greater than zero.
pub fn positive(b: u64) -> (r: bool)
    ensures
        r == is_positive(b),
{
    finite(b) && b / SIGN_BIT == 0 && b % SIGN_BIT != 0
}

} // verus!
