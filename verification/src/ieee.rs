//! Comparisons on IEEE-754 binary64 values held as their bit patterns.
//!
//! Prices and thresholds cross the library boundary as the `u64` bit pattern
//! of an `f64` (what `f64::to_bits` gives). The library never does float
//! arithmetic; it only compares such values, and these functions compare
//! them exactly as the IEEE-754 comparison operators do: a NaN is unordered,
//! `-0.0` equals `+0.0`, and otherwise the real values are ordered.
use vstd::prelude::*;

verus! {

/// Bit pattern of the sign bit.
pub const SIGN_BIT: u64 = 0x8000_0000_0000_0000;

/// Bit pattern of positive infinity: exponent all ones, fraction zero.
pub const POSITIVE_INFINITY_BITS: u64 = 0x7ff0_0000_0000_0000;

/// Bit pattern of `0.0`.
pub const ZERO_BITS: u64 = 0;

/// Bit pattern of `100.0`.
pub const HUNDRED_BITS: u64 = 0x4059_0000_0000_0000;

/// Bit pattern of `2.0`.
pub const TWO_BITS: u64 = 0x4000_0000_0000_0000;

pub open spec fn sign_set(b: u64) -> bool {
    b >= SIGN_BIT
}

/// The bits of the value without its sign bit (exponent and fraction).
pub open spec fn magnitude(b: u64) -> int {
    if sign_set(b) {
        b - SIGN_BIT
    } else {
        b as int
    }
}

/// A NaN has all exponent bits set and a nonzero fraction.
pub open spec fn is_nan(b: u64) -> bool {
    magnitude(b) > POSITIVE_INFINITY_BITS
}

/// For non-NaN values the magnitude bits grow with the absolute value, so
/// this integer orders the values as the reals they stand for (both zeros
/// map to 0, the infinities to the extremes).
pub open spec fn order_key(b: u64) -> int {
    if sign_set(b) {
        -magnitude(b)
    } else {
        magnitude(b)
    }
}

/// `a < b` on the binary64 values with bit patterns `a` and `b`.
pub open spec fn float_lt(a: u64, b: u64) -> bool {
    !is_nan(a) && !is_nan(b) && order_key(a) < order_key(b)
}

/// `a <= b` on the binary64 values with bit patterns `a` and `b`.
pub open spec fn float_le(a: u64, b: u64) -> bool {
    !is_nan(a) && !is_nan(b) && order_key(a) <= order_key(b)
}

/// `a == 0.0` on the binary64 value with bit pattern `a` (true for both zeros).
pub open spec fn float_is_zero(a: u64) -> bool {
    magnitude(a) == 0
}

fn magnitude_of(b: u64) -> (m: u64)
    ensures
        m == magnitude(b),
        m < SIGN_BIT,
{
    if b >= SIGN_BIT {
        b - SIGN_BIT
    } else {
        b
    }
}

/// Whether the value with bit pattern `b` is a NaN.
pub fn bits_is_nan(b: u64) -> (r: bool)
    ensures
        r == is_nan(b),
{
    magnitude_of(b) > POSITIVE_INFINITY_BITS
}

/// `a < b` for the binary64 values with these bit patterns.
pub fn bits_lt(a: u64, b: u64) -> (r: bool)
    ensures
        r == float_lt(a, b),
{
    let ma = magnitude_of(a);
    let mb = magnitude_of(b);
    if ma > POSITIVE_INFINITY_BITS || mb > POSITIVE_INFINITY_BITS {
        return false;
    }
    let na = a >= SIGN_BIT;
    let nb = b >= SIGN_BIT;
    if na && nb {
        mb < ma
    } else if na && !nb {
        !(ma == 0 && mb == 0)
    } else if !na && nb {
        false
    } else {
        ma < mb
    }
}

/// `a <= b` for the binary64 values with these bit patterns.
pub fn bits_le(a: u64, b: u64) -> (r: bool)
    ensures
        r == float_le(a, b),
{
    let ma = magnitude_of(a);
    let mb = magnitude_of(b);
    if ma > POSITIVE_INFINITY_BITS || mb > POSITIVE_INFINITY_BITS {
        return false;
    }
    let na = a >= SIGN_BIT;
    let nb = b >= SIGN_BIT;
    if na && nb {
        mb <= ma
    } else if na && !nb {
        true
    } else if !na && nb {
        ma == 0 && mb == 0
    } else {
        ma <= mb
    }
}

/// `a == 0.0` for the binary64 value with bit pattern `a`.
pub fn bits_is_zero(a: u64) -> (r: bool)
    ensures
        r == float_is_zero(a),
{
    magnitude_of(a) == 0
}

} // verus!
