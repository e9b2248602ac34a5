//! IEEE 754 single-precision values, held by their 32-bit encoding.
//!
//! Bit 31 is the sign, the remaining 31 bits (the magnitude) hold exponent and
//! fraction. Among values that are not NaN, a larger magnitude encodes a
//! larger absolute value, so the order of the values can be read off the
//! encodings with integer comparisons alone.
use vstd::prelude::*;

verus! {

/// The encoding of `+0.0`.
pub const ZERO: u32 = 0;

/// The encoding of `1.0`.
pub const ONE: u32 = 0x3f80_0000;

/// The encoding of positive infinity; every larger magnitude is a NaN.
pub const INFINITY: u32 = 0x7f80_0000;

/// The sign bit; also the encoding of `-0.0`.
pub const SIGN: u32 = 0x8000_0000;

/// The encoding of negative infinity.
pub const NEG_INFINITY: u32 = 0xff80_0000;

/// The encoding with its sign bit cleared.
pub open spec fn magnitude(x: u32) -> int {
    if x >= SIGN {
        x - SIGN
    } else {
        x as int
    }
}

/// Whether the sign bit is set.
pub open spec fn is_negative(x: u32) -> bool {
    x >= SIGN
}

/// Whether the encoding is a NaN.
pub open spec fn is_nan(x: u32) -> bool {
    magnitude(x) > INFINITY
}

/// Position of a value in the order of the extended reals: values that are
/// not NaN compare as their ranks do. Both zeros have rank 0.
pub open spec fn rank(x: u32) -> int {
    if is_negative(x) {
        -magnitude(x)
    } else {
        magnitude(x)
    }
}

/// The IEEE 754 relation `a < b`: false whenever either side is a NaN.
pub open spec fn less(a: u32, b: u32) -> bool {
    !is_nan(a) && !is_nan(b) && rank(a) < rank(b)
}

/// The IEEE 754 relation `a == b`: false whenever either side is a NaN, true
/// of the two zeros.
pub open spec fn same_value(a: u32, b: u32) -> bool {
    !is_nan(a) && !is_nan(b) && rank(a) == rank(b)
}

/// `x` limited to the interval from `min` to `max`: a value below `min`
/// becomes `min`, one above `max` becomes `max`, anything else (a NaN too) is
/// kept as it is.
pub open spec fn clamped(x: u32, min: u32, max: u32) -> u32 {
    if less(x, min) {
        min
    } else if less(max, x) {
        max
    } else {
        x
    }
}

/// Decides whether the encoding is a NaN.
pub fn check_nan(x: u32) -> (r: bool)
    ensures
        r == is_nan(x),
{
    if x >= SIGN {
        x - SIGN > INFINITY
    } else {
        x > INFINITY
    }
}

/// Decides `a < b` on the encodings.
pub fn is_less(a: u32, b: u32) -> (r: bool)
    ensures
        r == less(a, b),
{
    if check_nan(a) || check_nan(b) {
        false
    } else if a >= SIGN {
        if b >= SIGN {
            a > b
        } else {
            a > SIGN || b > 0
        }
    } else {
        b < SIGN && a < b
    }
}

/// Decides `a == b` on the encodings.
pub fn is_same_value(a: u32, b: u32) -> (r: bool)
    ensures
        r == same_value(a, b),
{
    if check_nan(a) || check_nan(b) {
        false
    } else {
        a == b || (a == SIGN && b == ZERO) || (a == ZERO && b == SIGN)
    }
}

/// Limits `x` to the interval from `min` to `max`.
pub fn clamp(x: u32, min: u32, max: u32) -> (r: u32)
    requires
        !is_nan(min),
        !is_nan(max),
        rank(min) <= rank(max),
    ensures
        r == clamped(x, min, max),
{
    if is_less(x, min) {
        min
    } else if is_less(max, x) {
        max
    } else {
        x
    }
}

/// A value that is limited to an interval lies in it, unless it is a NaN,
/// which stays what it was.
pub proof fn lemma_clamped_in_range(x: u32, min: u32, max: u32)
    requires
        !is_nan(min),
        !is_nan(max),
        rank(min) <= rank(max),
    ensures
        is_nan(x) ==> clamped(x, min, max) == x,
        !is_nan(x) ==> rank(min) <= rank(clamped(x, min, max)) <= rank(max),
        !less(x, min) && !less(max, x) ==> clamped(x, min, max) == x,
        clamped(clamped(x, min, max), min, max) == clamped(x, min, max),
{
}

} // verus!
