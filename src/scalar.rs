//! Single-precision IEEE-754 values held by their bit patterns.
//!
//! The viewer's decisions only compare such values (ordering, sign, zero),
//! so the library keeps each value as the `u32` returned by `f32::to_bits`
//! and states float comparison exactly over that pattern.
use vstd::prelude::*;

verus! {

/// Bit pattern of the smallest finite single-precision value (`-3.4028235e38`).
pub const MIN_FINITE: u32 = 0xff7f_ffff;

/// Bit pattern of positive infinity; patterns above it (sign aside) are NaN.
pub const INFINITY: u32 = 0x7f80_0000;

/// Bit pattern with only the sign bit set (negative zero).
pub const SIGN_BIT: u32 = 0x8000_0000;

/// The pattern with the sign bit cleared.
pub open spec fn magnitude(b: u32) -> int {
    (b % SIGN_BIT) as int
}

pub open spec fn negative_sign(b: u32) -> bool {
    b >= SIGN_BIT
}

/// The pattern encodes a NaN.
pub open spec fn nan(b: u32) -> bool {
    magnitude(b) > INFINITY as int
}

/// An integer that orders non-NaN patterns as their values are ordered:
/// positive values grow with their pattern, negative ones shrink, and both
/// zeros rank 0.
pub open spec fn rank(b: u32) -> int {
    if negative_sign(b) {
        -magnitude(b)
    } else {
        magnitude(b)
    }
}

/// Float `a < b`: false when either is NaN.
pub open spec fn less(a: u32, b: u32) -> bool {
    !nan(a) && !nan(b) && rank(a) < rank(b)
}

/// Float `b > 0.0`.
pub open spec fn positive(b: u32) -> bool {
    !nan(b) && rank(b) > 0
}

/// Float `b == 0.0` (either zero).
pub open spec fn zero(b: u32) -> bool {
    magnitude(b) == 0
}

/// Maximum of two values in the manner of IEEE `maxNum`: a NaN operand
/// yields the other one; of two equal values the first is kept.
pub open spec fn fmax(a: u32, b: u32) -> u32 {
    if nan(a) {
        b
    } else if nan(b) {
        a
    } else if rank(a) < rank(b) {
        b
    } else {
        a
    }
}

pub fn is_nan(b: u32) -> (r: bool)
    ensures
        r == nan(b),
{
    b % SIGN_BIT > INFINITY
}

pub fn is_zero(b: u32) -> (r: bool)
    ensures
        r == zero(b),
{
    b % SIGN_BIT == 0
}

pub fn is_positive(b: u32) -> (r: bool)
    ensures
        r == positive(b),
{
    b < SIGN_BIT && b > 0 && b <= INFINITY
}

pub fn less_than(a: u32, b: u32) -> (r: bool)
    ensures
        r == less(a, b),
{
    if is_nan(a) || is_nan(b) {
        return false;
    }
    let ma: u32 = a % SIGN_BIT;
    let mb: u32 = b % SIGN_BIT;
    let na = a >= SIGN_BIT;
    let nb = b >= SIGN_BIT;
    if !na && !nb {
        ma < mb
    } else if na && nb {
        mb < ma
    } else if na {
        !(ma == 0 && mb == 0)
    } else {
        false
    }
}

pub fn max_value(a: u32, b: u32) -> (r: u32)
    ensures
        r == fmax(a, b),
{
    if is_nan(a) {
        b
    } else if is_nan(b) {
        a
    } else if less_than(a, b) {
        b
    } else {
        a
    }
}

} // verus!
