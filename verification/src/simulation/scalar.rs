//! Single-precision numbers held by their IEEE-754 binary32 bit patterns.
//!
//! A pattern is a `u32`: bit 31 is the sign, bits 30..23 the exponent and
//! bits 22..0 the fraction. A pattern whose magnitude lies above that of
//! infinity encodes a NaN. Among the others the magnitude grows with the
//! absolute value of the number, so that the magnitude taken with the sign
//! orders the patterns as their numbers are ordered; both zeroes get the
//! same place.

use vstd::prelude::*;

verus! {

/// Pattern of `0.0`.
pub const ZERO: u32 = 0x0000_0000;

/// Pattern of `1.0`.
pub const ONE: u32 = 0x3F80_0000;

/// Pattern of positive infinity.
pub const INFINITY: u32 = 0x7F80_0000;

/// The sign bit, which is also the pattern of `-0.0`.
pub const SIGN: u32 = 0x8000_0000;

/// The pattern with its sign bit cleared.
pub open spec fn spec_magnitude(bits: u32) -> u32 {
    if bits >= SIGN {
        (bits - SIGN) as u32
    } else {
        bits
    }
}

/// Whether the pattern encodes a NaN.
pub open spec fn spec_is_nan(bits: u32) -> bool {
    spec_magnitude(bits) > INFINITY
}

/// The place of a pattern in the order of the numbers: its magnitude,
/// negated where the sign bit is set. It means nothing for a NaN.
pub open spec fn spec_key(bits: u32) -> int {
    if bits >= SIGN {
        -(spec_magnitude(bits) as int)
    } else {
        bits as int
    }
}

/// Whether the number of `a` is less than the number of `b`; false where
/// either is a NaN.
pub open spec fn spec_less(a: u32, b: u32) -> bool {
    !spec_is_nan(a) && !spec_is_nan(b) && spec_key(a) < spec_key(b)
}

/// The number of `bits` brought into the range from `lo` to `hi`: `lo`
/// where it is less than `lo`, `hi` where it is greater than `hi`, else
/// itself, which leaves a NaN as it is.
pub open spec fn spec_clamp(bits: u32, lo: u32, hi: u32) -> u32 {
    if spec_less(bits, lo) {
        lo
    } else if spec_less(hi, bits) {
        hi
    } else {
        bits
    }
}

/// The lesser of two numbers; where one is a NaN, the other; where they
/// are equal, the first.
pub open spec fn spec_min(a: u32, b: u32) -> u32 {
    if spec_is_nan(a) {
        b
    } else if spec_is_nan(b) || !spec_less(b, a) {
        a
    } else {
        b
    }
}

/// The pattern with its sign bit cleared.
#[verifier::when_used_as_spec(spec_magnitude)]
pub fn magnitude(bits: u32) -> (m: u32)
    ensures
        m == spec_magnitude(bits),
        m < SIGN,
{
    if bits >= SIGN {
        bits - SIGN
    } else {
        bits
    }
}

/// Whether the pattern encodes a NaN.
#[verifier::when_used_as_spec(spec_is_nan)]
pub fn is_nan(bits: u32) -> (nan: bool)
    ensures
        nan == spec_is_nan(bits),
{
    magnitude(bits) > INFINITY
}

/// The place of a pattern in the order of the numbers.
pub fn key(bits: u32) -> (k: i64)
    ensures
        k == spec_key(bits),
{
    if bits >= SIGN {
        let m: u32 = bits - SIGN;
        0 - (m as i64)
    } else {
        bits as i64
    }
}

/// Whether the number of `a` is less than the number of `b`.
#[verifier::when_used_as_spec(spec_less)]
pub fn less(a: u32, b: u32) -> (lt: bool)
    ensures
        lt == spec_less(a, b),
{
    !is_nan(a) && !is_nan(b) && key(a) < key(b)
}

/// Clamps a number into the range from `lo` to `hi`, neither of them a NaN
/// and `lo` not greater than `hi`.
#[verifier::when_used_as_spec(spec_clamp)]
pub fn clamp(bits: u32, lo: u32, hi: u32) -> (clamped: u32)
    requires
        !spec_is_nan(lo),
        !spec_is_nan(hi),
        !spec_less(hi, lo),
    ensures
        clamped == spec_clamp(bits, lo, hi),
        !spec_is_nan(bits) ==> !spec_less(clamped, lo) && !spec_less(hi, clamped),
        spec_is_nan(bits) ==> clamped == bits,
{
    if less(bits, lo) {
        lo
    } else if less(hi, bits) {
        hi
    } else {
        bits
    }
}

/// The lesser of two numbers.
#[verifier::when_used_as_spec(spec_min)]
pub fn min(a: u32, b: u32) -> (least: u32)
    ensures
        least == spec_min(a, b),
        least == a || least == b,
        !spec_less(a, least) && !spec_less(b, least),
        spec_is_nan(least) ==> spec_is_nan(a) && spec_is_nan(b),
{
    if is_nan(a) {
        b
    } else if is_nan(b) || !less(b, a) {
        a
    } else {
        b
    }
}

/// Among patterns of numbers that are not negative, the order of the
/// numbers is the order of the patterns.
pub proof fn lemma_less_of_positive(a: u32, b: u32)
    requires
        a <= INFINITY,
        b <= INFINITY,
    ensures
        spec_less(a, b) <==> a < b,
{
}

/// Clamping is idempotent: a clamped number is its own clamp.
pub proof fn lemma_clamp_idempotent(bits: u32, lo: u32, hi: u32)
    requires
        !spec_is_nan(lo),
        !spec_is_nan(hi),
        !spec_less(hi, lo),
    ensures
        spec_clamp(spec_clamp(bits, lo, hi), lo, hi) == spec_clamp(bits, lo, hi),
{
}

} // verus!
