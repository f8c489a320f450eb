//! Doubles by their bit patterns, compared as IEEE 754 says.

use vstd::prelude::*;

verus! {

/// The bit pattern of positive infinity. Patterns above it, up to the sign,
/// are not numbers.
pub const INFINITY_BITS: u64 = 0x7FF0_0000_0000_0000;

/// The weight of the sign bit.
pub const SIGN_WEIGHT: u64 = 0x8000_0000_0000_0000;

/// The pattern without its sign.
pub open spec fn magnitude(bits: u64) -> int {
    if bits >= SIGN_WEIGHT {
        bits - SIGN_WEIGHT
    } else {
        bits as int
    }
}

/// Whether the double is neither infinite nor not a number.
pub open spec fn finite(bits: u64) -> bool {
    magnitude(bits) < INFINITY_BITS
}

/// Whether the double is not a number.
pub open spec fn not_a_number(bits: u64) -> bool {
    magnitude(bits) > INFINITY_BITS
}

/// An integer by which doubles are ordered; both zeros have the same.
pub open spec fn rank(bits: u64) -> int {
    if bits >= SIGN_WEIGHT {
        -magnitude(bits)
    } else {
        magnitude(bits)
    }
}

/// Whether one double is less than another.
pub open spec fn double_less(a: u64, b: u64) -> bool {
    !not_a_number(a) && !not_a_number(b) && rank(a) < rank(b)
}

/// Whether the double is neither infinite nor not a number.
pub fn is_finite(bits: u64) -> (yes: bool)
    ensures
        yes == finite(bits),
{
    if bits >= SIGN_WEIGHT {
        bits - SIGN_WEIGHT < INFINITY_BITS
    } else {
        bits < INFINITY_BITS
    }
}

fn rank_of(bits: u64) -> (r: i128)
    ensures
        r == rank(bits),
{
    if bits >= SIGN_WEIGHT {
        -((bits - SIGN_WEIGHT) as i128)
    } else {
        bits as i128
    }
}

fn is_nan(bits: u64) -> (yes: bool)
    ensures
        yes == not_a_number(bits),
{
    if bits >= SIGN_WEIGHT {
        bits - SIGN_WEIGHT > INFINITY_BITS
    } else {
        bits > INFINITY_BITS
    }
}

/// Whether one double is less than another.
pub fn is_less(a: u64, b: u64) -> (yes: bool)
    ensures
        yes == double_less(a, b),
{
    !is_nan(a) && !is_nan(b) && rank_of(a) < rank_of(b)
}

} // verus!
