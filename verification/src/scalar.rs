//! IEEE 754 binary32 values, held by their bit patterns.
//!
//! The verified core never performs floating-point arithmetic. It stores a
//! value as the 32 bits of its encoding, compares encodings as integers
//! where that agrees with the numeric order, and leaves arithmetic to the
//! host, which evaluates the expressions of [`crate::expr`].
use vstd::prelude::*;

verus! {

/// Encodings at or above this one have the sign bit set.
pub const SIGN_BIT: u32 = 0x8000_0000;

/// Positive infinity. Every larger encoding with a clear sign bit is a NaN.
pub const INFINITY: u32 = 0x7f80_0000;

/// `0.0`
pub const ZERO: u32 = 0;

/// `1.0`
pub const ONE: u32 = 0x3f80_0000;

/// Two binary32 numbers.
#[derive(Clone, Copy, Debug, PartialEq, Eq)]
pub struct Vec2 {
    pub x: u32,
    pub y: u32,
}

/// Four binary32 numbers.
#[derive(Clone, Copy, Debug, PartialEq, Eq)]
pub struct Vec4 {
    pub x: u32,
    pub y: u32,
    pub z: u32,
    pub w: u32,
}

/// The encoding without its sign bit.
pub open spec fn magnitude(bits: u32) -> int {
    if bits >= SIGN_BIT {
        bits - SIGN_BIT
    } else {
        bits as int
    }
}

/// `bits` encodes a NaN.
pub open spec fn is_nan(bits: u32) -> bool {
    magnitude(bits) > INFINITY
}

/// `bits` encodes a negative number, negative zero, negative infinity or a
/// NaN with the sign bit set.
pub open spec fn is_sign_negative(bits: u32) -> bool {
    bits >= SIGN_BIT
}

/// `floor` encodes a number above zero, infinity included.
pub open spec fn is_positive(floor: u32) -> bool {
    0 < floor <= INFINITY
}

/// `bits` encodes a number (not a NaN) that is not below the positive
/// number that `floor` encodes.
///
/// Among encodings with a clear sign bit that are not NaNs, the numeric
/// order is the order of the encodings as integers.
pub open spec fn at_least(bits: u32, floor: u32) -> bool {
    floor <= bits <= INFINITY
}

/// The larger of the two numbers, `floor` where `bits` is a NaN.
pub open spec fn raised(bits: u32, floor: u32) -> u32 {
    if at_least(bits, floor) {
        bits
    } else {
        floor
    }
}

/// Raises `bits` to `floor`: the result is `bits` where that encodes a
/// number not below `floor`, and `floor` otherwise (for smaller numbers,
/// for every negative number and for NaNs).
pub fn raise(bits: u32, floor: u32) -> (result: u32)
    ensures
        result == raised(bits, floor),
        is_positive(floor) ==> at_least(result, floor),
{
    if floor <= bits && bits <= INFINITY {
        bits
    } else {
        floor
    }
}

/// A NaN or a number with the sign bit set is never at least a positive
/// floor, and raising is idempotent.
pub proof fn lemma_raised(bits: u32, floor: u32)
    requires
        is_positive(floor),
    ensures
        at_least(raised(bits, floor), floor),
        !is_nan(raised(bits, floor)),
        !is_sign_negative(raised(bits, floor)),
        is_nan(bits) || is_sign_negative(bits) ==> raised(bits, floor) == floor,
        raised(raised(bits, floor), floor) == raised(bits, floor),
{
}

} // verus!
