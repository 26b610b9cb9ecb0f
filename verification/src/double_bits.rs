//! IEEE-754 binary64 values held as their bit patterns (`f64::to_bits`), and
//! the order in which `<` and `>` compare them.
use vstd::prelude::*;

verus! {

/// The sign bit of a binary64 bit pattern.
pub const SIGN_BIT: u64 = 0x8000_0000_0000_0000;

/// The bit pattern of positive infinity. A pattern whose magnitude (all bits
/// but the sign) is larger than this is a NaN.
pub const POSITIVE_INFINITY: u64 = 0x7FF0_0000_0000_0000;

/// The bit pattern of `-0.75`.
pub const MINUS_THREE_QUARTERS: u64 = 0xBFE8_0000_0000_0000;

/// The bit pattern of `-0.5`.
pub const MINUS_HALF: u64 = 0xBFE0_0000_0000_0000;

/// The bit pattern of `0.0`.
pub const ZERO: u64 = 0x0000_0000_0000_0000;

/// The bit pattern of `0.5`.
pub const HALF: u64 = 0x3FE0_0000_0000_0000;

/// The bit pattern of `0.75`.
pub const THREE_QUARTERS: u64 = 0x3FE8_0000_0000_0000;

/// The bit pattern of `1.0`.
pub const ONE: u64 = 0x3FF0_0000_0000_0000;

/// The bit pattern of `1.5`.
pub const ONE_AND_A_HALF: u64 = 0x3FF8_0000_0000_0000;

/// The bit pattern of `2.0`.
pub const TWO: u64 = 0x4000_0000_0000_0000;

/// The bit pattern of `3.0`.
pub const THREE: u64 = 0x4008_0000_0000_0000;

/// The magnitude of a binary64 bit pattern: all bits but the sign bit.
pub open spec fn magnitude(bits: u64) -> int {
    if bits >= SIGN_BIT {
        bits - SIGN_BIT
    } else {
        bits as int
    }
}

/// Whether a bit pattern encodes a NaN: all exponent bits set and a non-zero
/// fraction.
pub open spec fn double_is_nan(bits: u64) -> bool {
    magnitude(bits) > POSITIVE_INFINITY
}

/// An integer that orders non-NaN doubles as the real line does: for
/// non-negative doubles the magnitude grows with the value, and a set sign
/// bit negates it. Both zeros get the key 0, as `-0.0 == 0.0`.
pub open spec fn order_key(bits: u64) -> int {
    if bits >= SIGN_BIT {
        -magnitude(bits)
    } else {
        magnitude(bits)
    }
}

/// `a < b` on doubles: false as soon as either side is a NaN.
pub open spec fn double_lt(a: u64, b: u64) -> bool {
    &&& !double_is_nan(a)
    &&& !double_is_nan(b)
    &&& order_key(a) < order_key(b)
}

/// `a <= b` on doubles: false as soon as either side is a NaN.
pub open spec fn double_le(a: u64, b: u64) -> bool {
    &&& !double_is_nan(a)
    &&& !double_is_nan(b)
    &&& order_key(a) <= order_key(b)
}

/// Decides whether a bit pattern is a NaN.
pub fn is_nan(bits: u64) -> (r: bool)
    ensures
        r == double_is_nan(bits),
{
    let magnitude: u64 = if bits >= SIGN_BIT {
        bits - SIGN_BIT
    } else {
        bits
    };
    magnitude > POSITIVE_INFINITY
}

/// The order key of a bit pattern, as a machine integer.
fn order_key_of(bits: u64) -> (r: i128)
    ensures
        r == order_key(bits),
{
    if bits >= SIGN_BIT {
        -((bits - SIGN_BIT) as i128)
    } else {
        bits as i128
    }
}

/// Compares two doubles with `<`.
pub fn less_than(a: u64, b: u64) -> (r: bool)
    ensures
        r == double_lt(a, b),
{
    if is_nan(a) || is_nan(b) {
        false
    } else {
        order_key_of(a) < order_key_of(b)
    }
}

} // verus!
