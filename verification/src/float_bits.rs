//! IEEE-754 binary32 values carried by their bit patterns.
//!
//! Scores, rates and deltas are single-precision floats where they are
//! measured; the library holds each as the `u32` that `f32::to_bits` gives,
//! and decides float comparisons (`==`, `<`, `>=`) on the bit patterns.
//! Positive floats (including +∞) are ordered exactly as their bit
//! patterns; NaNs lie strictly above +∞ (`0x7F80_0001..=0x7FFF_FFFF`) or
//! have the sign bit set, and every pattern with the sign bit set other
//! than `-0.0` (`0x8000_0000`) is negative or NaN.

use vstd::prelude::*;

verus! {

/// Bit pattern of `+∞`.
pub const F32_POS_INFINITY_BITS: u32 = 0x7F80_0000;

/// Bit pattern of `-0.0`.
pub const F32_NEG_ZERO_BITS: u32 = 0x8000_0000;

/// Bit pattern of `-∞`.
pub const F32_NEG_INFINITY_BITS: u32 = 0xFF80_0000;

/// The float with bit pattern `b` is a number `>= 0.0`: `+0.0` up to `+∞`,
/// or `-0.0`. NaN compares false.
pub open spec fn f32_bits_nonnegative(b: u32) -> bool {
    b <= F32_POS_INFINITY_BITS || b == F32_NEG_ZERO_BITS
}

/// Decides `x >= 0.0` for the float `x` with bit pattern `b`.
pub fn f32_bits_is_nonnegative(b: u32) -> (r: bool)
    ensures
        r == f32_bits_nonnegative(b),
{
    b <= F32_POS_INFINITY_BITS || b == F32_NEG_ZERO_BITS
}

/// The float with bit pattern `b` is a NaN: every exponent bit set and a
/// non-zero fraction, with either sign.
pub open spec fn f32_bits_nan(b: u32) -> bool {
    (F32_POS_INFINITY_BITS < b < F32_NEG_ZERO_BITS) || b > F32_NEG_INFINITY_BITS
}

/// Position of a non-NaN float on the number line, as an integer: positive
/// floats by their bit pattern, negative floats by minus their magnitude
/// bits, and both zeros at 0.
pub open spec fn f32_bits_order_key(b: u32) -> int {
    if b < F32_NEG_ZERO_BITS {
        b as int
    } else {
        -(b - F32_NEG_ZERO_BITS)
    }
}

/// The floats with bit patterns `a` and `b` compare equal (`==`): neither is
/// NaN and they are the same number (`0.0 == -0.0`).
pub open spec fn f32_bits_float_eq(a: u32, b: u32) -> bool {
    !f32_bits_nan(a) && !f32_bits_nan(b) && f32_bits_order_key(a) == f32_bits_order_key(b)
}

/// The float with bit pattern `a` compares less than (`<`) the one with bit
/// pattern `b`; false whenever either is NaN.
pub open spec fn f32_bits_float_lt(a: u32, b: u32) -> bool {
    !f32_bits_nan(a) && !f32_bits_nan(b) && f32_bits_order_key(a) < f32_bits_order_key(b)
}

fn order_key(b: u32) -> (k: i64)
    ensures
        k == f32_bits_order_key(b),
{
    if b < F32_NEG_ZERO_BITS {
        b as i64
    } else {
        -((b - F32_NEG_ZERO_BITS) as i64)
    }
}

fn is_nan(b: u32) -> (r: bool)
    ensures
        r == f32_bits_nan(b),
{
    (F32_POS_INFINITY_BITS < b && b < F32_NEG_ZERO_BITS) || b > F32_NEG_INFINITY_BITS
}

/// Decides `x == y` for the floats with bit patterns `a` and `b`.
pub fn f32_bits_eq(a: u32, b: u32) -> (r: bool)
    ensures
        r == f32_bits_float_eq(a, b),
{
    !is_nan(a) && !is_nan(b) && order_key(a) == order_key(b)
}

/// Decides `x < y` for the floats with bit patterns `a` and `b`.
pub fn f32_bits_lt(a: u32, b: u32) -> (r: bool)
    ensures
        r == f32_bits_float_lt(a, b),
{
    !is_nan(a) && !is_nan(b) && order_key(a) < order_key(b)
}

} // verus!
