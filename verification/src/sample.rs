use vstd::prelude::*;

use rustc_apfloat::Float;
use rustc_apfloat::ieee::Single;

verus! {

/// Bit pattern of the scaling factor one half in IEEE 754 binary32.
///
/// The mid/side splitter applies this factor once, at its own output, so
/// that a later merge needs no scaling at all.
pub const ONE_HALF_BITS: u32 = 0x3F00_0000;

/// Whether a bit pattern encodes an IEEE 754 binary32 NaN: an all-ones
/// exponent with a nonzero significand.
pub open spec fn is_nan_bits(a: u32) -> bool {
    a & 0x7F80_0000 == 0x7F80_0000 && a & 0x007F_FFFF != 0
}

/// Whether a bit pattern encodes an IEEE 754 binary32 zero, of either sign.
pub open spec fn is_zero_bits(a: u32) -> bool {
    a & 0x7FFF_FFFF == 0
}

/// A monotone reordering of non-NaN binary32 bit patterns: negative values
/// are complemented and non-negative ones get the sign bit set, so that the
/// unsigned order of the results is the numeric order of the values.
pub open spec fn order_key_bits(a: u32) -> u32 {
    if a & 0x8000_0000 != 0 {
        !a
    } else {
        a | 0x8000_0000
    }
}

/// IEEE 754 binary32 equality on bit patterns: NaN equals nothing, the two
/// zeros equal each other, and every other value equals exactly itself.
pub open spec fn f32_eq_bits(a: u32, b: u32) -> bool {
    if is_nan_bits(a) || is_nan_bits(b) {
        false
    } else if is_zero_bits(a) && is_zero_bits(b) {
        true
    } else {
        a == b
    }
}

/// IEEE 754 binary32 "less than or equal" on bit patterns: false whenever
/// either operand is NaN, true on any pair of zeros, and otherwise the
/// numeric order of the encoded values.
pub open spec fn f32_le_bits(a: u32, b: u32) -> bool {
    if is_nan_bits(a) || is_nan_bits(b) {
        false
    } else if is_zero_bits(a) && is_zero_bits(b) {
        true
    } else {
        order_key_bits(a) <= order_key_bits(b)
    }
}

/// Decide the IEEE 754 binary32 order of two bit patterns, exactly as
/// `f32_le_bits` states it: a caller that must meet a range precondition
/// tests it through this function.
pub fn sample_le(a: u32, b: u32) -> (r: bool)
    ensures
        r == f32_le_bits(a, b),
{
    let a_nan = a & 0x7F80_0000 == 0x7F80_0000 && a & 0x007F_FFFF != 0;
    let b_nan = b & 0x7F80_0000 == 0x7F80_0000 && b & 0x007F_FFFF != 0;
    if a_nan || b_nan {
        false
    } else if a & 0x7FFF_FFFF == 0 && b & 0x7FFF_FFFF == 0 {
        true
    } else {
        let key_a = if a & 0x8000_0000 != 0 {
            !a
        } else {
            a | 0x8000_0000
        };
        let key_b = if b & 0x8000_0000 != 0 {
            !b
        } else {
            b | 0x8000_0000
        };
        key_a <= key_b
    }
}

/// Name for the IEEE 754 binary32 sum of two samples, both operands and the
/// result taken as raw bit patterns. The rounded sum is a pure function of
/// the two bit patterns.
pub uninterp spec fn add_bits(a: u32, b: u32) -> u32;

/// Name for the IEEE 754 binary32 difference `a - b` on raw bit patterns.
pub uninterp spec fn sub_bits(a: u32, b: u32) -> u32;

/// Name for the IEEE 754 binary32 product `a * b` on raw bit patterns.
pub uninterp spec fn mul_bits(a: u32, b: u32) -> u32;

/// Relies on rustc_apfloat's `Add` for `ieee::Single` (round to nearest,
/// ties to even): the sum is determined by the operand bit patterns alone.
#[verifier::external_body]
pub(crate) fn sample_add(a: u32, b: u32) -> (r: u32)
    ensures
        r == add_bits(a, b),
{
    (Single::from_bits(a as u128) + Single::from_bits(b as u128)).value.to_bits() as u32
}

/// Relies on rustc_apfloat's `Sub` for `ieee::Single` (round to nearest,
/// ties to even): the difference is determined by the operand bit patterns
/// alone.
#[verifier::external_body]
pub(crate) fn sample_sub(a: u32, b: u32) -> (r: u32)
    ensures
        r == sub_bits(a, b),
{
    (Single::from_bits(a as u128) - Single::from_bits(b as u128)).value.to_bits() as u32
}

/// Relies on rustc_apfloat's `Mul` for `ieee::Single` (round to nearest,
/// ties to even): the product is determined by the operand bit patterns
/// alone.
#[verifier::external_body]
pub(crate) fn sample_mul(a: u32, b: u32) -> (r: u32)
    ensures
        r == mul_bits(a, b),
{
    (Single::from_bits(a as u128) * Single::from_bits(b as u128)).value.to_bits() as u32
}

} // verus!
