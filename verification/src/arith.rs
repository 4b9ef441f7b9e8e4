use vstd::prelude::*;

use rustc_apfloat::Float;

use crate::bits::{
    is_finite_bits, is_infinite_bits, is_nan_bits, is_nonneg_bits, is_zero_bits, ONE_BITS,
    POS_INF_BITS,
};

verus! {

// Scalar IEEE 754 binary32 arithmetic, on bit patterns. Each rounded
// operation is carried out by an outside soft-float implementation behind a
// trusted wrapper; the wrapper's contract names the rounded result and
// states the special cases that IEEE 754 determines exactly.

/// Bit pattern that IEEE 754 binary32 addition, rounded to nearest with
/// ties to even, produces from the operand patterns `a` and `b`.
pub uninterp spec fn add_bits(a: u32, b: u32) -> u32;

/// Relies on `rustc_apfloat::ieee::Single`: its `+` is IEEE 754 binary32
/// addition rounded to nearest, ties to even, a pure function of the two
/// operand patterns. A NaN operand gives a NaN result and two finite
/// operands never give one; two non-NaN operands with clear sign bits give
/// a result with a clear sign bit; the sum of two positive zeros is
/// positive zero; positive infinity plus a non-negative non-NaN operand is
/// positive infinity; and addition is commutative wherever the result is
/// not a NaN.
#[verifier::external_body]
pub(crate) fn add_single(a: u32, b: u32) -> (r: u32)
    ensures
        r == add_bits(a, b),
        !is_nan_bits(r) ==> r == add_bits(b, a),
        is_nan_bits(a) || is_nan_bits(b) ==> is_nan_bits(r),
        is_finite_bits(a) && is_finite_bits(b) ==> !is_nan_bits(r),
        !is_nan_bits(a) && !is_nan_bits(b) && is_nonneg_bits(a) && is_nonneg_bits(b)
            ==> !is_nan_bits(r) && is_nonneg_bits(r),
        !is_nan_bits(b) && is_nonneg_bits(b) && a == POS_INF_BITS ==> r == POS_INF_BITS,
        !is_nan_bits(a) && is_nonneg_bits(a) && b == POS_INF_BITS ==> r == POS_INF_BITS,
        a == 0u32 && b == 0u32 ==> r == 0u32,
{
    let x = rustc_apfloat::ieee::Single::from_bits(a as u128);
    let y = rustc_apfloat::ieee::Single::from_bits(b as u128);
    ((x + y).value.to_bits()) as u32
}

/// Bit pattern that IEEE 754 binary32 subtraction, rounded to nearest with
/// ties to even, produces from the operand patterns `a` and `b`.
pub uninterp spec fn sub_bits(a: u32, b: u32) -> u32;

/// Relies on `rustc_apfloat::ieee::Single`: its `-` is IEEE 754 binary32
/// subtraction rounded to nearest, ties to even, a pure function of the two
/// operand patterns. A NaN operand gives a NaN result and two finite
/// operands never give one.
#[verifier::external_body]
pub(crate) fn sub_single(a: u32, b: u32) -> (r: u32)
    ensures
        r == sub_bits(a, b),
        is_nan_bits(a) || is_nan_bits(b) ==> is_nan_bits(r),
        is_finite_bits(a) && is_finite_bits(b) ==> !is_nan_bits(r),
{
    let x = rustc_apfloat::ieee::Single::from_bits(a as u128);
    let y = rustc_apfloat::ieee::Single::from_bits(b as u128);
    ((x - y).value.to_bits()) as u32
}

/// Bit pattern that IEEE 754 binary32 multiplication, rounded to nearest
/// with ties to even, produces from the operand patterns `a` and `b`.
pub uninterp spec fn mul_bits(a: u32, b: u32) -> u32;

/// Relies on `rustc_apfloat::ieee::Single`: its `*` is IEEE 754 binary32
/// multiplication rounded to nearest, ties to even, a pure function of the
/// two operand patterns. A NaN operand gives a NaN result and two finite
/// operands never give one; a square is never a NaN and never negative, and
/// the square of an infinity is positive infinity; a finite operand times a
/// zero is a zero, and positive zero times positive zero is positive zero;
/// a non-NaN operand times positive one is given back unchanged.
#[verifier::external_body]
pub(crate) fn mul_single(a: u32, b: u32) -> (r: u32)
    ensures
        r == mul_bits(a, b),
        is_nan_bits(a) || is_nan_bits(b) ==> is_nan_bits(r),
        is_finite_bits(a) && is_finite_bits(b) ==> !is_nan_bits(r),
        !is_nan_bits(a) && b == a ==> !is_nan_bits(r) && is_nonneg_bits(r),
        is_infinite_bits(a) && b == a ==> r == POS_INF_BITS,
        is_finite_bits(a) && is_zero_bits(b) ==> is_zero_bits(r),
        is_zero_bits(a) && is_finite_bits(b) ==> is_zero_bits(r),
        !is_nan_bits(a) && b == ONE_BITS ==> r == a,
        a == 0u32 && b == 0u32 ==> r == 0u32,
{
    let x = rustc_apfloat::ieee::Single::from_bits(a as u128);
    let y = rustc_apfloat::ieee::Single::from_bits(b as u128);
    ((x * y).value.to_bits()) as u32
}

/// Bit pattern that IEEE 754 binary32 division, rounded to nearest with
/// ties to even, produces from the operand patterns `a` and `b`.
pub uninterp spec fn div_bits(a: u32, b: u32) -> u32;

/// Relies on `rustc_apfloat::ieee::Single`: its `/` is IEEE 754 binary32
/// division rounded to nearest, ties to even, a pure function of the two
/// operand patterns. A NaN operand gives a NaN result; a finite operand
/// over a finite nonzero operand never gives one; a zero over a zero is a
/// NaN and a nonzero finite operand over a zero is an infinity; a non-NaN
/// operand over positive one is given back unchanged.
#[verifier::external_body]
pub(crate) fn div_single(a: u32, b: u32) -> (r: u32)
    ensures
        r == div_bits(a, b),
        is_nan_bits(a) || is_nan_bits(b) ==> is_nan_bits(r),
        is_finite_bits(a) && is_finite_bits(b) && !is_zero_bits(b) ==> !is_nan_bits(r),
        is_zero_bits(a) && is_zero_bits(b) ==> is_nan_bits(r),
        is_finite_bits(a) && !is_zero_bits(a) && is_zero_bits(b) ==> is_infinite_bits(r),
        !is_nan_bits(a) && b == ONE_BITS ==> r == a,
{
    let x = rustc_apfloat::ieee::Single::from_bits(a as u128);
    let y = rustc_apfloat::ieee::Single::from_bits(b as u128);
    ((x / y).value.to_bits()) as u32
}

/// Bit pattern of the correctly rounded IEEE 754 binary32 square root of
/// the value whose pattern is `a`, defined where that value is a
/// non-negative number or an infinity with clear sign.
pub uninterp spec fn sqrt_bits(a: u32) -> u32;

/// Relies on `libm::sqrtf`: the correctly rounded IEEE 754 binary32 square
/// root, a pure function of the operand pattern wherever the operand is
/// non-negative and not a NaN; there the result is non-negative and not a
/// NaN either. A NaN operand gives a NaN result; the root of positive zero
/// is positive zero and the root of positive infinity is positive
/// infinity. `bytemuck::cast` converts the pattern to the value it encodes,
/// one for one.
#[verifier::external_body]
pub(crate) fn sqrt_single(a: u32) -> (r: u32)
    ensures
        is_nonneg_bits(a) && !is_nan_bits(a)
            ==> r == sqrt_bits(a) && is_nonneg_bits(r) && !is_nan_bits(r),
        is_nan_bits(a) ==> is_nan_bits(r),
        a == 0u32 ==> r == 0u32,
        a == POS_INF_BITS ==> r == POS_INF_BITS,
{
    libm::sqrtf(bytemuck::cast(a)).to_bits()
}

} // verus!
