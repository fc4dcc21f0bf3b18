//! The scalar domain: IEEE 754 binary64 values carried as bit patterns.
//!
//! A sample, a coefficient, a power and a loudness are all binary64 numbers,
//! held in a `u64` as the raw bit pattern. The field layout of binary64
//! (sign, exponent, fraction) is stated here as spec functions, and the
//! ordering of two values is defined exactly over those fields. The
//! arithmetic operations are deterministic functions of the operand bit
//! patterns; each is given a name by an uninterpreted spec function, and a
//! trusted wrapper around an outside crate computes it.

use vstd::prelude::*;
use rustc_apfloat::Float;
use rustc_apfloat::ieee::Double;

verus! {

/// The bit pattern of +0.0: all bits clear.
pub const ZERO_BITS: u64 = 0;

/// Sign field of a binary64 bit pattern: the top bit.
pub open spec fn sign_bits(a: u64) -> u64 {
    a >> 63
}

/// Biased exponent field of a binary64 bit pattern: the next 11 bits.
pub open spec fn exp_bits(a: u64) -> u64 {
    (a >> 52) & 0x7ff
}

/// Fraction field of a binary64 bit pattern: the low 52 bits.
pub open spec fn frac_bits(a: u64) -> u64 {
    a & 0x000f_ffff_ffff_ffff
}

/// The bit pattern with the sign cleared: the value's magnitude.
pub open spec fn mag_bits(a: u64) -> u64 {
    a & 0x7fff_ffff_ffff_ffff
}

/// A NaN: exponent all ones with a nonzero fraction.
pub open spec fn is_nan_bits(a: u64) -> bool {
    exp_bits(a) == 0x7ff && frac_bits(a) != 0
}

/// A finite value: exponent not all ones (neither an infinity nor a NaN).
pub open spec fn is_finite_bits(a: u64) -> bool {
    exp_bits(a) != 0x7ff
}

/// A zero of either sign: magnitude bits all clear.
pub open spec fn is_zero_bits(a: u64) -> bool {
    mag_bits(a) == 0
}

/// IEEE 754 `>` on two binary64 bit patterns. A NaN compares greater than
/// nothing; the two zeros are equal; otherwise the ordering is by sign, then
/// by magnitude (the non-sign bits of same-signed values order them exactly,
/// subnormals and infinities included).
pub open spec fn f64_gt(a: u64, b: u64) -> bool {
    if is_nan_bits(a) || is_nan_bits(b) {
        false
    } else if is_zero_bits(a) && is_zero_bits(b) {
        false
    } else if sign_bits(a) != sign_bits(b) {
        sign_bits(a) == 0
    } else if sign_bits(a) == 0 {
        mag_bits(a) > mag_bits(b)
    } else {
        mag_bits(a) < mag_bits(b)
    }
}

/// IEEE 754 negation: the sign bit flips, every other bit is kept.
pub open spec fn neg_bits(a: u64) -> u64 {
    a ^ 0x8000_0000_0000_0000
}

/// `>` never relates a value to itself: both gate comparisons are strict.
pub proof fn lemma_gt_irreflexive(a: u64)
    ensures
        !f64_gt(a, a),
{
}

/// Negation keeps the exponent field, so it maps finite values to finite
/// values, NaNs to NaNs, and zeros to zeros.
pub proof fn lemma_neg_classifies(a: u64)
    ensures
        is_finite_bits(neg_bits(a)) == is_finite_bits(a),
        is_nan_bits(neg_bits(a)) == is_nan_bits(a),
        is_zero_bits(neg_bits(a)) == is_zero_bits(a),
{
    assert(((a ^ 0x8000_0000_0000_0000) >> 52) & 0x7ff == (a >> 52) & 0x7ff) by (bit_vector);
    assert((a ^ 0x8000_0000_0000_0000) & 0x000f_ffff_ffff_ffff == a & 0x000f_ffff_ffff_ffff)
        by (bit_vector);
    assert(((a ^ 0x8000_0000_0000_0000) & 0x7fff_ffff_ffff_ffff == 0) == (a
        & 0x7fff_ffff_ffff_ffff == 0)) by (bit_vector);
}

/// The all-clear pattern is a zero and is finite.
pub proof fn lemma_zero_bits_zero()
    ensures
        is_zero_bits(ZERO_BITS),
        is_finite_bits(ZERO_BITS),
{
    assert(0u64 & 0x7fff_ffff_ffff_ffff == 0) by (bit_vector);
    assert((0u64 >> 52) & 0x7ff != 0x7ff) by (bit_vector);
}

/// The binary64 sum of the values with bit patterns `a` and `b`, rounded to
/// nearest, ties to even, as a bit pattern.
pub uninterp spec fn add_of(a: u64, b: u64) -> u64;

/// The binary64 difference of the values with bit patterns `a` and `b`.
pub uninterp spec fn sub_of(a: u64, b: u64) -> u64;

/// The binary64 product of the values with bit patterns `a` and `b`.
pub uninterp spec fn mul_of(a: u64, b: u64) -> u64;

/// The binary64 quotient of the values with bit patterns `a` and `b`.
pub uninterp spec fn div_of(a: u64, b: u64) -> u64;

/// The tangent of the value with bit pattern `a`, as a bit pattern.
pub uninterp spec fn tan_of(a: u64) -> u64;

/// The value with bit pattern `a` raised to the value with bit pattern `b`.
pub uninterp spec fn pow_of(a: u64, b: u64) -> u64;

/// The base-10 logarithm of the value with bit pattern `a`.
pub uninterp spec fn log10_of(a: u64) -> u64;

/// The binary64 value nearest to the integer `n`, as a bit pattern.
pub uninterp spec fn f64_of_count(n: usize) -> u64;

/// Negate a value by flipping its sign bit.
pub fn neg64(a: u64) -> (r: u64)
    ensures
        r == neg_bits(a),
{
    a ^ 0x8000_0000_0000_0000
}

/// Relies on rustc_apfloat's binary64 addition (round to nearest, ties to
/// even): a pure function of the two bit patterns, and the sum of two zeros
/// is a zero.
#[verifier::external_body]
pub fn add64(a: u64, b: u64) -> (r: u64)
    ensures
        r == add_of(a, b),
        is_zero_bits(a) && is_zero_bits(b) ==> is_zero_bits(r),
{
    (Double::from_bits(a as u128) + Double::from_bits(b as u128)).value.to_bits() as u64
}

/// Relies on rustc_apfloat's binary64 subtraction (round to nearest, ties to
/// even): a pure function of the two bit patterns.
#[verifier::external_body]
pub fn sub64(a: u64, b: u64) -> (r: u64)
    ensures
        r == sub_of(a, b),
{
    (Double::from_bits(a as u128) - Double::from_bits(b as u128)).value.to_bits() as u64
}

/// Relies on rustc_apfloat's binary64 multiplication (round to nearest, ties
/// to even): a pure function of the two bit patterns, and the product of a
/// zero with a finite value is a zero.
#[verifier::external_body]
pub fn mul64(a: u64, b: u64) -> (r: u64)
    ensures
        r == mul_of(a, b),
        is_zero_bits(a) && is_finite_bits(b) ==> is_zero_bits(r),
        is_finite_bits(a) && is_zero_bits(b) ==> is_zero_bits(r),
{
    (Double::from_bits(a as u128) * Double::from_bits(b as u128)).value.to_bits() as u64
}

/// Relies on rustc_apfloat's binary64 division (round to nearest, ties to
/// even): a pure function of the two bit patterns.
#[verifier::external_body]
pub fn div64(a: u64, b: u64) -> (r: u64)
    ensures
        r == div_of(a, b),
{
    (Double::from_bits(a as u128) / Double::from_bits(b as u128)).value.to_bits() as u64
}

/// Relies on rustc_apfloat's binary64 comparison, which implements the IEEE
/// 754 ordering stated by `f64_gt`: NaNs are unordered, the two zeros are
/// equal, and otherwise sign then magnitude decide.
#[verifier::external_body]
pub fn gt64(a: u64, b: u64) -> (r: bool)
    ensures
        r == f64_gt(a, b),
{
    Double::from_bits(a as u128) > Double::from_bits(b as u128)
}

/// Relies on libm's `tan`, a pure function of the argument bit pattern.
#[verifier::external_body]
pub fn tan64(a: u64) -> (r: u64)
    ensures
        r == tan_of(a),
{
    libm::tan(bytemuck::cast(a)).to_bits()
}

/// Relies on libm's `pow`, a pure function of the argument bit patterns.
#[verifier::external_body]
pub fn pow64(a: u64, b: u64) -> (r: u64)
    ensures
        r == pow_of(a, b),
{
    libm::pow(bytemuck::cast(a), bytemuck::cast(b)).to_bits()
}

/// Relies on libm's `log10`, a pure function of the argument bit pattern.
#[verifier::external_body]
pub fn log10_64(a: u64) -> (r: u64)
    ensures
        r == log10_of(a),
{
    libm::log10(bytemuck::cast(a)).to_bits()
}

/// Relies on rustc_apfloat's integer-to-binary64 conversion (round to
/// nearest, ties to even): a pure function of the count.
#[verifier::external_body]
pub fn count_to_bits(n: usize) -> (r: u64)
    ensures
        r == f64_of_count(n),
{
    Double::from_u128(n as u128).value.to_bits() as u64
}

} // verus!
