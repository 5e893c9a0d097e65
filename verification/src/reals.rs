//! Real numbers, stored as IEEE-754 double-precision bit patterns.
//!
//! The machine's `Real` values are carried as the 64 raw bits of a double.
//! Classification (sign, infinity, NaN), truthiness and the machine's total
//! comparison are pure bit arithmetic and are verified here. The four
//! arithmetic operations are performed by an IEEE-754 software implementation
//! from an outside crate; their results are named, not written out.

use vstd::prelude::*;
use core::cmp::Ordering;

verus! {

/// The sign bit of a double-precision bit pattern.
pub const REAL_SIGN_MASK: u64 = 0x8000_0000_0000_0000;

/// All bits of a double-precision pattern except the sign bit.
pub const REAL_ABS_MASK: u64 = 0x7FFF_FFFF_FFFF_FFFF;

/// The bit pattern of positive infinity.
pub const REAL_INFINITY_BITS: u64 = 0x7FF0_0000_0000_0000;

/// The bit pattern of `f64::EPSILON`, the tolerance used when comparing
/// finite reals.
pub const REAL_EPSILON_BITS: u64 = 0x3CB0_0000_0000_0000;

/// The bit pattern with the sign bit cleared: the magnitude of the value.
pub open spec fn real_abs_bits(bits: u64) -> u64 {
    bits & REAL_ABS_MASK
}

/// True if the pattern encodes a NaN (of either sign).
pub open spec fn real_is_nan(bits: u64) -> bool {
    real_abs_bits(bits) > REAL_INFINITY_BITS
}

/// True if the pattern encodes positive or negative infinity.
pub open spec fn real_is_infinite(bits: u64) -> bool {
    real_abs_bits(bits) == REAL_INFINITY_BITS
}

/// True if the pattern encodes a zero, subnormal or normal number.
pub open spec fn real_is_finite(bits: u64) -> bool {
    real_abs_bits(bits) < REAL_INFINITY_BITS
}

/// True if the sign bit is clear. Zeroes, infinities and NaNs all carry a sign.
pub open spec fn real_is_sign_positive(bits: u64) -> bool {
    bits & REAL_SIGN_MASK == 0u64
}

/// The sum of the two doubles encoded by the arguments, as a bit pattern.
pub uninterp spec fn real_add_bits(lhs: u64, rhs: u64) -> u64;

/// The difference of the two doubles encoded by the arguments, as a bit pattern.
pub uninterp spec fn real_sub_bits(lhs: u64, rhs: u64) -> u64;

/// The product of the two doubles encoded by the arguments, as a bit pattern.
pub uninterp spec fn real_mul_bits(lhs: u64, rhs: u64) -> u64;

/// The quotient of the two doubles encoded by the arguments, as a bit pattern.
pub uninterp spec fn real_div_bits(lhs: u64, rhs: u64) -> u64;

/// Relies on rustc_apfloat's IEEE-754 double addition (round to nearest,
/// ties to even); the result depends on the operand bits alone.
#[verifier::external_body]
pub fn real_add(lhs: u64, rhs: u64) -> (r: u64)
    ensures
        r == real_add_bits(lhs, rhs),
{
    let a = <rustc_apfloat::ieee::Double as rustc_apfloat::Float>::from_bits(lhs as u128);
    let b = <rustc_apfloat::ieee::Double as rustc_apfloat::Float>::from_bits(rhs as u128);
    <rustc_apfloat::ieee::Double as rustc_apfloat::Float>::to_bits((a + b).value) as u64
}

/// Relies on rustc_apfloat's IEEE-754 double subtraction (round to nearest,
/// ties to even); the result depends on the operand bits alone.
#[verifier::external_body]
pub fn real_sub(lhs: u64, rhs: u64) -> (r: u64)
    ensures
        r == real_sub_bits(lhs, rhs),
{
    let a = <rustc_apfloat::ieee::Double as rustc_apfloat::Float>::from_bits(lhs as u128);
    let b = <rustc_apfloat::ieee::Double as rustc_apfloat::Float>::from_bits(rhs as u128);
    <rustc_apfloat::ieee::Double as rustc_apfloat::Float>::to_bits((a - b).value) as u64
}

/// Relies on rustc_apfloat's IEEE-754 double multiplication (round to nearest,
/// ties to even); the result depends on the operand bits alone.
#[verifier::external_body]
pub fn real_mul(lhs: u64, rhs: u64) -> (r: u64)
    ensures
        r == real_mul_bits(lhs, rhs),
{
    let a = <rustc_apfloat::ieee::Double as rustc_apfloat::Float>::from_bits(lhs as u128);
    let b = <rustc_apfloat::ieee::Double as rustc_apfloat::Float>::from_bits(rhs as u128);
    <rustc_apfloat::ieee::Double as rustc_apfloat::Float>::to_bits((a * b).value) as u64
}

/// Relies on rustc_apfloat's IEEE-754 double division (round to nearest,
/// ties to even); the result depends on the operand bits alone.
#[verifier::external_body]
pub fn real_div(lhs: u64, rhs: u64) -> (r: u64)
    ensures
        r == real_div_bits(lhs, rhs),
{
    let a = <rustc_apfloat::ieee::Double as rustc_apfloat::Float>::from_bits(lhs as u128);
    let b = <rustc_apfloat::ieee::Double as rustc_apfloat::Float>::from_bits(rhs as u128);
    <rustc_apfloat::ieee::Double as rustc_apfloat::Float>::to_bits((a / b).value) as u64
}

/// Fuzzy equality of two finite reals: the magnitude of their difference is
/// below the tolerance. The difference itself comes from the named
/// subtraction, so this predicate is exact up to that name.
pub open spec fn real_eq_spec(lhs: u64, rhs: u64) -> bool {
    real_abs_bits(real_sub_bits(lhs, rhs)) < REAL_EPSILON_BITS
}

/// Equality over all reals: two NaNs are equal when their signs agree, two
/// infinities when their signs agree, and two finite values when they are
/// fuzzily equal; values of different classes are never equal.
pub open spec fn real_total_eq_spec(lhs: u64, rhs: u64) -> bool {
    if !real_is_nan(lhs) && !real_is_nan(rhs) {
        if !real_is_infinite(lhs) && !real_is_infinite(rhs) {
            real_eq_spec(lhs, rhs)
        } else if real_is_infinite(lhs) && real_is_infinite(rhs) {
            real_is_sign_positive(lhs) == real_is_sign_positive(rhs)
        } else {
            false
        }
    } else if real_is_nan(lhs) && real_is_nan(rhs) {
        real_is_sign_positive(lhs) == real_is_sign_positive(rhs)
    } else {
        false
    }
}

/// Strict order of two finite reals by sign and magnitude. The bit patterns
/// of non-negative doubles order exactly as the values they encode, so a
/// magnitude comparison of the sign-cleared patterns is a value comparison.
pub open spec fn real_finite_lt(lhs: u64, rhs: u64) -> bool {
    let lhs_negative = !real_is_sign_positive(lhs);
    let rhs_negative = !real_is_sign_positive(rhs);
    if lhs_negative != rhs_negative {
        lhs_negative
    } else if !lhs_negative {
        real_abs_bits(lhs) < real_abs_bits(rhs)
    } else {
        real_abs_bits(rhs) < real_abs_bits(lhs)
    }
}

/// The machine's total order over reals:
///
/// - negative infinity
/// - negative real numbers
/// - negative zero
/// - positive zero
/// - positive real numbers
/// - positive infinity
/// - NaN
///
/// Finite values closer to each other than the tolerance compare equal, as do
/// two infinities of the same sign and two NaNs.
pub open spec fn real_total_cmp_spec(lhs: u64, rhs: u64) -> Ordering {
    if !real_is_nan(lhs) && !real_is_nan(rhs) {
        if real_is_finite(lhs) && real_is_finite(rhs) {
            if real_eq_spec(lhs, rhs) {
                Ordering::Equal
            } else if real_finite_lt(lhs, rhs) {
                Ordering::Less
            } else {
                Ordering::Greater
            }
        } else if real_is_infinite(lhs) && real_is_infinite(rhs)
            && real_is_sign_positive(lhs) == real_is_sign_positive(rhs) {
            Ordering::Equal
        } else if (real_is_finite(lhs) && real_is_sign_positive(rhs))
            || (real_is_infinite(lhs) && !real_is_sign_positive(lhs)) {
            Ordering::Less
        } else {
            Ordering::Greater
        }
    } else if real_is_nan(lhs) && real_is_nan(rhs) {
        Ordering::Equal
    } else if real_is_nan(rhs) {
        Ordering::Less
    } else {
        Ordering::Greater
    }
}

/// A real is truthy when its magnitude lies below the tolerance.
pub open spec fn real_is_truthy(bits: u64) -> bool {
    real_abs_bits(bits) < REAL_EPSILON_BITS
}

/// Returns the magnitude of `bits`: the same pattern with the sign bit cleared.
pub fn abs_bits(bits: u64) -> (r: u64)
    ensures
        r == real_abs_bits(bits),
{
    bits & REAL_ABS_MASK
}

/// Returns true if `bits` encodes a NaN.
pub fn is_nan_bits(bits: u64) -> (r: bool)
    ensures
        r == real_is_nan(bits),
{
    (bits & REAL_ABS_MASK) > REAL_INFINITY_BITS
}

/// Returns true if `bits` encodes an infinity.
pub fn is_infinite_bits(bits: u64) -> (r: bool)
    ensures
        r == real_is_infinite(bits),
{
    (bits & REAL_ABS_MASK) == REAL_INFINITY_BITS
}

/// Returns true if the sign bit of `bits` is clear.
pub fn is_sign_positive_bits(bits: u64) -> (r: bool)
    ensures
        r == real_is_sign_positive(bits),
{
    (bits & REAL_SIGN_MASK) == 0
}

/// Returns true if the two finite reals are fuzzily equal: their difference
/// is smaller in magnitude than the tolerance.
pub fn real_eq(lhs: u64, rhs: u64) -> (r: bool)
    ensures
        r == real_eq_spec(lhs, rhs),
{
    let difference = real_sub(lhs, rhs);
    abs_bits(difference) < REAL_EPSILON_BITS
}

/// Returns true if `lhs` and `rhs` are equal under the machine's total
/// equality over reals.
pub fn real_total_eq(lhs: u64, rhs: u64) -> (r: bool)
    ensures
        r == real_total_eq_spec(lhs, rhs),
{
    match (is_nan_bits(lhs), is_nan_bits(rhs)) {
        (false, false) => {
            match (is_infinite_bits(lhs), is_infinite_bits(rhs)) {
                (false, false) => real_eq(lhs, rhs),
                (true, true) => is_sign_positive_bits(lhs) == is_sign_positive_bits(rhs),
                _ => false,
            }
        },
        (true, true) => is_sign_positive_bits(lhs) == is_sign_positive_bits(rhs),
        _ => false,
    }
}

/// Compares two reals under the machine's total order.
pub fn real_total_cmp(lhs: u64, rhs: u64) -> (r: Ordering)
    ensures
        r == real_total_cmp_spec(lhs, rhs),
{
    match (is_nan_bits(lhs), is_nan_bits(rhs)) {
        (false, false) => {
            let lhs_is_infinite = is_infinite_bits(lhs);
            let rhs_is_infinite = is_infinite_bits(rhs);
            let lhs_is_positive = is_sign_positive_bits(lhs);
            let rhs_is_positive = is_sign_positive_bits(rhs);
            if !lhs_is_infinite && !rhs_is_infinite {
                if real_eq(lhs, rhs) {
                    Ordering::Equal
                } else if finite_lt(lhs, rhs) {
                    Ordering::Less
                } else {
                    Ordering::Greater
                }
            } else if lhs_is_infinite && rhs_is_infinite && lhs_is_positive == rhs_is_positive {
                Ordering::Equal
            } else if (!lhs_is_infinite && rhs_is_positive)
                || (lhs_is_infinite && !lhs_is_positive) {
                Ordering::Less
            } else {
                Ordering::Greater
            }
        },
        (true, true) => Ordering::Equal,
        (false, true) => Ordering::Less,
        (true, false) => Ordering::Greater,
    }
}

/// Compares two finite reals strictly, by sign and magnitude.
fn finite_lt(lhs: u64, rhs: u64) -> (r: bool)
    ensures
        r == real_finite_lt(lhs, rhs),
{
    let lhs_negative = !is_sign_positive_bits(lhs);
    let rhs_negative = !is_sign_positive_bits(rhs);
    if lhs_negative != rhs_negative {
        lhs_negative
    } else if !lhs_negative {
        abs_bits(lhs) < abs_bits(rhs)
    } else {
        abs_bits(rhs) < abs_bits(lhs)
    }
}

/// Returns true if the real encoded by `bits` is truthy.
pub fn real_truthy(bits: u64) -> (r: bool)
    ensures
        r == real_is_truthy(bits),
{
    (bits & REAL_ABS_MASK) < REAL_EPSILON_BITS
}

/// Law: the machine's real comparison places the special values in a fixed
/// order, and on every pair in which a NaN or an infinity takes part it is
/// antisymmetric: comparing the operands swapped reverses the answer.
///
/// Same-signed NaNs and infinities compare equal; every NaN sits above
/// everything else; an infinity sits above or below every finite value by
/// its sign. On pairs of finite values the comparison goes through the
/// tolerance against the operands' difference, so its antisymmetry is not
/// claimed here.
pub proof fn lemma_real_order_specials(a: u64, b: u64)
    ensures
        real_is_nan(a) && real_is_nan(b) ==> real_total_cmp_spec(a, b) == Ordering::Equal,
        real_is_nan(a) && !real_is_nan(b) ==> real_total_cmp_spec(a, b) == Ordering::Greater,
        !real_is_nan(a) && real_is_nan(b) ==> real_total_cmp_spec(a, b) == Ordering::Less,
        real_is_infinite(a) && real_is_infinite(b) ==> real_total_cmp_spec(a, b) == (
        if real_is_sign_positive(a) == real_is_sign_positive(b) {
            Ordering::Equal
        } else if real_is_sign_positive(a) {
            Ordering::Greater
        } else {
            Ordering::Less
        }),
        real_is_finite(a) && real_is_infinite(b) ==> real_total_cmp_spec(a, b) == (
        if real_is_sign_positive(b) {
            Ordering::Less
        } else {
            Ordering::Greater
        }),
        real_is_infinite(a) && real_is_finite(b) ==> real_total_cmp_spec(a, b) == (
        if real_is_sign_positive(a) {
            Ordering::Greater
        } else {
            Ordering::Less
        }),
        !(real_is_finite(a) && real_is_finite(b)) ==> {
            &&& real_total_cmp_spec(a, b) == Ordering::Equal <==> real_total_cmp_spec(b, a)
                == Ordering::Equal
            &&& real_total_cmp_spec(a, b) == Ordering::Less <==> real_total_cmp_spec(b, a)
                == Ordering::Greater
        },
{
}

} // verus!
