//! Arithmetic on IEEE-754 bit patterns. The library carries every sample
//! as the thirty-two-bit pattern of a single-precision value and every
//! synthesis parameter as the sixty-four-bit pattern of a
//! double-precision value; the arithmetic on those patterns is done by
//! the rustc_apfloat software implementation of IEEE-754, whose results
//! are a function of the operand patterns alone, the same in every
//! process and on every machine. Each operation's result is named by an
//! uninterpreted spec function, and one trusted wrapper per operation
//! ties the name to the call.

use vstd::prelude::*;

use rustc_apfloat::ieee::Double;
use rustc_apfloat::ieee::Single;
use rustc_apfloat::Float;
use rustc_apfloat::FloatConvert;
use rustc_apfloat::Round;

verus! {

/// The single-precision sum of two bit patterns, rounded to nearest.
pub uninterp spec fn single_add(a: u32, b: u32) -> u32;

/// The single-precision difference of two bit patterns, rounded to nearest.
pub uninterp spec fn single_sub(a: u32, b: u32) -> u32;

/// The single-precision product of two bit patterns, rounded to nearest.
pub uninterp spec fn single_mul(a: u32, b: u32) -> u32;

/// Whether the single-precision value of `a` orders strictly below that
/// of `b`.
pub uninterp spec fn single_lt(a: u32, b: u32) -> bool;

/// The double-precision quotient of two bit patterns, rounded to nearest.
pub uninterp spec fn double_div(a: u64, b: u64) -> u64;

/// The double-precision product of two bit patterns, rounded to nearest.
pub uninterp spec fn double_mul(a: u64, b: u64) -> u64;

/// The double-precision value of a bit pattern rounded to the nearest
/// integer, ties away from zero, clamped to the thirty-two-bit unsigned
/// range.
pub uninterp spec fn double_round_u32(a: u64) -> u32;

/// The double-precision value of a bit pattern rounded toward negative
/// infinity to an integer, clamped to the thirty-two-bit unsigned range.
pub uninterp spec fn double_floor_u32(a: u64) -> u32;

/// The single-precision bit pattern nearest to the double-precision
/// value of `a`.
pub uninterp spec fn double_to_single(a: u64) -> u32;

/// Relies on rustc_apfloat's `Single` addition: IEEE-754 single-precision
/// addition on the operand bit patterns, rounded to nearest, ties to even.
#[verifier::external_body]
pub fn ap_single_add(a: u32, b: u32) -> (r: u32)
    ensures
        r == single_add(a, b),
{
    let x = Single::from_bits(a as u128);
    let y = Single::from_bits(b as u128);
    (x + y).value.to_bits() as u32
}

/// Relies on rustc_apfloat's `Single` subtraction: IEEE-754
/// single-precision subtraction on the operand bit patterns, rounded to
/// nearest, ties to even.
#[verifier::external_body]
pub fn ap_single_sub(a: u32, b: u32) -> (r: u32)
    ensures
        r == single_sub(a, b),
{
    let x = Single::from_bits(a as u128);
    let y = Single::from_bits(b as u128);
    (x - y).value.to_bits() as u32
}

/// Relies on rustc_apfloat's `Single` multiplication: IEEE-754
/// single-precision multiplication on the operand bit patterns, rounded
/// to nearest, ties to even.
#[verifier::external_body]
pub fn ap_single_mul(a: u32, b: u32) -> (r: u32)
    ensures
        r == single_mul(a, b),
{
    let x = Single::from_bits(a as u128);
    let y = Single::from_bits(b as u128);
    (x * y).value.to_bits() as u32
}

/// Relies on rustc_apfloat's `Single` ordering: the IEEE-754 comparison
/// of the values of the operand bit patterns.
#[verifier::external_body]
pub fn ap_single_lt(a: u32, b: u32) -> (r: bool)
    ensures
        r == single_lt(a, b),
{
    let x = Single::from_bits(a as u128);
    let y = Single::from_bits(b as u128);
    x < y
}

/// Relies on rustc_apfloat's `Double` division: IEEE-754 double-precision
/// division on the operand bit patterns, rounded to nearest, ties to even.
#[verifier::external_body]
pub fn ap_double_div(a: u64, b: u64) -> (r: u64)
    ensures
        r == double_div(a, b),
{
    let x = Double::from_bits(a as u128);
    let y = Double::from_bits(b as u128);
    (x / y).value.to_bits() as u64
}

/// Relies on rustc_apfloat's `Double` multiplication: IEEE-754
/// double-precision multiplication on the operand bit patterns, rounded
/// to nearest, ties to even.
#[verifier::external_body]
pub fn ap_double_mul(a: u64, b: u64) -> (r: u64)
    ensures
        r == double_mul(a, b),
{
    let x = Double::from_bits(a as u128);
    let y = Double::from_bits(b as u128);
    (x * y).value.to_bits() as u64
}

/// Relies on rustc_apfloat's `Double::to_u128_r` rounding to the nearest
/// integer, ties away from zero, which clamps values outside the target
/// range to its ends and sends the not-a-number patterns to zero.
#[verifier::external_body]
pub fn ap_double_round_u32(a: u64) -> (r: u32)
    ensures
        r == double_round_u32(a),
{
    let x = Double::from_bits(a as u128);
    let mut exact = false;
    x.to_u128_r(32, Round::NearestTiesToAway, &mut exact).value as u32
}

/// Relies on rustc_apfloat's `Double::to_u128_r` rounding toward negative
/// infinity, which clamps values outside the target range to its ends and
/// sends the not-a-number patterns to zero.
#[verifier::external_body]
pub fn ap_double_floor_u32(a: u64) -> (r: u32)
    ensures
        r == double_floor_u32(a),
{
    let x = Double::from_bits(a as u128);
    let mut exact = false;
    x.to_u128_r(32, Round::TowardNegative, &mut exact).value as u32
}

/// Relies on rustc_apfloat's conversion from `Double` to `Single`:
/// IEEE-754 narrowing, rounded to nearest, ties to even.
#[verifier::external_body]
pub fn ap_double_to_single(a: u64) -> (r: u32)
    ensures
        r == double_to_single(a),
{
    let x = Double::from_bits(a as u128);
    let mut loses_info = false;
    let y: Single = x.convert(&mut loses_info).value;
    y.to_bits() as u32
}

} // verus!
