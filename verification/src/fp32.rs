//! Scalar IEEE 754 single-precision arithmetic on bit patterns.
//!
//! Verified code carries single-precision values as their `u32` bit patterns.
//! The arithmetic itself is delegated to `rustc_apfloat`, a software
//! implementation of IEEE 754 binary32 with round-to-nearest-ties-to-even,
//! the rounding that hardware float units use as well. Each operation is a
//! pure function of its argument bits, so each gets a name that contracts can
//! compose; only sign handling, which is exact bit manipulation, is done
//! directly in verified code.
use vstd::prelude::*;

use rustc_apfloat::ieee::Single;
use rustc_apfloat::Float;

verus! {

/// The bit pattern of positive zero.
pub const F32_ZERO: u32 = 0;

/// The bit pattern of one.
pub const F32_ONE: u32 = 0x3F80_0000;

/// The bit pattern of one half.
pub const F32_HALF: u32 = 0x3F00_0000;

/// The sign bit.
pub const F32_SIGN: u32 = 0x8000_0000;

/// The bit pattern of the machine epsilon, two to the power of minus 23.
pub const F32_EPSILON: u32 = 0x3400_0000;

/// The single-precision sum of the two values encoded in the argument bits.
pub uninterp spec fn add_bits(a: u32, b: u32) -> u32;

/// The single-precision difference of the values encoded in the argument bits.
pub uninterp spec fn sub_bits(a: u32, b: u32) -> u32;

/// The single-precision product of the values encoded in the argument bits.
pub uninterp spec fn mul_bits(a: u32, b: u32) -> u32;

/// The single-precision quotient of the values encoded in the argument bits.
pub uninterp spec fn div_bits(a: u32, b: u32) -> u32;

/// Whether the value encoded in `a` compares less than or equal to the value
/// encoded in `b`; false whenever either is a not-a-number pattern.
pub uninterp spec fn le_bits(a: u32, b: u32) -> bool;

/// The single-precision value nearest to the unsigned integer `i`.
pub uninterp spec fn int_bits(i: u32) -> u32;

/// Negation flips the sign bit and changes nothing else.
pub open spec fn neg_bits(a: u32) -> u32 {
    a ^ 0x8000_0000u32
}

/// The absolute value clears the sign bit and changes nothing else.
pub open spec fn abs_bits(a: u32) -> u32 {
    a & 0x7FFF_FFFFu32
}

/// Relies on rustc_apfloat: IEEE 754 binary32 addition, nearest-even rounding.
#[verifier::external_body]
pub fn f32_add(a: u32, b: u32) -> (r: u32)
    ensures
        r == add_bits(a, b),
{
    (Single::from_bits(a as u128) + Single::from_bits(b as u128)).value.to_bits() as u32
}

/// Relies on rustc_apfloat: IEEE 754 binary32 subtraction, nearest-even rounding.
#[verifier::external_body]
pub fn f32_sub(a: u32, b: u32) -> (r: u32)
    ensures
        r == sub_bits(a, b),
{
    (Single::from_bits(a as u128) - Single::from_bits(b as u128)).value.to_bits() as u32
}

/// Relies on rustc_apfloat: IEEE 754 binary32 multiplication, nearest-even rounding.
#[verifier::external_body]
pub fn f32_mul(a: u32, b: u32) -> (r: u32)
    ensures
        r == mul_bits(a, b),
{
    (Single::from_bits(a as u128) * Single::from_bits(b as u128)).value.to_bits() as u32
}

/// Relies on rustc_apfloat: IEEE 754 binary32 division, nearest-even rounding.
#[verifier::external_body]
pub fn f32_div(a: u32, b: u32) -> (r: u32)
    ensures
        r == div_bits(a, b),
{
    (Single::from_bits(a as u128) / Single::from_bits(b as u128)).value.to_bits() as u32
}

/// Relies on rustc_apfloat: the IEEE 754 ordered comparison, which holds of no
/// not-a-number operand.
#[verifier::external_body]
pub fn f32_le(a: u32, b: u32) -> (r: bool)
    ensures
        r == le_bits(a, b),
{
    Single::from_bits(a as u128) <= Single::from_bits(b as u128)
}

/// Relies on rustc_apfloat: conversion of an unsigned integer to the nearest
/// single-precision value.
#[verifier::external_body]
pub fn f32_int(i: u32) -> (r: u32)
    ensures
        r == int_bits(i),
{
    Single::from_u128(i as u128).value.to_bits() as u32
}

/// Flip the sign bit: exact IEEE 754 negation.
pub fn f32_neg(a: u32) -> (r: u32)
    ensures
        r == neg_bits(a),
{
    a ^ F32_SIGN
}

/// Clear the sign bit: exact IEEE 754 absolute value.
pub fn f32_abs(a: u32) -> (r: u32)
    ensures
        r == abs_bits(a),
{
    a & 0x7FFF_FFFF
}

} // verus!
