//! Single-precision scalars as raw bit patterns.
//!
//! Verified code holds each scalar as the `u32` bit pattern of an IEEE 754
//! single-precision value. The three arithmetic operations the trainer needs
//! are performed by `rustc_apfloat`, whose `Single` type works directly on
//! bit patterns; each operation is a pure function of its operands, so its
//! result is given a name that contracts can build on.

use rustc_apfloat::ieee::Single;
use rustc_apfloat::Float;
use vstd::prelude::*;

verus! {

/// Bit pattern of the single-precision value 1.0, the initial bias.
pub const ONE_BITS: u32 = 0x3F80_0000;

/// Bit pattern of the single-precision learning rate 0.0001.
pub const LR_BITS: u32 = 0x38D1_B717;

/// Bit pattern of the single-precision square root of two, the
/// variance-scaling factor applied to the drawn initial weight.
pub const SQRT2_BITS: u32 = 0x3FB5_04F3;

/// The single-precision sum of the two values whose bit patterns are given,
/// as a bit pattern. IEEE 754 addition under round-to-nearest-even is a
/// function of its operands alone.
pub uninterp spec fn f_add(a: u32, b: u32) -> u32;

/// The single-precision difference of the two values whose bit patterns are
/// given, as a bit pattern.
pub uninterp spec fn f_sub(a: u32, b: u32) -> u32;

/// The single-precision product of the two values whose bit patterns are
/// given, as a bit pattern.
pub uninterp spec fn f_mul(a: u32, b: u32) -> u32;

/// Relies on `rustc_apfloat::ieee::Single` addition: IEEE 754
/// single-precision addition, round-to-nearest-even, on bit patterns.
#[verifier::external_body]
pub(crate) fn add_bits(a: u32, b: u32) -> (r: u32)
    ensures
        r == f_add(a, b),
{
    (Single::from_bits(a as u128) + Single::from_bits(b as u128)).value.to_bits() as u32
}

/// Relies on `rustc_apfloat::ieee::Single` subtraction: IEEE 754
/// single-precision subtraction, round-to-nearest-even, on bit patterns.
#[verifier::external_body]
pub(crate) fn sub_bits(a: u32, b: u32) -> (r: u32)
    ensures
        r == f_sub(a, b),
{
    (Single::from_bits(a as u128) - Single::from_bits(b as u128)).value.to_bits() as u32
}

/// Relies on `rustc_apfloat::ieee::Single` multiplication: IEEE 754
/// single-precision multiplication, round-to-nearest-even, on bit patterns.
#[verifier::external_body]
pub(crate) fn mul_bits(a: u32, b: u32) -> (r: u32)
    ensures
        r == f_mul(a, b),
{
    (Single::from_bits(a as u128) * Single::from_bits(b as u128)).value.to_bits() as u32
}

} // verus!
