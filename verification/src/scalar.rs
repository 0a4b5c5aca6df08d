//! Scalars of the matrix library: IEEE 754 binary32 values carried as their
//! raw bit patterns (`u32`).
//!
//! The arithmetic itself is done by `rustc_apfloat`, a software implementation
//! of IEEE 754 whose results depend on the operand bits alone.  Its product
//! and sum are named by the uninterpreted functions [`mul_bits`] and
//! [`add_bits`]; the trusted wrappers below state, in addition, the few
//! identity- and zero-operand facts of IEEE 754 arithmetic that the laws of
//! this library rest on.

use vstd::prelude::*;
use rustc_apfloat::Float;

verus! {

/// Bit pattern of the scalar `1.0`.
pub const ONE_BITS: u32 = 0x3F80_0000;

/// Bit pattern of the scalar `+0.0`.
pub const POS_ZERO: u32 = 0;

/// Bit pattern of the scalar `-0.0`.
pub const NEG_ZERO: u32 = 0x8000_0000;

/// The binary32 product, round to nearest, ties to even.
pub uninterp spec fn mul_bits(a: u32, b: u32) -> u32;

/// The binary32 sum, round to nearest, ties to even.
pub uninterp spec fn add_bits(a: u32, b: u32) -> u32;

/// The bit pattern encodes a finite value (zero, normal or subnormal):
/// its exponent field is not all ones.
pub open spec fn is_finite_bits(a: u32) -> bool {
    (a >> 23) & 0xFF != 0xFF
}

/// The bit pattern encodes a NaN: exponent field all ones, significand
/// field not zero.
pub open spec fn is_nan_bits(a: u32) -> bool {
    (a >> 23) & 0xFF == 0xFF && a & 0x7F_FFFF != 0
}

/// The bit pattern encodes a zero of either sign.
pub open spec fn is_zero_bits(a: u32) -> bool {
    a & 0x7FFF_FFFF == 0
}

/// The sign bit is set.
pub open spec fn sign_bits(a: u32) -> bool {
    a >> 31 == 1
}

/// The two bit patterns encode the same value under IEEE 754 equality,
/// NaN aside: they are the same pattern, or both are zeros.  (`+0.0` and
/// `-0.0` compare equal; every other non-NaN value has one pattern.)
pub open spec fn same_value_bits(a: u32, b: u32) -> bool {
    a == b || (is_zero_bits(a) && is_zero_bits(b))
}

/// Classification of the three named scalar constants.
pub proof fn lemma_zero_bits_consts()
    ensures
        is_zero_bits(POS_ZERO),
        is_zero_bits(NEG_ZERO),
        !is_zero_bits(ONE_BITS),
        !sign_bits(POS_ZERO),
        sign_bits(NEG_ZERO),
        is_finite_bits(POS_ZERO),
        is_finite_bits(NEG_ZERO),
        is_finite_bits(ONE_BITS),
        !is_nan_bits(POS_ZERO),
        !is_nan_bits(NEG_ZERO),
        !is_nan_bits(ONE_BITS),
{
    assert(0u32 & 0x7FFF_FFFF == 0) by (bit_vector);
    assert(0x8000_0000u32 & 0x7FFF_FFFF == 0) by (bit_vector);
    assert(0x3F80_0000u32 & 0x7FFF_FFFF != 0) by (bit_vector);
    assert(0u32 >> 31 == 0) by (bit_vector);
    assert(0x8000_0000u32 >> 31 == 1) by (bit_vector);
    assert((0u32 >> 23) & 0xFF == 0) by (bit_vector);
    assert((0x8000_0000u32 >> 23) & 0xFF == 0) by (bit_vector);
    assert((0x3F80_0000u32 >> 23) & 0xFF == 0x7F) by (bit_vector);
}

/// A zero pattern is `+0.0` or `-0.0`.
pub proof fn lemma_zero_forms(a: u32)
    requires
        is_zero_bits(a),
    ensures
        a == POS_ZERO || a == NEG_ZERO,
{
    assert(a & 0x7FFF_FFFF == 0 ==> a == 0 || a == 0x8000_0000u32) by (bit_vector);
}

/// Relies on `rustc_apfloat::ieee::Single`'s `Mul` (that is, `mul_r` with
/// round to nearest, ties to even): the IEEE 754 binary32 product of the two
/// operand bit patterns.  The result depends on the operands alone.  The
/// stated special cases are the IEEE 754 rules that a finite value times one
/// is itself, that a product with a zero operand (the other being finite) is
/// the zero whose sign is the exclusive or of the operand signs, and that a
/// product of finite operands is never a NaN.
#[verifier::external_body]
pub fn mul_scalar(a: u32, b: u32) -> (r: u32)
    ensures
        r == mul_bits(a, b),
        is_finite_bits(a) && b == ONE_BITS ==> r == a,
        a == ONE_BITS && is_finite_bits(b) ==> r == b,
        is_finite_bits(a) && is_zero_bits(b) ==> r == (if sign_bits(a) == sign_bits(b) {
            POS_ZERO
        } else {
            NEG_ZERO
        }),
        is_zero_bits(a) && is_finite_bits(b) ==> r == (if sign_bits(a) == sign_bits(b) {
            POS_ZERO
        } else {
            NEG_ZERO
        }),
        is_finite_bits(a) && is_finite_bits(b) ==> !is_nan_bits(r),
{
    let x = rustc_apfloat::ieee::Single::from_bits(a as u128);
    let y = rustc_apfloat::ieee::Single::from_bits(b as u128);
    (x * y).value.to_bits() as u32
}

/// Relies on `rustc_apfloat::ieee::Single`'s `Add` (that is, `add_r` with
/// round to nearest, ties to even): the IEEE 754 binary32 sum of the two
/// operand bit patterns.  The result depends on the operands alone.  The
/// stated special cases are the IEEE 754 rules for a zero operand: a zero
/// plus a non-NaN, nonzero value is that value unchanged, and a sum of two
/// zeros is `-0.0` exactly when both operands are `-0.0`, else `+0.0`.
#[verifier::external_body]
pub fn add_scalar(a: u32, b: u32) -> (r: u32)
    ensures
        r == add_bits(a, b),
        is_zero_bits(a) && !is_nan_bits(b) ==> r == (if is_zero_bits(b) {
            if sign_bits(a) && sign_bits(b) {
                NEG_ZERO
            } else {
                POS_ZERO
            }
        } else {
            b
        }),
        is_zero_bits(b) && !is_nan_bits(a) ==> r == (if is_zero_bits(a) {
            if sign_bits(a) && sign_bits(b) {
                NEG_ZERO
            } else {
                POS_ZERO
            }
        } else {
            a
        }),
{
    let x = rustc_apfloat::ieee::Single::from_bits(a as u128);
    let y = rustc_apfloat::ieee::Single::from_bits(b as u128);
    (x + y).value.to_bits() as u32
}

} // verus!
