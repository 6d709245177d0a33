//! IEEE-754 binary32 scalars, carried as raw `u32` bit patterns.
//!
//! A scalar is the bit pattern of an `f32`: sign in bit 31, exponent in bits
//! 30..=23, fraction in bits 22..=0. Spec-level predicates below classify a
//! pattern directly; the arithmetic itself is carried out by a software
//! IEEE-754 implementation behind trusted wrappers. IEEE-754 determines
//! every operation's result exactly from the operand bit patterns, with one
//! exception: the payload of a NaN result is unspecified. The wrappers
//! therefore pin each result down only up to [`float_eq_bits`], which
//! identifies all NaN patterns with one another.

use const_soft_float::soft_f32::SoftF32;
use vstd::prelude::*;

verus! {

/// The bit pattern of `0.0f32`.
pub const POS_ZERO_BITS: u32 = 0x0000_0000;

/// The bit pattern of `-0.0f32`.
pub const NEG_ZERO_BITS: u32 = 0x8000_0000;

/// The bit pattern of `1.0f32`.
pub const ONE_BITS: u32 = 0x3F80_0000;

/// The pattern is a NaN: exponent all ones, fraction nonzero.
pub open spec fn is_nan_bits(b: u32) -> bool {
    b & 0x7F80_0000 == 0x7F80_0000 && b & 0x007F_FFFF != 0
}

/// The pattern is a finite value: exponent not all ones.
pub open spec fn is_finite_bits(b: u32) -> bool {
    b & 0x7F80_0000 != 0x7F80_0000
}

/// The pattern is a zero of either sign.
pub open spec fn is_zero_bits(b: u32) -> bool {
    b == POS_ZERO_BITS || b == NEG_ZERO_BITS
}

/// The pattern is finite and not `-0.0`: the scalars on which the identity
/// matrix acts exactly. An infinite or NaN entry is corrupted by the
/// `0 * inf` products of a multiplication by the identity, and a `-0.0`
/// entry by the `-0.0 + 0.0` sums, which give `0.0`.
pub open spec fn is_regular_bits(b: u32) -> bool {
    is_finite_bits(b) && b != NEG_ZERO_BITS
}

/// Equality of scalars as IEEE-754 pins them down: bit equality, except that
/// any two NaN patterns are identified (their payloads are not specified).
pub open spec fn float_eq_bits(x: u32, y: u32) -> bool {
    x == y || (is_nan_bits(x) && is_nan_bits(y))
}

/// The bit pattern of the IEEE-754 binary32 sum of two patterns.
pub uninterp spec fn add_bits(a: u32, b: u32) -> u32;

/// The bit pattern of the IEEE-754 binary32 difference of two patterns.
pub uninterp spec fn sub_bits(a: u32, b: u32) -> u32;

/// The bit pattern of the IEEE-754 binary32 product of two patterns.
pub uninterp spec fn mul_bits(a: u32, b: u32) -> u32;

/// The bit pattern of the IEEE-754 binary32 quotient of two patterns.
pub uninterp spec fn div_bits(a: u32, b: u32) -> u32;

/// The bit pattern of the IEEE-754 binary32 square root of a pattern.
pub uninterp spec fn sqrt_bits(a: u32) -> u32;

/// Relies on `const_soft_float::soft_f32::SoftF32::add`:
/// IEEE-754 binary32 addition, rounded to nearest even. The result is a
/// function of the operand patterns up to the payload of a NaN result, and
/// is a NaN for one operand order exactly when it is for the other, so both
/// quantified clauses hold. A zero added on either side of a finite value
/// other than `-0.0` returns that value unchanged: the exact sum is then
/// representable, and only `0.0 + -0.0` sums to a differently signed zero.
/// The sum of two zeros is again a zero (of some sign).
#[verifier::external_body]
pub(crate) fn f32_add(a: u32, b: u32) -> (r: u32)
    ensures
        forall|a2: u32, b2: u32|
            float_eq_bits(a, a2) && float_eq_bits(b, b2) ==> float_eq_bits(
                r,
                #[trigger] add_bits(a2, b2),
            ),
        forall|a2: u32, b2: u32|
            float_eq_bits(a, a2) && float_eq_bits(b, b2) ==> float_eq_bits(
                r,
                #[trigger] add_bits(b2, a2),
            ),
        is_finite_bits(a) && a != NEG_ZERO_BITS && is_zero_bits(b) ==> r == a,
        is_zero_bits(a) && is_finite_bits(b) && b != NEG_ZERO_BITS ==> r == b,
        is_zero_bits(a) && is_zero_bits(b) ==> is_zero_bits(r),
{
    SoftF32::from_bits(a).add(SoftF32::from_bits(b)).to_bits()
}

/// Relies on `const_soft_float::soft_f32::SoftF32::sub`:
/// IEEE-754 binary32 subtraction, rounded to nearest even. The result is a
/// function of the operand patterns up to the payload of a NaN result.
#[verifier::external_body]
pub(crate) fn f32_sub(a: u32, b: u32) -> (r: u32)
    ensures
        forall|a2: u32, b2: u32|
            float_eq_bits(a, a2) && float_eq_bits(b, b2) ==> float_eq_bits(
                r,
                #[trigger] sub_bits(a2, b2),
            ),
{
    SoftF32::from_bits(a).sub(SoftF32::from_bits(b)).to_bits()
}

/// Relies on `const_soft_float::soft_f32::SoftF32::mul`:
/// IEEE-754 binary32 multiplication, rounded to nearest even. The result is
/// a function of the operand patterns up to the payload of a NaN result.
/// Multiplying by `1.0` on either side returns the other operand exactly
/// (the exact product is that operand), and multiplying a finite value by a
/// zero of either sign gives a zero (of the XOR of the signs), as does
/// multiplying two zeros.
#[verifier::external_body]
pub(crate) fn f32_mul(a: u32, b: u32) -> (r: u32)
    ensures
        forall|a2: u32, b2: u32|
            float_eq_bits(a, a2) && float_eq_bits(b, b2) ==> float_eq_bits(
                r,
                #[trigger] mul_bits(a2, b2),
            ),
        b == ONE_BITS ==> float_eq_bits(r, a),
        a == ONE_BITS ==> float_eq_bits(r, b),
        is_finite_bits(a) && is_zero_bits(b) ==> is_zero_bits(r),
        is_zero_bits(a) && is_finite_bits(b) ==> is_zero_bits(r),
        is_zero_bits(a) && is_zero_bits(b) ==> is_zero_bits(r),
{
    SoftF32::from_bits(a).mul(SoftF32::from_bits(b)).to_bits()
}

/// Relies on `const_soft_float::soft_f32::SoftF32::div`:
/// IEEE-754 binary32 division, rounded to nearest even. The result is a
/// function of the operand patterns up to the payload of a NaN result.
/// A zero divided by a zero is invalid and gives a NaN.
#[verifier::external_body]
pub(crate) fn f32_div(a: u32, b: u32) -> (r: u32)
    ensures
        forall|a2: u32, b2: u32|
            float_eq_bits(a, a2) && float_eq_bits(b, b2) ==> float_eq_bits(
                r,
                #[trigger] div_bits(a2, b2),
            ),
        is_zero_bits(a) && is_zero_bits(b) ==> is_nan_bits(r),
{
    SoftF32::from_bits(a).div(SoftF32::from_bits(b)).to_bits()
}

/// Relies on `const_soft_float::soft_f32::SoftF32::sqrt` (the musl `sqrtf` port):
/// IEEE-754 binary32 square root, rounded to nearest even. The result is a
/// function of the operand pattern up to the payload of a NaN result.
/// The square root of a zero is that zero.
#[verifier::external_body]
pub(crate) fn f32_sqrt(a: u32) -> (r: u32)
    ensures
        forall|a2: u32| float_eq_bits(a, a2) ==> float_eq_bits(r, #[trigger] sqrt_bits(a2)),
        is_zero_bits(a) ==> is_zero_bits(r),
{
    SoftF32::from_bits(a).sqrt().to_bits()
}

/// The canonical three-term inner product `a0*b0 + a1*b1 + a2*b2`,
/// summed left to right.
pub open spec fn dot3_bits(a0: u32, a1: u32, a2: u32, b0: u32, b1: u32, b2: u32) -> u32 {
    add_bits(add_bits(mul_bits(a0, b0), mul_bits(a1, b1)), mul_bits(a2, b2))
}

/// The three-term inner product every matrix product entry is made of.
///
/// Beyond the canonical result, the contract states the two exact identity
/// laws: against a basis triple (a `1.0` in one slot, zeros elsewhere) the
/// product picks the regular operand's matching slot out unchanged; and the
/// inner product of zero triples is a zero.
pub(crate) fn dot3(a0: u32, a1: u32, a2: u32, b0: u32, b1: u32, b2: u32) -> (r: u32)
    ensures
        float_eq_bits(r, dot3_bits(a0, a1, a2, b0, b1, b2)),
        is_regular_bits(a0) && is_regular_bits(a1) && is_regular_bits(a2) ==> {
            &&& (b0 == ONE_BITS && is_zero_bits(b1) && is_zero_bits(b2) ==> r == a0)
            &&& (is_zero_bits(b0) && b1 == ONE_BITS && is_zero_bits(b2) ==> r == a1)
            &&& (is_zero_bits(b0) && is_zero_bits(b1) && b2 == ONE_BITS ==> r == a2)
        },
        is_regular_bits(b0) && is_regular_bits(b1) && is_regular_bits(b2) ==> {
            &&& (a0 == ONE_BITS && is_zero_bits(a1) && is_zero_bits(a2) ==> r == b0)
            &&& (is_zero_bits(a0) && a1 == ONE_BITS && is_zero_bits(a2) ==> r == b1)
            &&& (is_zero_bits(a0) && is_zero_bits(a1) && a2 == ONE_BITS ==> r == b2)
        },
        is_zero_bits(a0) && is_zero_bits(a1) && is_zero_bits(a2) && is_zero_bits(b0)
            && is_zero_bits(b1) && is_zero_bits(b2) ==> is_zero_bits(r),
{
    let t0 = f32_mul(a0, b0);
    let t1 = f32_mul(a1, b1);
    let t2 = f32_mul(a2, b2);
    let s = f32_add(t0, t1);
    f32_add(s, t2)
}

} // verus!
