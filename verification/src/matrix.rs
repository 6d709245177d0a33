//! 3x3 matrices of IEEE-754 binary32 scalars, addressed by (row, column),
//! row-major, each scalar carried as its `u32` bit pattern.

use crate::scalar::add_bits;
use crate::scalar::dot3;
use crate::scalar::dot3_bits;
use crate::scalar::f32_add;
use crate::scalar::f32_sub;
use crate::scalar::float_eq_bits;
use crate::scalar::is_regular_bits;
use crate::scalar::sub_bits;
use crate::scalar::ONE_BITS;
use crate::scalar::POS_ZERO_BITS;
use vstd::prelude::*;

verus! {

/// A 3x3 matrix. Field `mIJ` is the entry in row `I`, column `J`, as the
/// bit pattern of an `f32`.
#[derive(Clone, Copy, Debug, PartialEq, Eq, Structural)]
pub struct Matrix3x3 {
    pub m00: u32,
    pub m01: u32,
    pub m02: u32,
    pub m10: u32,
    pub m11: u32,
    pub m12: u32,
    pub m20: u32,
    pub m21: u32,
    pub m22: u32,
}

/// The identity matrix: ones on the diagonal, zeros elsewhere.
pub open spec fn identity_spec() -> Matrix3x3 {
    Matrix3x3 {
        m00: ONE_BITS,
        m01: POS_ZERO_BITS,
        m02: POS_ZERO_BITS,
        m10: POS_ZERO_BITS,
        m11: ONE_BITS,
        m12: POS_ZERO_BITS,
        m20: POS_ZERO_BITS,
        m21: POS_ZERO_BITS,
        m22: ONE_BITS,
    }
}

/// Entry (i, j) of the transpose is entry (j, i) of the operand.
pub open spec fn transpose_spec(a: Matrix3x3) -> Matrix3x3 {
    Matrix3x3 {
        m00: a.m00,
        m01: a.m10,
        m02: a.m20,
        m10: a.m01,
        m11: a.m11,
        m12: a.m21,
        m20: a.m02,
        m21: a.m12,
        m22: a.m22,
    }
}

/// The canonical elementwise sum of two matrices.
pub open spec fn mat_add_spec(a: Matrix3x3, b: Matrix3x3) -> Matrix3x3 {
    Matrix3x3 {
        m00: add_bits(a.m00, b.m00),
        m01: add_bits(a.m01, b.m01),
        m02: add_bits(a.m02, b.m02),
        m10: add_bits(a.m10, b.m10),
        m11: add_bits(a.m11, b.m11),
        m12: add_bits(a.m12, b.m12),
        m20: add_bits(a.m20, b.m20),
        m21: add_bits(a.m21, b.m21),
        m22: add_bits(a.m22, b.m22),
    }
}

/// The canonical elementwise difference of two matrices.
pub open spec fn mat_sub_spec(a: Matrix3x3, b: Matrix3x3) -> Matrix3x3 {
    Matrix3x3 {
        m00: sub_bits(a.m00, b.m00),
        m01: sub_bits(a.m01, b.m01),
        m02: sub_bits(a.m02, b.m02),
        m10: sub_bits(a.m10, b.m10),
        m11: sub_bits(a.m11, b.m11),
        m12: sub_bits(a.m12, b.m12),
        m20: sub_bits(a.m20, b.m20),
        m21: sub_bits(a.m21, b.m21),
        m22: sub_bits(a.m22, b.m22),
    }
}

/// The canonical matrix product: entry (i, j) is the inner product of row i
/// of the left operand with column j of the right operand, summed left to
/// right.
pub open spec fn mat_mul_spec(a: Matrix3x3, b: Matrix3x3) -> Matrix3x3 {
    Matrix3x3 {
        m00: dot3_bits(a.m00, a.m01, a.m02, b.m00, b.m10, b.m20),
        m01: dot3_bits(a.m00, a.m01, a.m02, b.m01, b.m11, b.m21),
        m02: dot3_bits(a.m00, a.m01, a.m02, b.m02, b.m12, b.m22),
        m10: dot3_bits(a.m10, a.m11, a.m12, b.m00, b.m10, b.m20),
        m11: dot3_bits(a.m10, a.m11, a.m12, b.m01, b.m11, b.m21),
        m12: dot3_bits(a.m10, a.m11, a.m12, b.m02, b.m12, b.m22),
        m20: dot3_bits(a.m20, a.m21, a.m22, b.m00, b.m10, b.m20),
        m21: dot3_bits(a.m20, a.m21, a.m22, b.m01, b.m11, b.m21),
        m22: dot3_bits(a.m20, a.m21, a.m22, b.m02, b.m12, b.m22),
    }
}

/// Elementwise [`float_eq_bits`]: equality of matrices as IEEE-754 pins
/// them down, identifying NaN payloads.
pub open spec fn mat_float_eq(x: Matrix3x3, y: Matrix3x3) -> bool {
    &&& float_eq_bits(x.m00, y.m00)
    &&& float_eq_bits(x.m01, y.m01)
    &&& float_eq_bits(x.m02, y.m02)
    &&& float_eq_bits(x.m10, y.m10)
    &&& float_eq_bits(x.m11, y.m11)
    &&& float_eq_bits(x.m12, y.m12)
    &&& float_eq_bits(x.m20, y.m20)
    &&& float_eq_bits(x.m21, y.m21)
    &&& float_eq_bits(x.m22, y.m22)
}

/// Every entry is finite and not `-0.0`: the matrices the identity matrix
/// maps to themselves exactly under multiplication.
pub open spec fn mat_regular(a: Matrix3x3) -> bool {
    &&& is_regular_bits(a.m00)
    &&& is_regular_bits(a.m01)
    &&& is_regular_bits(a.m02)
    &&& is_regular_bits(a.m10)
    &&& is_regular_bits(a.m11)
    &&& is_regular_bits(a.m12)
    &&& is_regular_bits(a.m20)
    &&& is_regular_bits(a.m21)
    &&& is_regular_bits(a.m22)
}

/// Construction of the multiplicative unit: the identity matrix.
pub trait Unit: Sized {
    fn unit() -> Self;
}

impl Unit for Matrix3x3 {
    /// The identity matrix: diagonal `1.0`, all other entries `0.0`.
    fn unit() -> (r: Self)
        ensures
            r == identity_spec(),
    {
        Matrix3x3 {
            m00: ONE_BITS,
            m01: POS_ZERO_BITS,
            m02: POS_ZERO_BITS,
            m10: POS_ZERO_BITS,
            m11: ONE_BITS,
            m12: POS_ZERO_BITS,
            m20: POS_ZERO_BITS,
            m21: POS_ZERO_BITS,
            m22: ONE_BITS,
        }
    }
}

/// Elementwise matrix addition.
pub trait MatrixAdd: Sized {
    fn add(&self, rhs: &Self) -> Self;
}

impl MatrixAdd for Matrix3x3 {
    /// The elementwise sum. Stated for both operand orders: IEEE-754
    /// addition is commutative, so the two canonical sums agree wherever
    /// they are not NaN.
    fn add(&self, rhs: &Self) -> (r: Self)
        ensures
            mat_float_eq(r, mat_add_spec(*self, *rhs)),
            mat_float_eq(r, mat_add_spec(*rhs, *self)),
    {
        Matrix3x3 {
            m00: f32_add(self.m00, rhs.m00),
            m01: f32_add(self.m01, rhs.m01),
            m02: f32_add(self.m02, rhs.m02),
            m10: f32_add(self.m10, rhs.m10),
            m11: f32_add(self.m11, rhs.m11),
            m12: f32_add(self.m12, rhs.m12),
            m20: f32_add(self.m20, rhs.m20),
            m21: f32_add(self.m21, rhs.m21),
            m22: f32_add(self.m22, rhs.m22),
        }
    }
}

/// Elementwise matrix subtraction.
pub trait MatrixSub: Sized {
    fn sub(&self, rhs: &Self) -> Self;
}

impl MatrixSub for Matrix3x3 {
    /// The elementwise difference.
    fn sub(&self, rhs: &Self) -> (r: Self)
        ensures
            mat_float_eq(r, mat_sub_spec(*self, *rhs)),
    {
        Matrix3x3 {
            m00: f32_sub(self.m00, rhs.m00),
            m01: f32_sub(self.m01, rhs.m01),
            m02: f32_sub(self.m02, rhs.m02),
            m10: f32_sub(self.m10, rhs.m10),
            m11: f32_sub(self.m11, rhs.m11),
            m12: f32_sub(self.m12, rhs.m12),
            m20: f32_sub(self.m20, rhs.m20),
            m21: f32_sub(self.m21, rhs.m21),
            m22: f32_sub(self.m22, rhs.m22),
        }
    }
}

/// Multiplication by a matrix, for any right-hand operand it is defined on.
pub trait MatrixMul<Rhs> {
    type Output;

    fn mul(&self, rhs: &Rhs) -> Self::Output;
}

impl MatrixMul<Matrix3x3> for Matrix3x3 {
    type Output = Matrix3x3;

    /// The standard matrix product. Multiplying a matrix whose entries are
    /// all finite and not `-0.0` by the identity, on either side, gives
    /// that matrix back exactly.
    fn mul(&self, rhs: &Matrix3x3) -> (r: Matrix3x3)
        ensures
            mat_float_eq(r, mat_mul_spec(*self, *rhs)),
            *rhs == identity_spec() && mat_regular(*self) ==> r == *self,
            *self == identity_spec() && mat_regular(*rhs) ==> r == *rhs,
    {
        Matrix3x3 {
            m00: dot3(self.m00, self.m01, self.m02, rhs.m00, rhs.m10, rhs.m20),
            m01: dot3(self.m00, self.m01, self.m02, rhs.m01, rhs.m11, rhs.m21),
            m02: dot3(self.m00, self.m01, self.m02, rhs.m02, rhs.m12, rhs.m22),
            m10: dot3(self.m10, self.m11, self.m12, rhs.m00, rhs.m10, rhs.m20),
            m11: dot3(self.m10, self.m11, self.m12, rhs.m01, rhs.m11, rhs.m21),
            m12: dot3(self.m10, self.m11, self.m12, rhs.m02, rhs.m12, rhs.m22),
            m20: dot3(self.m20, self.m21, self.m22, rhs.m00, rhs.m10, rhs.m20),
            m21: dot3(self.m20, self.m21, self.m22, rhs.m01, rhs.m11, rhs.m21),
            m22: dot3(self.m20, self.m21, self.m22, rhs.m02, rhs.m12, rhs.m22),
        }
    }
}

/// Transposition: swapping rows and columns.
pub trait Transpose {
    type Output;

    fn transpose(&self) -> Self::Output;
}

impl Transpose for Matrix3x3 {
    type Output = Matrix3x3;

    /// The exact transpose: transposition only permutes entries and
    /// performs no arithmetic.
    fn transpose(&self) -> (r: Matrix3x3)
        ensures
            r == transpose_spec(*self),
    {
        Matrix3x3 {
            m00: self.m00,
            m01: self.m10,
            m02: self.m20,
            m10: self.m01,
            m11: self.m11,
            m12: self.m21,
            m20: self.m02,
            m21: self.m12,
            m22: self.m22,
        }
    }
}

/// Transposing twice gives back the matrix it started from, exactly:
/// transposition only permutes entries, so no rounding can enter.
pub proof fn lemma_transpose_involution(a: Matrix3x3)
    ensures
        transpose_spec(transpose_spec(a)) == a,
{
}

} // verus!
