//! 3-component vectors of IEEE-754 binary32 scalars, each carried as its
//! `u32` bit pattern, and the matrix-on-vector transform.

use crate::matrix::identity_spec;
use crate::matrix::Matrix3x3;
use crate::matrix::MatrixMul;
use crate::scalar::add_bits;
use crate::scalar::div_bits;
use crate::scalar::dot3;
use crate::scalar::dot3_bits;
use crate::scalar::f32_add;
use crate::scalar::f32_div;
use crate::scalar::f32_mul;
use crate::scalar::f32_sqrt;
use crate::scalar::f32_sub;
use crate::scalar::float_eq_bits;
use crate::scalar::is_nan_bits;
use crate::scalar::is_regular_bits;
use crate::scalar::is_zero_bits;
use crate::scalar::mul_bits;
use crate::scalar::sqrt_bits;
use crate::scalar::sub_bits;
use vstd::prelude::*;

verus! {

/// A 3-component vector, each component the bit pattern of an `f32`.
#[derive(Clone, Copy, Debug, PartialEq, Eq, Structural)]
pub struct Vec3 {
    pub x: u32,
    pub y: u32,
    pub z: u32,
}

/// The canonical componentwise sum of two vectors.
pub open spec fn vec_add_spec(v: Vec3, w: Vec3) -> Vec3 {
    Vec3 { x: add_bits(v.x, w.x), y: add_bits(v.y, w.y), z: add_bits(v.z, w.z) }
}

/// The canonical componentwise difference of two vectors.
pub open spec fn vec_sub_spec(v: Vec3, w: Vec3) -> Vec3 {
    Vec3 { x: sub_bits(v.x, w.x), y: sub_bits(v.y, w.y), z: sub_bits(v.z, w.z) }
}

/// The canonical sum of a vector and a scalar, componentwise.
pub open spec fn vec_add_scalar_spec(v: Vec3, s: u32) -> Vec3 {
    Vec3 { x: add_bits(v.x, s), y: add_bits(v.y, s), z: add_bits(v.z, s) }
}

/// The canonical difference of a vector and a scalar, componentwise.
pub open spec fn vec_sub_scalar_spec(v: Vec3, s: u32) -> Vec3 {
    Vec3 { x: sub_bits(v.x, s), y: sub_bits(v.y, s), z: sub_bits(v.z, s) }
}

/// The canonical product of a vector and a scalar, componentwise.
pub open spec fn vec_mul_scalar_spec(v: Vec3, s: u32) -> Vec3 {
    Vec3 { x: mul_bits(v.x, s), y: mul_bits(v.y, s), z: mul_bits(v.z, s) }
}

/// The canonical quotient of a vector and a scalar, componentwise.
pub open spec fn vec_div_scalar_spec(v: Vec3, s: u32) -> Vec3 {
    Vec3 { x: div_bits(v.x, s), y: div_bits(v.y, s), z: div_bits(v.z, s) }
}

/// The canonical Euclidean norm: `sqrt(x*x + y*y + z*z)`, the products
/// summed left to right.
pub open spec fn length_spec(v: Vec3) -> u32 {
    sqrt_bits(dot3_bits(v.x, v.y, v.z, v.x, v.y, v.z))
}

/// The canonical normalization: each component divided by the norm. For
/// the zero vector this divides zero by zero, so every component of the
/// canonical result is NaN; callers who need a direction must test the
/// length first.
pub open spec fn unit_spec(v: Vec3) -> Vec3 {
    vec_div_scalar_spec(v, length_spec(v))
}

/// The canonical linear transform: component i of the result is the inner
/// product of row i of the matrix with the vector.
pub open spec fn mat_vec_mul_spec(a: Matrix3x3, v: Vec3) -> Vec3 {
    Vec3 {
        x: dot3_bits(a.m00, a.m01, a.m02, v.x, v.y, v.z),
        y: dot3_bits(a.m10, a.m11, a.m12, v.x, v.y, v.z),
        z: dot3_bits(a.m20, a.m21, a.m22, v.x, v.y, v.z),
    }
}

/// Componentwise [`float_eq_bits`]: equality of vectors as IEEE-754 pins
/// them down, identifying NaN payloads.
pub open spec fn vec_float_eq(v: Vec3, w: Vec3) -> bool {
    &&& float_eq_bits(v.x, w.x)
    &&& float_eq_bits(v.y, w.y)
    &&& float_eq_bits(v.z, w.z)
}

/// Every component is a zero of either sign.
pub open spec fn vec_zero(v: Vec3) -> bool {
    &&& is_zero_bits(v.x)
    &&& is_zero_bits(v.y)
    &&& is_zero_bits(v.z)
}

/// Every component is finite and not `-0.0`: the vectors the identity
/// matrix maps to themselves exactly.
pub open spec fn vec_regular(v: Vec3) -> bool {
    &&& is_regular_bits(v.x)
    &&& is_regular_bits(v.y)
    &&& is_regular_bits(v.z)
}

/// The operations of a 3-component vector.
pub trait Vector: Sized {
    fn x(&self) -> u32;

    fn y(&self) -> u32;

    fn z(&self) -> u32;

    fn length(&self) -> u32;

    fn unit(&self) -> Self;

    fn add_vec(&self, rhs: &Self) -> Self;

    fn add(&self, rhs: u32) -> Self;

    fn sub_vec(&self, rhs: &Self) -> Self;

    fn sub(&self, rhs: u32) -> Self;

    fn mul(&self, rhs: u32) -> Self;

    fn div(&self, rhs: u32) -> Self;
}

impl Vector for Vec3 {
    /// The first component.
    fn x(&self) -> (r: u32)
        ensures
            r == self.x,
    {
        self.x
    }

    /// The second component.
    fn y(&self) -> (r: u32)
        ensures
            r == self.y,
    {
        self.y
    }

    /// The third component.
    fn z(&self) -> (r: u32)
        ensures
            r == self.z,
    {
        self.z
    }

    /// The Euclidean norm. The norm of a vector of zeros is a zero.
    fn length(&self) -> (r: u32)
        ensures
            float_eq_bits(r, length_spec(*self)),
            vec_zero(*self) ==> is_zero_bits(r),
    {
        let q = dot3(self.x, self.y, self.z, self.x, self.y, self.z);
        f32_sqrt(q)
    }

    /// The vector scaled to norm one: each component divided by the norm.
    /// The norm of the zero vector is zero, so normalizing it divides zero
    /// by zero and every component of the result is NaN; callers must guard
    /// if they need a direction.
    fn unit(&self) -> (r: Self)
        ensures
            vec_float_eq(r, unit_spec(*self)),
            vec_zero(*self) ==> is_nan_bits(r.x) && is_nan_bits(r.y) && is_nan_bits(r.z),
    {
        let q = dot3(self.x, self.y, self.z, self.x, self.y, self.z);
        let l = f32_sqrt(q);
        Vec3 { x: f32_div(self.x, l), y: f32_div(self.y, l), z: f32_div(self.z, l) }
    }

    /// The componentwise sum. Stated for both operand orders: IEEE-754
    /// addition is commutative, so the two canonical sums agree wherever
    /// they are not NaN.
    fn add_vec(&self, rhs: &Self) -> (r: Self)
        ensures
            vec_float_eq(r, vec_add_spec(*self, *rhs)),
            vec_float_eq(r, vec_add_spec(*rhs, *self)),
    {
        Vec3 {
            x: f32_add(self.x, rhs.x),
            y: f32_add(self.y, rhs.y),
            z: f32_add(self.z, rhs.z),
        }
    }

    /// The scalar added to each component.
    fn add(&self, rhs: u32) -> (r: Self)
        ensures
            vec_float_eq(r, vec_add_scalar_spec(*self, rhs)),
    {
        Vec3 {
            x: f32_add(self.x, rhs),
            y: f32_add(self.y, rhs),
            z: f32_add(self.z, rhs),
        }
    }

    /// The componentwise difference.
    fn sub_vec(&self, rhs: &Self) -> (r: Self)
        ensures
            vec_float_eq(r, vec_sub_spec(*self, *rhs)),
    {
        Vec3 {
            x: f32_sub(self.x, rhs.x),
            y: f32_sub(self.y, rhs.y),
            z: f32_sub(self.z, rhs.z),
        }
    }

    /// The scalar subtracted from each component.
    fn sub(&self, rhs: u32) -> (r: Self)
        ensures
            vec_float_eq(r, vec_sub_scalar_spec(*self, rhs)),
    {
        Vec3 {
            x: f32_sub(self.x, rhs),
            y: f32_sub(self.y, rhs),
            z: f32_sub(self.z, rhs),
        }
    }

    /// Each component multiplied by the scalar.
    fn mul(&self, rhs: u32) -> (r: Self)
        ensures
            vec_float_eq(r, vec_mul_scalar_spec(*self, rhs)),
    {
        Vec3 {
            x: f32_mul(self.x, rhs),
            y: f32_mul(self.y, rhs),
            z: f32_mul(self.z, rhs),
        }
    }

    /// Each component divided by the scalar.
    fn div(&self, rhs: u32) -> (r: Self)
        ensures
            vec_float_eq(r, vec_div_scalar_spec(*self, rhs)),
    {
        Vec3 {
            x: f32_div(self.x, rhs),
            y: f32_div(self.y, rhs),
            z: f32_div(self.z, rhs),
        }
    }
}

impl MatrixMul<Vec3> for Matrix3x3 {
    type Output = Vec3;

    /// The linear transform of a vector by a matrix. The identity matrix
    /// maps any vector whose components are finite and not `-0.0` to
    /// itself exactly.
    fn mul(&self, rhs: &Vec3) -> (r: Vec3)
        ensures
            vec_float_eq(r, mat_vec_mul_spec(*self, *rhs)),
            *self == identity_spec() && vec_regular(*rhs) ==> r == *rhs,
    {
        Vec3 {
            x: dot3(self.m00, self.m01, self.m02, rhs.x, rhs.y, rhs.z),
            y: dot3(self.m10, self.m11, self.m12, rhs.x, rhs.y, rhs.z),
            z: dot3(self.m20, self.m21, self.m22, rhs.x, rhs.y, rhs.z),
        }
    }
}

} // verus!
