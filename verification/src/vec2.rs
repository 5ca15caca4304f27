//! Two-component single-precision vectors.

use vstd::prelude::*;
use crate::scalar::Scalar;
use crate::scalar::spec_add;
use crate::scalar::spec_sub;
use crate::scalar::spec_mul;
use crate::scalar::spec_div;
use crate::scalar::spec_sqrt;
use crate::scalar::spec_abs;
use crate::scalar::spec_gt_zero;
use crate::scalar::ZERO_BITS;
use crate::scalar::ONE_BITS;
use crate::scalar::NEG_ONE_BITS;
use crate::scalar::HALF_BITS;
use crate::scalar::NAN_BITS;

verus! {

/// A vector with components along the two coordinate axes.
#[derive(Clone, Copy, PartialEq, Eq, Structural, Debug)]
pub struct Vec2 {
    pub i: Scalar,
    pub j: Scalar,
}

impl Vec2 {
    /// The componentwise sum of two vectors.
    pub open spec fn spec_add(self, val: Vec2) -> Vec2 {
        Vec2 { i: spec_add(self.i, val.i), j: spec_add(self.j, val.j) }
    }

    /// The vector with the scalar added to every component.
    pub open spec fn spec_add_scalar(self, val: Scalar) -> Vec2 {
        Vec2 { i: spec_add(self.i, val), j: spec_add(self.j, val) }
    }

    /// The componentwise difference of two vectors.
    pub open spec fn spec_sub(self, val: Vec2) -> Vec2 {
        Vec2 { i: spec_sub(self.i, val.i), j: spec_sub(self.j, val.j) }
    }

    /// The vector with the scalar subtracted from every component.
    pub open spec fn spec_sub_scalar(self, val: Scalar) -> Vec2 {
        Vec2 { i: spec_sub(self.i, val), j: spec_sub(self.j, val) }
    }

    /// The dot product: the products of matching components, summed left
    /// to right.
    pub open spec fn spec_dot(self, val: Vec2) -> Scalar {
        spec_add(spec_mul(self.i, val.i), spec_mul(self.j, val.j))
    }

    /// The vector with every component multiplied by the scalar.
    pub open spec fn spec_scale(self, val: Scalar) -> Vec2 {
        Vec2 { i: spec_mul(self.i, val), j: spec_mul(self.j, val) }
    }

    /// The vector with every component divided by the scalar.
    pub open spec fn spec_div_scalar(self, val: Scalar) -> Vec2 {
        Vec2 { i: spec_div(self.i, val), j: spec_div(self.j, val) }
    }

    /// The sum of the squared components, summed left to right.
    pub open spec fn spec_norm_squared(self) -> Scalar {
        spec_add(spec_mul(self.i, self.i), spec_mul(self.j, self.j))
    }

    /// The Euclidean length: the square root of the squared norm.
    pub open spec fn spec_norm(self) -> Scalar {
        spec_sqrt(self.spec_norm_squared())
    }

    /// The componentwise absolute value.
    pub open spec fn spec_abs(self) -> Vec2 {
        Vec2 { i: spec_abs(self.i), j: spec_abs(self.j) }
    }

    /// Every component divided by the Euclidean length.
    pub open spec fn spec_normalize(self) -> Vec2 {
        self.spec_div_scalar(self.spec_norm())
    }

    /// The midpoint: the sum scaled by one half.
    pub open spec fn spec_midpoint(self, val: Vec2) -> Vec2 {
        self.spec_add(val).spec_scale(Scalar { bits: HALF_BITS })
    }

    /// Both components of this constructor are stored as given.
    pub fn new(i: Scalar, j: Scalar) -> (r: Vec2)
        ensures
            r == (Vec2 { i, j }),
    {
        Vec2 { i, j }
    }

    /// The zero vector.
    pub fn zero() -> (r: Vec2)
        ensures
            r == Vec2::spec_zero(),
    {
        Vec2 { i: Scalar { bits: ZERO_BITS }, j: Scalar { bits: ZERO_BITS } }
    }

    /// The all-ones vector.
    pub fn one() -> (r: Vec2)
        ensures
            r == Vec2::spec_one(),
    {
        Vec2 { i: Scalar { bits: ONE_BITS }, j: Scalar { bits: ONE_BITS } }
    }

    /// The all-negative-ones vector.
    pub fn one_neg() -> (r: Vec2)
        ensures
            r == Vec2::spec_one_neg(),
    {
        Vec2 { i: Scalar { bits: NEG_ONE_BITS }, j: Scalar { bits: NEG_ONE_BITS } }
    }

    /// The first standard basis vector.
    pub fn unit_i() -> (r: Vec2)
        ensures
            r == Vec2::spec_unit_i(),
    {
        Vec2 { i: Scalar { bits: ONE_BITS }, j: Scalar { bits: ZERO_BITS } }
    }

    /// The second standard basis vector.
    pub fn unit_j() -> (r: Vec2)
        ensures
            r == Vec2::spec_unit_j(),
    {
        Vec2 { i: Scalar { bits: ZERO_BITS }, j: Scalar { bits: ONE_BITS } }
    }

    /// The first standard basis vector, negated.
    pub fn unit_i_neg() -> (r: Vec2)
        ensures
            r == Vec2::spec_unit_i_neg(),
    {
        Vec2 { i: Scalar { bits: NEG_ONE_BITS }, j: Scalar { bits: ZERO_BITS } }
    }

    /// The second standard basis vector, negated.
    pub fn unit_j_neg() -> (r: Vec2)
        ensures
            r == Vec2::spec_unit_j_neg(),
    {
        Vec2 { i: Scalar { bits: ZERO_BITS }, j: Scalar { bits: NEG_ONE_BITS } }
    }

    /// The zero vector, as a spec-level value.
    pub open spec fn spec_zero() -> Vec2 {
        Vec2 { i: Scalar { bits: ZERO_BITS }, j: Scalar { bits: ZERO_BITS } }
    }

    /// The all-ones vector, as a spec-level value.
    pub open spec fn spec_one() -> Vec2 {
        Vec2 { i: Scalar { bits: ONE_BITS }, j: Scalar { bits: ONE_BITS } }
    }

    /// The all-negative-ones vector, as a spec-level value.
    pub open spec fn spec_one_neg() -> Vec2 {
        Vec2 { i: Scalar { bits: NEG_ONE_BITS }, j: Scalar { bits: NEG_ONE_BITS } }
    }

    /// The first standard basis vector, as a spec-level value.
    pub open spec fn spec_unit_i() -> Vec2 {
        Vec2 { i: Scalar { bits: ONE_BITS }, j: Scalar { bits: ZERO_BITS } }
    }

    /// The second standard basis vector, as a spec-level value.
    pub open spec fn spec_unit_j() -> Vec2 {
        Vec2 { i: Scalar { bits: ZERO_BITS }, j: Scalar { bits: ONE_BITS } }
    }

    /// The first standard basis vector negated, as a spec-level value.
    pub open spec fn spec_unit_i_neg() -> Vec2 {
        Vec2 { i: Scalar { bits: NEG_ONE_BITS }, j: Scalar { bits: ZERO_BITS } }
    }

    /// The second standard basis vector negated, as a spec-level value.
    pub open spec fn spec_unit_j_neg() -> Vec2 {
        Vec2 { i: Scalar { bits: ZERO_BITS }, j: Scalar { bits: NEG_ONE_BITS } }
    }

    /// The Euclidean length.
    pub fn norm(self) -> (r: Scalar)
        ensures
            r == self.spec_norm(),
    {
        self.norm_squared().sqrt()
    }

    /// The sum of the squared components; equal to `norm` squared up to
    /// rounding, and exactly the dot product of the vector with itself.
    pub fn norm_squared(self) -> (r: Scalar)
        ensures
            r == self.spec_norm_squared(),
            r == self.spec_dot(self),
    {
        self.i.mul(self.i).add(self.j.mul(self.j))
    }

    /// The componentwise absolute value.
    pub fn abs(self) -> (r: Vec2)
        ensures
            r == self.spec_abs(),
    {
        Vec2 { i: self.i.abs(), j: self.j.abs() }
    }

    /// The distance between the endpoints: exactly the norm of the
    /// difference.
    pub fn dist(self, other: Vec2) -> (r: Scalar)
        ensures
            r == self.spec_sub(other).spec_norm(),
    {
        self.sub(other).norm()
    }

    /// The squared distance: exactly the squared norm of the difference.
    pub fn dist_squared(self, other: Vec2) -> (r: Scalar)
        ensures
            r == self.spec_sub(other).spec_norm_squared(),
    {
        self.sub(other).norm_squared()
    }

    /// Every component divided by the norm. When the norm is zero the
    /// divisions produce NaN or infinity by IEEE-754 division; callers
    /// that want an explicit NaN result use `normalize_or_nan`.
    pub fn normalize(self) -> (r: Vec2)
        ensures
            r == self.spec_normalize(),
    {
        let n = self.norm();
        Vec2 { i: self.i.div(n), j: self.j.div(n) }
    }

    /// Division by the norm when the norm is strictly positive; the
    /// all-NaN vector otherwise (for the zero vector, and for any vector
    /// whose norm comes out NaN).
    pub fn normalize_or_nan(self) -> (r: Vec2)
        ensures
            spec_gt_zero(self.spec_norm()) ==> r == self.spec_normalize(),
            !spec_gt_zero(self.spec_norm()) ==> r == (Vec2 {
                i: Scalar { bits: NAN_BITS },
                j: Scalar { bits: NAN_BITS },
            }),
    {
        let n = self.norm();
        if n.is_gt_zero() {
            Vec2 { i: self.i.div(n), j: self.j.div(n) }
        } else {
            Vec2 { i: Scalar { bits: NAN_BITS }, j: Scalar { bits: NAN_BITS } }
        }
    }

    /// The midpoint of the two endpoints: the sum scaled by one half.
    pub fn midpoint(self, other: Vec2) -> (r: Vec2)
        ensures
            r == self.spec_midpoint(other),
    {
        self.add(other).scale(Scalar { bits: HALF_BITS })
    }

    /// The componentwise sum.
    pub fn add(self, val: Vec2) -> (r: Vec2)
        ensures
            r == self.spec_add(val),
    {
        Vec2 { i: self.i.add(val.i), j: self.j.add(val.j) }
    }

    /// The scalar added to every component.
    pub fn add_scalar(self, val: Scalar) -> (r: Vec2)
        ensures
            r == self.spec_add_scalar(val),
    {
        Vec2 { i: self.i.add(val), j: self.j.add(val) }
    }

    /// The componentwise difference.
    pub fn sub(self, val: Vec2) -> (r: Vec2)
        ensures
            r == self.spec_sub(val),
    {
        Vec2 { i: self.i.sub(val.i), j: self.j.sub(val.j) }
    }

    /// The scalar subtracted from every component.
    pub fn sub_scalar(self, val: Scalar) -> (r: Vec2)
        ensures
            r == self.spec_sub_scalar(val),
    {
        Vec2 { i: self.i.sub(val), j: self.j.sub(val) }
    }

    /// The dot product of the two vectors. This is the inner product;
    /// the library has no componentwise vector product.
    pub fn dot(self, val: Vec2) -> (r: Scalar)
        ensures
            r == self.spec_dot(val),
    {
        self.i.mul(val.i).add(self.j.mul(val.j))
    }

    /// Every component multiplied by the scalar.
    pub fn scale(self, val: Scalar) -> (r: Vec2)
        ensures
            r == self.spec_scale(val),
    {
        Vec2 { i: self.i.mul(val), j: self.j.mul(val) }
    }

    /// Every component divided by the scalar. Division by zero follows
    /// IEEE-754 semantics and is not trapped.
    pub fn div_scalar(self, val: Scalar) -> (r: Vec2)
        ensures
            r == self.spec_div_scalar(val),
    {
        Vec2 { i: self.i.div(val), j: self.j.div(val) }
    }
}

/// The squared norm of a vector is exactly the dot product of the vector
/// with itself: both sum the squared components left to right.
pub proof fn lemma_norm_squared_is_self_dot2(v: Vec2)
    ensures
        v.spec_norm_squared() == v.spec_dot(v),
{
}

} // verus!
