//! Three-component single-precision vectors.

use vstd::prelude::*;
use crate::scalar::Scalar;
use crate::scalar::spec_add;
use crate::scalar::spec_sub;
use crate::scalar::spec_mul;
use crate::scalar::spec_div;
use crate::scalar::spec_sqrt;
use crate::scalar::spec_abs;
use crate::scalar::spec_gt_zero;
use crate::scalar::ZERO_BITS;
use crate::scalar::ONE_BITS;
use crate::scalar::NEG_ONE_BITS;
use crate::scalar::HALF_BITS;
use crate::scalar::NAN_BITS;

verus! {

/// A vector with components along the three coordinate axes.
#[derive(Clone, Copy, PartialEq, Eq, Structural, Debug)]
pub struct Vec3 {
    pub i: Scalar,
    pub j: Scalar,
    pub k: Scalar,
}

impl Vec3 {
    /// The componentwise sum of two vectors.
    pub open spec fn spec_add(self, val: Vec3) -> Vec3 {
        Vec3 { i: spec_add(self.i, val.i), j: spec_add(self.j, val.j), k: spec_add(self.k, val.k) }
    }

    /// The vector with the scalar added to every component.
    pub open spec fn spec_add_scalar(self, val: Scalar) -> Vec3 {
        Vec3 { i: spec_add(self.i, val), j: spec_add(self.j, val), k: spec_add(self.k, val) }
    }

    /// The componentwise difference of two vectors.
    pub open spec fn spec_sub(self, val: Vec3) -> Vec3 {
        Vec3 { i: spec_sub(self.i, val.i), j: spec_sub(self.j, val.j), k: spec_sub(self.k, val.k) }
    }

    /// The vector with the scalar subtracted from every component.
    pub open spec fn spec_sub_scalar(self, val: Scalar) -> Vec3 {
        Vec3 { i: spec_sub(self.i, val), j: spec_sub(self.j, val), k: spec_sub(self.k, val) }
    }

    /// The dot product: the products of matching components, summed left
    /// to right.
    pub open spec fn spec_dot(self, val: Vec3) -> Scalar {
        spec_add(spec_add(spec_mul(self.i, val.i), spec_mul(self.j, val.j)), spec_mul(self.k, val.k))
    }

    /// The vector with every component multiplied by the scalar.
    pub open spec fn spec_scale(self, val: Scalar) -> Vec3 {
        Vec3 { i: spec_mul(self.i, val), j: spec_mul(self.j, val), k: spec_mul(self.k, val) }
    }

    /// The vector with every component divided by the scalar.
    pub open spec fn spec_div_scalar(self, val: Scalar) -> Vec3 {
        Vec3 { i: spec_div(self.i, val), j: spec_div(self.j, val), k: spec_div(self.k, val) }
    }

    /// The sum of the squared components, summed left to right.
    pub open spec fn spec_norm_squared(self) -> Scalar {
        spec_add(spec_add(spec_mul(self.i, self.i), spec_mul(self.j, self.j)), spec_mul(self.k, self.k))
    }

    /// The Euclidean length: the square root of the squared norm.
    pub open spec fn spec_norm(self) -> Scalar {
        spec_sqrt(self.spec_norm_squared())
    }

    /// The componentwise absolute value.
    pub open spec fn spec_abs(self) -> Vec3 {
        Vec3 { i: spec_abs(self.i), j: spec_abs(self.j), k: spec_abs(self.k) }
    }

    /// Every component divided by the Euclidean length.
    pub open spec fn spec_normalize(self) -> Vec3 {
        self.spec_div_scalar(self.spec_norm())
    }

    /// The midpoint: the sum scaled by one half.
    pub open spec fn spec_midpoint(self, val: Vec3) -> Vec3 {
        self.spec_add(val).spec_scale(Scalar { bits: HALF_BITS })
    }

    /// All components of this constructor are stored as given.
    pub fn new(i: Scalar, j: Scalar, k: Scalar) -> (r: Vec3)
        ensures
            r == (Vec3 { i, j, k }),
    {
        Vec3 { i, j, k }
    }

    /// The zero vector.
    pub fn zero() -> (r: Vec3)
        ensures
            r == Vec3::spec_zero(),
    {
        Vec3 { i: Scalar { bits: ZERO_BITS }, j: Scalar { bits: ZERO_BITS }, k: Scalar { bits: ZERO_BITS } }
    }

    /// The all-ones vector.
    pub fn one() -> (r: Vec3)
        ensures
            r == Vec3::spec_one(),
    {
        Vec3 { i: Scalar { bits: ONE_BITS }, j: Scalar { bits: ONE_BITS }, k: Scalar { bits: ONE_BITS } }
    }

    /// The all-negative-ones vector.
    pub fn one_neg() -> (r: Vec3)
        ensures
            r == Vec3::spec_one_neg(),
    {
        Vec3 { i: Scalar { bits: NEG_ONE_BITS }, j: Scalar { bits: NEG_ONE_BITS }, k: Scalar { bits: NEG_ONE_BITS } }
    }

    /// The first standard basis vector.
    pub fn unit_i() -> (r: Vec3)
        ensures
            r == Vec3::spec_unit_i(),
    {
        Vec3 { i: Scalar { bits: ONE_BITS }, j: Scalar { bits: ZERO_BITS }, k: Scalar { bits: ZERO_BITS } }
    }

    /// The first standard basis vector, negated.
    pub fn unit_i_neg() -> (r: Vec3)
        ensures
            r == Vec3::spec_unit_i_neg(),
    {
        Vec3 { i: Scalar { bits: NEG_ONE_BITS }, j: Scalar { bits: ZERO_BITS }, k: Scalar { bits: ZERO_BITS } }
    }

    /// The second standard basis vector.
    pub fn unit_j() -> (r: Vec3)
        ensures
            r == Vec3::spec_unit_j(),
    {
        Vec3 { i: Scalar { bits: ZERO_BITS }, j: Scalar { bits: ONE_BITS }, k: Scalar { bits: ZERO_BITS } }
    }

    /// The second standard basis vector, negated.
    pub fn unit_j_neg() -> (r: Vec3)
        ensures
            r == Vec3::spec_unit_j_neg(),
    {
        Vec3 { i: Scalar { bits: ZERO_BITS }, j: Scalar { bits: NEG_ONE_BITS }, k: Scalar { bits: ZERO_BITS } }
    }

    /// The third standard basis vector.
    pub fn unit_k() -> (r: Vec3)
        ensures
            r == Vec3::spec_unit_k(),
    {
        Vec3 { i: Scalar { bits: ZERO_BITS }, j: Scalar { bits: ZERO_BITS }, k: Scalar { bits: ONE_BITS } }
    }

    /// The third standard basis vector, negated.
    pub fn unit_k_neg() -> (r: Vec3)
        ensures
            r == Vec3::spec_unit_k_neg(),
    {
        Vec3 { i: Scalar { bits: ZERO_BITS }, j: Scalar { bits: ZERO_BITS }, k: Scalar { bits: NEG_ONE_BITS } }
    }

    /// The zero vector, as a spec-level value.
    pub open spec fn spec_zero() -> Vec3 {
        Vec3 { i: Scalar { bits: ZERO_BITS }, j: Scalar { bits: ZERO_BITS }, k: Scalar { bits: ZERO_BITS } }
    }

    /// The all-ones vector, as a spec-level value.
    pub open spec fn spec_one() -> Vec3 {
        Vec3 { i: Scalar { bits: ONE_BITS }, j: Scalar { bits: ONE_BITS }, k: Scalar { bits: ONE_BITS } }
    }

    /// The all-negative-ones vector, as a spec-level value.
    pub open spec fn spec_one_neg() -> Vec3 {
        Vec3 { i: Scalar { bits: NEG_ONE_BITS }, j: Scalar { bits: NEG_ONE_BITS }, k: Scalar { bits: NEG_ONE_BITS } }
    }

    /// The first standard basis vector, as a spec-level value.
    pub open spec fn spec_unit_i() -> Vec3 {
        Vec3 { i: Scalar { bits: ONE_BITS }, j: Scalar { bits: ZERO_BITS }, k: Scalar { bits: ZERO_BITS } }
    }

    /// The first standard basis vector negated, as a spec-level value.
    pub open spec fn spec_unit_i_neg() -> Vec3 {
        Vec3 { i: Scalar { bits: NEG_ONE_BITS }, j: Scalar { bits: ZERO_BITS }, k: Scalar { bits: ZERO_BITS } }
    }

    /// The second standard basis vector, as a spec-level value.
    pub open spec fn spec_unit_j() -> Vec3 {
        Vec3 { i: Scalar { bits: ZERO_BITS }, j: Scalar { bits: ONE_BITS }, k: Scalar { bits: ZERO_BITS } }
    }

    /// The second standard basis vector negated, as a spec-level value.
    pub open spec fn spec_unit_j_neg() -> Vec3 {
        Vec3 { i: Scalar { bits: ZERO_BITS }, j: Scalar { bits: NEG_ONE_BITS }, k: Scalar { bits: ZERO_BITS } }
    }

    /// The third standard basis vector, as a spec-level value.
    pub open spec fn spec_unit_k() -> Vec3 {
        Vec3 { i: Scalar { bits: ZERO_BITS }, j: Scalar { bits: ZERO_BITS }, k: Scalar { bits: ONE_BITS } }
    }

    /// The third standard basis vector negated, as a spec-level value.
    pub open spec fn spec_unit_k_neg() -> Vec3 {
        Vec3 { i: Scalar { bits: ZERO_BITS }, j: Scalar { bits: ZERO_BITS }, k: Scalar { bits: NEG_ONE_BITS } }
    }

    /// The Euclidean length.
    pub fn norm(self) -> (r: Scalar)
        ensures
            r == self.spec_norm(),
    {
        self.norm_squared().sqrt()
    }

    /// The sum of the squared components; equal to `norm` squared up to
    /// rounding, and exactly the dot product of the vector with itself.
    pub fn norm_squared(self) -> (r: Scalar)
        ensures
            r == self.spec_norm_squared(),
            r == self.spec_dot(self),
    {
        self.i.mul(self.i).add(self.j.mul(self.j)).add(self.k.mul(self.k))
    }

    /// The componentwise absolute value.
    pub fn abs(self) -> (r: Vec3)
        ensures
            r == self.spec_abs(),
    {
        Vec3 { i: self.i.abs(), j: self.j.abs(), k: self.k.abs() }
    }

    /// The distance between the endpoints: exactly the norm of the
    /// difference.
    pub fn dist(self, other: Vec3) -> (r: Scalar)
        ensures
            r == self.spec_sub(other).spec_norm(),
    {
        self.sub(other).norm()
    }

    /// The squared distance: exactly the squared norm of the difference.
    pub fn dist_squared(self, other: Vec3) -> (r: Scalar)
        ensures
            r == self.spec_sub(other).spec_norm_squared(),
    {
        self.sub(other).norm_squared()
    }

    /// Every component divided by the norm. When the norm is zero the
    /// divisions produce NaN or infinity by IEEE-754 division; callers
    /// that want an explicit NaN result use `normalize_or_nan`.
    pub fn normalize(self) -> (r: Vec3)
        ensures
            r == self.spec_normalize(),
    {
        let n = self.norm();
        Vec3 { i: self.i.div(n), j: self.j.div(n), k: self.k.div(n) }
    }

    /// Division by the norm when the norm is strictly positive; the
    /// all-NaN vector otherwise (for the zero vector, and for any vector
    /// whose norm comes out NaN).
    pub fn normalize_or_nan(self) -> (r: Vec3)
        ensures
            spec_gt_zero(self.spec_norm()) ==> r == self.spec_normalize(),
            !spec_gt_zero(self.spec_norm()) ==> r == (Vec3 {
                i: Scalar { bits: NAN_BITS },
                j: Scalar { bits: NAN_BITS },
                k: Scalar { bits: NAN_BITS },
            }),
    {
        let n = self.norm();
        if n.is_gt_zero() {
            Vec3 { i: self.i.div(n), j: self.j.div(n), k: self.k.div(n) }
        } else {
            Vec3 { i: Scalar { bits: NAN_BITS }, j: Scalar { bits: NAN_BITS }, k: Scalar { bits: NAN_BITS } }
        }
    }

    /// The midpoint of the two endpoints: the sum scaled by one half.
    pub fn midpoint(self, other: Vec3) -> (r: Vec3)
        ensures
            r == self.spec_midpoint(other),
    {
        self.add(other).scale(Scalar { bits: HALF_BITS })
    }

    /// The componentwise sum.
    pub fn add(self, val: Vec3) -> (r: Vec3)
        ensures
            r == self.spec_add(val),
    {
        Vec3 { i: self.i.add(val.i), j: self.j.add(val.j), k: self.k.add(val.k) }
    }

    /// The scalar added to every component.
    pub fn add_scalar(self, val: Scalar) -> (r: Vec3)
        ensures
            r == self.spec_add_scalar(val),
    {
        Vec3 { i: self.i.add(val), j: self.j.add(val), k: self.k.add(val) }
    }

    /// The componentwise difference.
    pub fn sub(self, val: Vec3) -> (r: Vec3)
        ensures
            r == self.spec_sub(val),
    {
        Vec3 { i: self.i.sub(val.i), j: self.j.sub(val.j), k: self.k.sub(val.k) }
    }

    /// The scalar subtracted from every component.
    pub fn sub_scalar(self, val: Scalar) -> (r: Vec3)
        ensures
            r == self.spec_sub_scalar(val),
    {
        Vec3 { i: self.i.sub(val), j: self.j.sub(val), k: self.k.sub(val) }
    }

    /// The dot product of the two vectors. This is the inner product;
    /// the library has no componentwise vector product.
    pub fn dot(self, val: Vec3) -> (r: Scalar)
        ensures
            r == self.spec_dot(val),
    {
        self.i.mul(val.i).add(self.j.mul(val.j)).add(self.k.mul(val.k))
    }

    /// Every component multiplied by the scalar.
    pub fn scale(self, val: Scalar) -> (r: Vec3)
        ensures
            r == self.spec_scale(val),
    {
        Vec3 { i: self.i.mul(val), j: self.j.mul(val), k: self.k.mul(val) }
    }

    /// Every component divided by the scalar. Division by zero follows
    /// IEEE-754 semantics and is not trapped.
    pub fn div_scalar(self, val: Scalar) -> (r: Vec3)
        ensures
            r == self.spec_div_scalar(val),
    {
        Vec3 { i: self.i.div(val), j: self.j.div(val), k: self.k.div(val) }
    }
}

/// The squared norm of a vector is exactly the dot product of the vector
/// with itself: both sum the squared components left to right.
pub proof fn lemma_norm_squared_is_self_dot3(v: Vec3)
    ensures
        v.spec_norm_squared() == v.spec_dot(v),
{
}

} // verus!
