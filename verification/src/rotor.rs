//! The rotor: a scalar part plus a bivector part, representing a 3D
//! rotation in the manner of a unit quaternion.

use vstd::prelude::*;
use crate::scalar::Scalar;
use crate::scalar::spec_add;
use crate::scalar::spec_mul;
use crate::scalar::spec_div;
use crate::scalar::spec_sqrt;
use crate::scalar::spec_gt_zero;
use crate::scalar::ONE_BITS;
use crate::scalar::NAN_BITS;
use crate::bivec::Bivec3;
use crate::vec3::Vec3;

verus! {

/// A rotor: `a` holds the cosine of half the rotation angle, the three
/// bivector coefficients hold the sine of half the angle times the unit
/// bivector of the rotation plane. Only a rotor of unit 4-norm represents
/// a rotation, so every rotor from `from_vecs` is normalized.
#[derive(Clone, Copy, PartialEq, Eq, Structural, Debug)]
pub struct Rot {
    pub a: Scalar,
    pub b01: Scalar,
    pub b02: Scalar,
    pub b12: Scalar,
}

impl Rot {
    /// The sum of the four squared components, summed left to right.
    pub open spec fn spec_norm_squared(self) -> Scalar {
        spec_add(
            spec_add(
                spec_add(spec_mul(self.a, self.a), spec_mul(self.b01, self.b01)),
                spec_mul(self.b02, self.b02),
            ),
            spec_mul(self.b12, self.b12),
        )
    }

    /// The Euclidean 4-norm: the square root of the squared norm.
    pub open spec fn spec_norm(self) -> Scalar {
        spec_sqrt(self.spec_norm_squared())
    }

    /// Every component divided by the 4-norm.
    pub open spec fn spec_normalize(self) -> Rot {
        Rot {
            a: spec_div(self.a, self.spec_norm()),
            b01: spec_div(self.b01, self.spec_norm()),
            b02: spec_div(self.b02, self.spec_norm()),
            b12: spec_div(self.b12, self.spec_norm()),
        }
    }

    /// The four-dimensional dot product of two rotors: a similarity
    /// measure, not the composition of the two rotations.
    pub open spec fn spec_dot(self, val: Rot) -> Scalar {
        spec_add(
            spec_add(
                spec_add(spec_mul(self.a, val.a), spec_mul(self.b01, val.b01)),
                spec_mul(self.b02, val.b02),
            ),
            spec_mul(self.b12, val.b12),
        )
    }

    /// The rotor taking the first vector onto the second, before
    /// normalization: scalar part one plus the dot product, bivector part
    /// the wedge product.
    pub open spec fn spec_from_vecs(from: Vec3, to: Vec3) -> Rot {
        (Rot {
            a: spec_add(Scalar { bits: ONE_BITS }, from.spec_dot(to)),
            b01: Bivec3::spec_wedge(from, to).b01,
            b02: Bivec3::spec_wedge(from, to).b02,
            b12: Bivec3::spec_wedge(from, to).b12,
        }).spec_normalize()
    }

    /// The raw constructor stores the four components as given; it does
    /// not normalize.
    pub fn new(a: Scalar, b01: Scalar, b02: Scalar, b12: Scalar) -> (r: Rot)
        ensures
            r == (Rot { a, b01, b02, b12 }),
    {
        Rot { a, b01, b02, b12 }
    }

    /// The Euclidean 4-norm.
    pub fn norm(self) -> (r: Scalar)
        ensures
            r == self.spec_norm(),
    {
        self.norm_squared().sqrt()
    }

    /// The sum of the four squared components.
    pub fn norm_squared(self) -> (r: Scalar)
        ensures
            r == self.spec_norm_squared(),
    {
        self.a.mul(self.a)
            .add(self.b01.mul(self.b01))
            .add(self.b02.mul(self.b02))
            .add(self.b12.mul(self.b12))
    }

    /// Every component divided by the 4-norm. A zero-norm rotor (such as
    /// the raw rotor of two exactly antiparallel vectors) divides zero by
    /// zero and yields NaN components; callers that want an explicit NaN
    /// result use `normalize_or_nan`.
    pub fn normalize(self) -> (r: Rot)
        ensures
            r == self.spec_normalize(),
    {
        let n = self.norm();
        Rot {
            a: self.a.div(n),
            b01: self.b01.div(n),
            b02: self.b02.div(n),
            b12: self.b12.div(n),
        }
    }

    /// Division by the 4-norm when it is strictly positive; the all-NaN
    /// rotor otherwise.
    pub fn normalize_or_nan(self) -> (r: Rot)
        ensures
            spec_gt_zero(self.spec_norm()) ==> r == self.spec_normalize(),
            !spec_gt_zero(self.spec_norm()) ==> r == (Rot {
                a: Scalar { bits: NAN_BITS },
                b01: Scalar { bits: NAN_BITS },
                b02: Scalar { bits: NAN_BITS },
                b12: Scalar { bits: NAN_BITS },
            }),
    {
        let n = self.norm();
        if n.is_gt_zero() {
            Rot {
                a: self.a.div(n),
                b01: self.b01.div(n),
                b02: self.b02.div(n),
                b12: self.b12.div(n),
            }
        } else {
            Rot {
                a: Scalar { bits: NAN_BITS },
                b01: Scalar { bits: NAN_BITS },
                b02: Scalar { bits: NAN_BITS },
                b12: Scalar { bits: NAN_BITS },
            }
        }
    }

    /// The normalized rotor that rotates `from` onto `to`. When the two
    /// vectors are exactly antiparallel the raw rotor has zero norm and
    /// the normalization yields NaN components: that degenerate input is
    /// inherent to this construction and is not special-cased.
    pub fn from_vecs(from: Vec3, to: Vec3) -> (r: Rot)
        ensures
            r == Rot::spec_from_vecs(from, to),
    {
        let wedge_prod = Bivec3::wedge(from, to);
        (Rot {
            a: Scalar { bits: ONE_BITS }.add(from.dot(to)),
            b01: wedge_prod.b01,
            b02: wedge_prod.b02,
            b12: wedge_prod.b12,
        }).normalize()
    }

    /// The four-dimensional dot product of the two rotors.
    pub fn dot(self, val: Rot) -> (r: Scalar)
        ensures
            r == self.spec_dot(val),
    {
        self.a.mul(val.a)
            .add(self.b01.mul(val.b01))
            .add(self.b02.mul(val.b02))
            .add(self.b12.mul(val.b12))
    }
}

} // verus!
