//! The 3D bivector: an oriented plane element over two vectors.

use vstd::prelude::*;
use crate::scalar::Scalar;
use crate::scalar::spec_sub;
use crate::scalar::spec_mul;
use crate::vec3::Vec3;

verus! {

/// An oriented area element of 3-space: the coefficients of the three
/// basis planes, first axis wedge second (`b01`), first wedge third
/// (`b02`) and second wedge third (`b12`).
#[derive(Clone, Copy, PartialEq, Eq, Structural, Debug)]
pub struct Bivec3 {
    pub b01: Scalar,
    pub b02: Scalar,
    pub b12: Scalar,
}

impl Bivec3 {
    /// The wedge product: each coefficient is the two-by-two minor
    /// determinant of the operands over the matching pair of axes, the
    /// first operand's component always multiplied into the later axis of
    /// the pair first. The rotor construction depends on this exact sign
    /// convention.
    pub open spec fn spec_wedge(u: Vec3, v: Vec3) -> Bivec3 {
        Bivec3 {
            b01: spec_sub(spec_mul(u.i, v.j), spec_mul(u.j, v.i)),
            b02: spec_sub(spec_mul(u.i, v.k), spec_mul(u.k, v.i)),
            b12: spec_sub(spec_mul(u.j, v.k), spec_mul(u.k, v.j)),
        }
    }

    /// The raw constructor stores the three coefficients as given. It is
    /// a low-level escape hatch: bivectors normally come from `wedge`.
    pub fn new(b01: Scalar, b02: Scalar, b12: Scalar) -> (r: Bivec3)
        ensures
            r == (Bivec3 { b01, b02, b12 }),
    {
        Bivec3 { b01, b02, b12 }
    }

    /// The wedge product of two vectors.
    pub fn wedge(u: Vec3, v: Vec3) -> (r: Bivec3)
        ensures
            r == Bivec3::spec_wedge(u, v),
    {
        Bivec3 {
            b01: u.i.mul(v.j).sub(u.j.mul(v.i)),
            b02: u.i.mul(v.k).sub(u.k.mul(v.i)),
            b12: u.j.mul(v.k).sub(u.k.mul(v.j)),
        }
    }
}

} // verus!
