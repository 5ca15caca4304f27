//! Four-by-four single-precision matrices, stored by columns.

use vstd::prelude::*;
use crate::scalar::Scalar;
use crate::scalar::spec_add;
use crate::scalar::spec_sub;
use crate::scalar::spec_mul;
use crate::scalar::spec_div;
use crate::scalar::spec_neg;
use crate::scalar::ZERO_BITS;
use crate::scalar::ONE_BITS;
use crate::scalar::NEG_ONE_BITS;
use crate::scalar::TWO_BITS;
use crate::vec3::Vec3;
use crate::vec4::Vec4;

verus! {

/// A square matrix stored as four columns: entry of
/// mathematical row I and column J is component I of column J.
#[derive(Clone, Copy, PartialEq, Eq, Structural, Debug)]
pub struct Mat4 {
    pub col1: Vec4,
    pub col2: Vec4,
    pub col3: Vec4,
    pub col4: Vec4,
}

impl Mat4 {
    /// The first row, read out of the column storage.
    pub open spec fn spec_row1(self) -> Vec4 {
        Vec4 { i: self.col1.i, j: self.col2.i, k: self.col3.i, l: self.col4.i }
    }
    /// The second row, read out of the column storage.
    pub open spec fn spec_row2(self) -> Vec4 {
        Vec4 { i: self.col1.j, j: self.col2.j, k: self.col3.j, l: self.col4.j }
    }
    /// The third row, read out of the column storage.
    pub open spec fn spec_row3(self) -> Vec4 {
        Vec4 { i: self.col1.k, j: self.col2.k, k: self.col3.k, l: self.col4.k }
    }
    /// The fourth row, read out of the column storage.
    pub open spec fn spec_row4(self) -> Vec4 {
        Vec4 { i: self.col1.l, j: self.col2.l, k: self.col3.l, l: self.col4.l }
    }

    /// The transpose: the rows become the columns.
    pub open spec fn spec_transpose(self) -> Mat4 {
        Mat4 {
            col1: self.spec_row1(),
            col2: self.spec_row2(),
            col3: self.spec_row3(),
            col4: self.spec_row4(),
        }
    }

    /// The identity: the standard basis vectors as columns, in order.
    pub open spec fn spec_identity() -> Mat4 {
        Mat4 {
            col1: Vec4::spec_unit_i(),
            col2: Vec4::spec_unit_j(),
            col3: Vec4::spec_unit_k(),
            col4: Vec4::spec_unit_l(),
        }
    }

    /// The zero matrix: every column the zero vector.
    pub open spec fn spec_zero() -> Mat4 {
        Mat4 {
            col1: Vec4::spec_zero(),
            col2: Vec4::spec_zero(),
            col3: Vec4::spec_zero(),
            col4: Vec4::spec_zero(),
        }
    }

    /// The columnwise sum of two matrices.
    pub open spec fn spec_add(self, mat: Mat4) -> Mat4 {
        Mat4 {
            col1: self.col1.spec_add(mat.col1),
            col2: self.col2.spec_add(mat.col2),
            col3: self.col3.spec_add(mat.col3),
            col4: self.col4.spec_add(mat.col4),
        }
    }

    /// The scalar added to every entry.
    pub open spec fn spec_add_scalar(self, val: Scalar) -> Mat4 {
        Mat4 {
            col1: self.col1.spec_add_scalar(val),
            col2: self.col2.spec_add_scalar(val),
            col3: self.col3.spec_add_scalar(val),
            col4: self.col4.spec_add_scalar(val),
        }
    }

    /// The columnwise difference of two matrices.
    pub open spec fn spec_sub(self, mat: Mat4) -> Mat4 {
        Mat4 {
            col1: self.col1.spec_sub(mat.col1),
            col2: self.col2.spec_sub(mat.col2),
            col3: self.col3.spec_sub(mat.col3),
            col4: self.col4.spec_sub(mat.col4),
        }
    }

    /// The scalar subtracted from every entry.
    pub open spec fn spec_sub_scalar(self, val: Scalar) -> Mat4 {
        Mat4 {
            col1: self.col1.spec_sub_scalar(val),
            col2: self.col2.spec_sub_scalar(val),
            col3: self.col3.spec_sub_scalar(val),
            col4: self.col4.spec_sub_scalar(val),
        }
    }

    /// The matrix-vector product: component I of the result is the dot
    /// product of row I with the vector.
    pub open spec fn spec_mul_vec(self, vec: Vec4) -> Vec4 {
        Vec4 { i: self.spec_row1().spec_dot(vec), j: self.spec_row2().spec_dot(vec), k: self.spec_row3().spec_dot(vec), l: self.spec_row4().spec_dot(vec) }
    }

    /// The matrix-matrix product: column J of the result is the left
    /// matrix applied to column J of the right matrix.
    pub open spec fn spec_mul_mat(self, mat: Mat4) -> Mat4 {
        Mat4 {
            col1: self.spec_mul_vec(mat.col1),
            col2: self.spec_mul_vec(mat.col2),
            col3: self.spec_mul_vec(mat.col3),
            col4: self.spec_mul_vec(mat.col4),
        }
    }

    /// The raw constructor reads its scalars in row-major order and
    /// stores them into the column-major layout.
    pub fn new(
        m00: Scalar, m01: Scalar, m02: Scalar, m03: Scalar,
        m10: Scalar, m11: Scalar, m12: Scalar, m13: Scalar,
        m20: Scalar, m21: Scalar, m22: Scalar, m23: Scalar,
        m30: Scalar, m31: Scalar, m32: Scalar, m33: Scalar,
    ) -> (m: Mat4)
        ensures
            m == (Mat4 {
                col1: Vec4 { i: m00, j: m10, k: m20, l: m30 },
                col2: Vec4 { i: m01, j: m11, k: m21, l: m31 },
                col3: Vec4 { i: m02, j: m12, k: m22, l: m32 },
                col4: Vec4 { i: m03, j: m13, k: m23, l: m33 },
            }),
    {
        Mat4 {
            col1: Vec4 { i: m00, j: m10, k: m20, l: m30 },
            col2: Vec4 { i: m01, j: m11, k: m21, l: m31 },
            col3: Vec4 { i: m02, j: m12, k: m22, l: m32 },
            col4: Vec4 { i: m03, j: m13, k: m23, l: m33 },
        }
    }

    /// The given vectors are stored as the columns, verbatim.
    pub fn from_cols(vec1: Vec4, vec2: Vec4, vec3: Vec4, vec4: Vec4) -> (m: Mat4)
        ensures
            m == (Mat4 {
                col1: vec1,
                col2: vec2,
                col3: vec3,
                col4: vec4,
            }),
    {
        Mat4 {
            col1: vec1,
            col2: vec2,
            col3: vec3,
            col4: vec4,
        }
    }

    /// The given vectors become the rows: the matrix of them as columns,
    /// transposed. The componentwise shuffle makes this the slower,
    /// discouraged path; prefer `from_cols`.
    pub fn from_rows(row1: Vec4, row2: Vec4, row3: Vec4, row4: Vec4) -> (m: Mat4)
        ensures
            m == (Mat4 {
                col1: row1,
                col2: row2,
                col3: row3,
                col4: row4,
            }).spec_transpose(),
    {
        Mat4 {
            col1: Vec4 { i: row1.i, j: row2.i, k: row3.i, l: row4.i },
            col2: Vec4 { i: row1.j, j: row2.j, k: row3.j, l: row4.j },
            col3: Vec4 { i: row1.k, j: row2.k, k: row3.k, l: row4.k },
            col4: Vec4 { i: row1.l, j: row2.l, k: row3.l, l: row4.l },
        }
    }

    /// The identity matrix.
    pub fn identity() -> (m: Mat4)
        ensures
            m == Mat4::spec_identity(),
    {
        Mat4 {
            col1: Vec4::unit_i(),
            col2: Vec4::unit_j(),
            col3: Vec4::unit_k(),
            col4: Vec4::unit_l(),
        }
    }

    /// The zero matrix.
    pub fn zero() -> (m: Mat4)
        ensures
            m == Mat4::spec_zero(),
    {
        Mat4 {
            col1: Vec4::zero(),
            col2: Vec4::zero(),
            col3: Vec4::zero(),
            col4: Vec4::zero(),
        }
    }

    /// The columnwise sum.
    pub fn add(self, mat: Mat4) -> (m: Mat4)
        ensures
            m == self.spec_add(mat),
    {
        Mat4 {
            col1: self.col1.add(mat.col1),
            col2: self.col2.add(mat.col2),
            col3: self.col3.add(mat.col3),
            col4: self.col4.add(mat.col4),
        }
    }

    /// The scalar added to every entry.
    pub fn add_scalar(self, val: Scalar) -> (m: Mat4)
        ensures
            m == self.spec_add_scalar(val),
    {
        Mat4 {
            col1: self.col1.add_scalar(val),
            col2: self.col2.add_scalar(val),
            col3: self.col3.add_scalar(val),
            col4: self.col4.add_scalar(val),
        }
    }

    /// The columnwise difference.
    pub fn sub(self, mat: Mat4) -> (m: Mat4)
        ensures
            m == self.spec_sub(mat),
    {
        Mat4 {
            col1: self.col1.sub(mat.col1),
            col2: self.col2.sub(mat.col2),
            col3: self.col3.sub(mat.col3),
            col4: self.col4.sub(mat.col4),
        }
    }

    /// The scalar subtracted from every entry.
    pub fn sub_scalar(self, val: Scalar) -> (m: Mat4)
        ensures
            m == self.spec_sub_scalar(val),
    {
        Mat4 {
            col1: self.col1.sub_scalar(val),
            col2: self.col2.sub_scalar(val),
            col3: self.col3.sub_scalar(val),
            col4: self.col4.sub_scalar(val),
        }
    }

    /// The matrix-vector product, computed by reading the rows out of the
    /// column storage and taking their dot products with the vector.
    pub fn mul_vec(self, vec: Vec4) -> (r: Vec4)
        ensures
            r == self.spec_mul_vec(vec),
    {
        let row1 = Vec4::new(self.col1.i, self.col2.i, self.col3.i, self.col4.i);
        let row2 = Vec4::new(self.col1.j, self.col2.j, self.col3.j, self.col4.j);
        let row3 = Vec4::new(self.col1.k, self.col2.k, self.col3.k, self.col4.k);
        let row4 = Vec4::new(self.col1.l, self.col2.l, self.col3.l, self.col4.l);
        Vec4::new(row1.dot(vec), row2.dot(vec), row3.dot(vec), row4.dot(vec))
    }

    /// The matrix-matrix product: each column of the right matrix is
    /// transformed by the left matrix.
    pub fn mul_mat(self, mat: Mat4) -> (m: Mat4)
        ensures
            m == self.spec_mul_mat(mat),
    {
        Mat4 {
            col1: self.mul_vec(mat.col1),
            col2: self.mul_vec(mat.col2),
            col3: self.mul_vec(mat.col3),
            col4: self.mul_vec(mat.col4),
        }
    }

    /// A scale, as a spec-level value: the three factors on the leading
    /// diagonal and one in the final homogeneous slot.
    pub open spec fn spec_from_scale(scale: Vec3) -> Mat4 {
        Mat4 {
            col1: Vec4 {
                i: scale.i,
                j: Scalar { bits: ZERO_BITS },
                k: Scalar { bits: ZERO_BITS },
                l: Scalar { bits: ZERO_BITS },
            },
            col2: Vec4 {
                i: Scalar { bits: ZERO_BITS },
                j: scale.j,
                k: Scalar { bits: ZERO_BITS },
                l: Scalar { bits: ZERO_BITS },
            },
            col3: Vec4 {
                i: Scalar { bits: ZERO_BITS },
                j: Scalar { bits: ZERO_BITS },
                k: scale.k,
                l: Scalar { bits: ZERO_BITS },
            },
            col4: Vec4::spec_unit_l(),
        }
    }

    /// A homogeneous translation, as a spec-level value: the identity
    /// with the translation in the leading components of the final
    /// column.
    pub open spec fn spec_from_translation(translation: Vec3) -> Mat4 {
        Mat4 {
            col1: Vec4::spec_unit_i(),
            col2: Vec4::spec_unit_j(),
            col3: Vec4::spec_unit_k(),
            col4: Vec4 {
                i: translation.i,
                j: translation.j,
                k: translation.k,
                l: Scalar { bits: ONE_BITS },
            },
        }
    }

    /// The rotation about the first axis, as a spec-level value, from the
    /// sine and cosine of the angle.
    pub open spec fn spec_from_rotation_i(sin_angle: Scalar, cos_angle: Scalar) -> Mat4 {
        Mat4 {
            col1: Vec4::spec_unit_i(),
            col2: Vec4 {
                i: Scalar { bits: ZERO_BITS },
                j: cos_angle,
                k: sin_angle,
                l: Scalar { bits: ZERO_BITS },
            },
            col3: Vec4 {
                i: Scalar { bits: ZERO_BITS },
                j: spec_neg(sin_angle),
                k: cos_angle,
                l: Scalar { bits: ZERO_BITS },
            },
            col4: Vec4::spec_unit_l(),
        }
    }

    /// The rotation about the second axis, as a spec-level value, from
    /// the sine and cosine of the angle.
    pub open spec fn spec_from_rotation_j(sin_angle: Scalar, cos_angle: Scalar) -> Mat4 {
        Mat4 {
            col1: Vec4 {
                i: cos_angle,
                j: Scalar { bits: ZERO_BITS },
                k: sin_angle,
                l: Scalar { bits: ZERO_BITS },
            },
            col2: Vec4::spec_unit_j(),
            col3: Vec4 {
                i: spec_neg(sin_angle),
                j: Scalar { bits: ZERO_BITS },
                k: cos_angle,
                l: Scalar { bits: ZERO_BITS },
            },
            col4: Vec4::spec_unit_l(),
        }
    }

    /// The rotation about the third axis, as a spec-level value, from the
    /// sine and cosine of the angle.
    pub open spec fn spec_from_rotation_k(sin_angle: Scalar, cos_angle: Scalar) -> Mat4 {
        Mat4 {
            col1: Vec4 {
                i: cos_angle,
                j: sin_angle,
                k: Scalar { bits: ZERO_BITS },
                l: Scalar { bits: ZERO_BITS },
            },
            col2: Vec4 {
                i: spec_neg(sin_angle),
                j: cos_angle,
                k: Scalar { bits: ZERO_BITS },
                l: Scalar { bits: ZERO_BITS },
            },
            col3: Vec4::spec_unit_k(),
            col4: Vec4::spec_unit_l(),
        }
    }

    /// The left-handed orthographic projection, as a spec-level value.
    pub open spec fn spec_orthographic_left(
        l: Scalar, r: Scalar, b: Scalar, t: Scalar, n: Scalar, f: Scalar,
    ) -> Mat4 {
        let one = Scalar { bits: ONE_BITS };
        let two = Scalar { bits: TWO_BITS };
        let zero = Scalar { bits: ZERO_BITS };
        let width_inv = spec_div(one, spec_sub(r, l));
        let height_inv = spec_div(one, spec_sub(t, b));
        let range_inv = spec_div(one, spec_sub(f, n));
        Mat4 {
            col1: Vec4 { i: spec_mul(two, width_inv), j: zero, k: zero, l: zero },
            col2: Vec4 { i: zero, j: spec_mul(two, height_inv), k: zero, l: zero },
            col3: Vec4 { i: zero, j: zero, k: range_inv, l: zero },
            col4: Vec4 {
                i: spec_mul(spec_neg(spec_add(r, l)), width_inv),
                j: spec_mul(spec_neg(spec_add(t, b)), height_inv),
                k: spec_mul(spec_neg(range_inv), n),
                l: one,
            },
        }
    }

    /// The right-handed orthographic projection, as a spec-level value:
    /// the left-handed layout with the depth range inverted.
    pub open spec fn spec_orthographic_right(
        l: Scalar, r: Scalar, b: Scalar, t: Scalar, n: Scalar, f: Scalar,
    ) -> Mat4 {
        let one = Scalar { bits: ONE_BITS };
        let two = Scalar { bits: TWO_BITS };
        let zero = Scalar { bits: ZERO_BITS };
        let width_inv = spec_div(one, spec_sub(r, l));
        let height_inv = spec_div(one, spec_sub(t, b));
        let range_inv = spec_div(one, spec_sub(n, f));
        Mat4 {
            col1: Vec4 { i: spec_mul(two, width_inv), j: zero, k: zero, l: zero },
            col2: Vec4 { i: zero, j: spec_mul(two, height_inv), k: zero, l: zero },
            col3: Vec4 { i: zero, j: zero, k: range_inv, l: zero },
            col4: Vec4 {
                i: spec_mul(spec_neg(spec_add(r, l)), width_inv),
                j: spec_mul(spec_neg(spec_add(t, b)), height_inv),
                k: spec_mul(spec_neg(range_inv), n),
                l: one,
            },
        }
    }

    /// The left-handed perspective projection, as a spec-level value,
    /// from the tangent of half the field of view.
    pub open spec fn spec_perspective_left(
        tan_half_fov: Scalar, aspect_ratio: Scalar, near: Scalar, far: Scalar,
    ) -> Mat4 {
        let one = Scalar { bits: ONE_BITS };
        let zero = Scalar { bits: ZERO_BITS };
        let w = spec_div(one, tan_half_fov);
        let h = spec_mul(w, aspect_ratio);
        let r = spec_div(far, spec_sub(far, near));
        Mat4 {
            col1: Vec4 { i: w, j: zero, k: zero, l: zero },
            col2: Vec4 { i: zero, j: h, k: zero, l: zero },
            col3: Vec4 { i: zero, j: zero, k: r, l: one },
            col4: Vec4 { i: zero, j: zero, k: spec_mul(spec_neg(r), near), l: zero },
        }
    }

    /// The right-handed perspective projection, as a spec-level value:
    /// the left-handed layout with the homogeneous sign and the depth
    /// term flipped.
    pub open spec fn spec_perspective_right(
        tan_half_fov: Scalar, aspect_ratio: Scalar, near: Scalar, far: Scalar,
    ) -> Mat4 {
        let one = Scalar { bits: ONE_BITS };
        let neg_one = Scalar { bits: NEG_ONE_BITS };
        let zero = Scalar { bits: ZERO_BITS };
        let w = spec_div(one, tan_half_fov);
        let h = spec_mul(w, aspect_ratio);
        let r = spec_div(far, spec_sub(far, near));
        Mat4 {
            col1: Vec4 { i: w, j: zero, k: zero, l: zero },
            col2: Vec4 { i: zero, j: h, k: zero, l: zero },
            col3: Vec4 { i: zero, j: zero, k: r, l: neg_one },
            col4: Vec4 { i: zero, j: zero, k: spec_mul(r, near), l: zero },
        }
    }

    /// The left-handed perspective projection with the far plane at
    /// infinity, as a spec-level value.
    pub open spec fn spec_perspective_inf_left(
        tan_half_fov: Scalar, aspect_ratio: Scalar, near: Scalar,
    ) -> Mat4 {
        let one = Scalar { bits: ONE_BITS };
        let zero = Scalar { bits: ZERO_BITS };
        let w = spec_div(one, tan_half_fov);
        let h = spec_mul(w, aspect_ratio);
        Mat4 {
            col1: Vec4 { i: w, j: zero, k: zero, l: zero },
            col2: Vec4 { i: zero, j: h, k: zero, l: zero },
            col3: Vec4 { i: zero, j: zero, k: one, l: one },
            col4: Vec4 { i: zero, j: zero, k: spec_neg(near), l: zero },
        }
    }

    /// The right-handed perspective projection with the far plane at
    /// infinity, as a spec-level value.
    pub open spec fn spec_perspective_inf_right(
        tan_half_fov: Scalar, aspect_ratio: Scalar, near: Scalar,
    ) -> Mat4 {
        let one = Scalar { bits: ONE_BITS };
        let neg_one = Scalar { bits: NEG_ONE_BITS };
        let zero = Scalar { bits: ZERO_BITS };
        let w = spec_div(one, tan_half_fov);
        let h = spec_mul(w, aspect_ratio);
        Mat4 {
            col1: Vec4 { i: w, j: zero, k: zero, l: zero },
            col2: Vec4 { i: zero, j: h, k: zero, l: zero },
            col3: Vec4 { i: zero, j: zero, k: neg_one, l: neg_one },
            col4: Vec4 { i: zero, j: zero, k: spec_neg(near), l: zero },
        }
    }

    /// The matrix scaling the three axes by the given factors and leaving
    /// the homogeneous coordinate unchanged.
    pub fn from_scale(scale: Vec3) -> (m: Mat4)
        ensures
            m == Mat4::spec_from_scale(scale),
    {
        let zero = Scalar { bits: ZERO_BITS };
        Mat4 {
            col1: Vec4 { i: scale.i, j: zero, k: zero, l: zero },
            col2: Vec4 { i: zero, j: scale.j, k: zero, l: zero },
            col3: Vec4 { i: zero, j: zero, k: scale.k, l: zero },
            col4: Vec4::unit_l(),
        }
    }

    /// The homogeneous-coordinate translation by the given vector: the
    /// identity with the translation in the leading components of the
    /// final column.
    pub fn from_translation(translation: Vec3) -> (m: Mat4)
        ensures
            m == Mat4::spec_from_translation(translation),
    {
        Mat4 {
            col1: Vec4::unit_i(),
            col2: Vec4::unit_j(),
            col3: Vec4::unit_k(),
            col4: Vec4 {
                i: translation.i,
                j: translation.j,
                k: translation.k,
                l: Scalar { bits: ONE_BITS },
            },
        }
    }

    /// The rotation about the first axis that leaves that axis fixed and
    /// rotates the other two by the right-hand convention. The sine and
    /// cosine of the angle are taken already evaluated: the trigonometric
    /// functions themselves lie outside this library.
    pub fn from_rotation_i(sin_angle: Scalar, cos_angle: Scalar) -> (m: Mat4)
        ensures
            m == Mat4::spec_from_rotation_i(sin_angle, cos_angle),
    {
        let zero = Scalar { bits: ZERO_BITS };
        Mat4 {
            col1: Vec4::unit_i(),
            col2: Vec4 { i: zero, j: cos_angle, k: sin_angle, l: zero },
            col3: Vec4 { i: zero, j: sin_angle.neg(), k: cos_angle, l: zero },
            col4: Vec4::unit_l(),
        }
    }

    /// The rotation about the second axis, from the sine and cosine of
    /// the angle, as in `from_rotation_i`.
    pub fn from_rotation_j(sin_angle: Scalar, cos_angle: Scalar) -> (m: Mat4)
        ensures
            m == Mat4::spec_from_rotation_j(sin_angle, cos_angle),
    {
        let zero = Scalar { bits: ZERO_BITS };
        Mat4 {
            col1: Vec4 { i: cos_angle, j: zero, k: sin_angle, l: zero },
            col2: Vec4::unit_j(),
            col3: Vec4 { i: sin_angle.neg(), j: zero, k: cos_angle, l: zero },
            col4: Vec4::unit_l(),
        }
    }

    /// The rotation about the third axis, from the sine and cosine of the
    /// angle, as in `from_rotation_i`.
    pub fn from_rotation_k(sin_angle: Scalar, cos_angle: Scalar) -> (m: Mat4)
        ensures
            m == Mat4::spec_from_rotation_k(sin_angle, cos_angle),
    {
        let zero = Scalar { bits: ZERO_BITS };
        Mat4 {
            col1: Vec4 { i: cos_angle, j: sin_angle, k: zero, l: zero },
            col2: Vec4 { i: sin_angle.neg(), j: cos_angle, k: zero, l: zero },
            col3: Vec4::unit_k(),
            col4: Vec4::unit_l(),
        }
    }

    /// The left-handed orthographic projection over the view volume with
    /// the given left, right, bottom, top, near and far bounds, mapping
    /// depth into the zero-to-one range. Degenerate bounds divide by zero
    /// and propagate infinities or NaN untrapped.
    pub fn orthographic_left(
        l: Scalar, r: Scalar, b: Scalar, t: Scalar, n: Scalar, f: Scalar,
    ) -> (m: Mat4)
        ensures
            m == Mat4::spec_orthographic_left(l, r, b, t, n, f),
    {
        let one = Scalar { bits: ONE_BITS };
        let two = Scalar { bits: TWO_BITS };
        let zero = Scalar { bits: ZERO_BITS };
        let width_inv = one.div(r.sub(l));
        let height_inv = one.div(t.sub(b));
        let range_inv = one.div(f.sub(n));
        Mat4 {
            col1: Vec4 { i: two.mul(width_inv), j: zero, k: zero, l: zero },
            col2: Vec4 { i: zero, j: two.mul(height_inv), k: zero, l: zero },
            col3: Vec4 { i: zero, j: zero, k: range_inv, l: zero },
            col4: Vec4 {
                i: r.add(l).neg().mul(width_inv),
                j: t.add(b).neg().mul(height_inv),
                k: range_inv.neg().mul(n),
                l: one,
            },
        }
    }

    /// The right-handed orthographic projection: as the left-handed one
    /// with the depth range inverted.
    pub fn orthographic_right(
        l: Scalar, r: Scalar, b: Scalar, t: Scalar, n: Scalar, f: Scalar,
    ) -> (m: Mat4)
        ensures
            m == Mat4::spec_orthographic_right(l, r, b, t, n, f),
    {
        let one = Scalar { bits: ONE_BITS };
        let two = Scalar { bits: TWO_BITS };
        let zero = Scalar { bits: ZERO_BITS };
        let width_inv = one.div(r.sub(l));
        let height_inv = one.div(t.sub(b));
        let range_inv = one.div(n.sub(f));
        Mat4 {
            col1: Vec4 { i: two.mul(width_inv), j: zero, k: zero, l: zero },
            col2: Vec4 { i: zero, j: two.mul(height_inv), k: zero, l: zero },
            col3: Vec4 { i: zero, j: zero, k: range_inv, l: zero },
            col4: Vec4 {
                i: r.add(l).neg().mul(width_inv),
                j: t.add(b).neg().mul(height_inv),
                k: range_inv.neg().mul(n),
                l: one,
            },
        }
    }

    /// The left-handed perspective projection. The first argument is the
    /// tangent of half the field of view, taken already evaluated: the
    /// trigonometric functions themselves lie outside this library. A
    /// zero tangent or equal near and far bounds divide by zero and
    /// propagate infinities or NaN untrapped.
    pub fn perspective_left(
        tan_half_fov: Scalar, aspect_ratio: Scalar, near: Scalar, far: Scalar,
    ) -> (m: Mat4)
        ensures
            m == Mat4::spec_perspective_left(tan_half_fov, aspect_ratio, near, far),
    {
        let one = Scalar { bits: ONE_BITS };
        let zero = Scalar { bits: ZERO_BITS };
        let w = one.div(tan_half_fov);
        let h = w.mul(aspect_ratio);
        let r = far.div(far.sub(near));
        Mat4 {
            col1: Vec4 { i: w, j: zero, k: zero, l: zero },
            col2: Vec4 { i: zero, j: h, k: zero, l: zero },
            col3: Vec4 { i: zero, j: zero, k: r, l: one },
            col4: Vec4 { i: zero, j: zero, k: r.neg().mul(near), l: zero },
        }
    }

    /// The right-handed perspective projection: as the left-handed one
    /// with the homogeneous sign and the depth term flipped.
    pub fn perspective_right(
        tan_half_fov: Scalar, aspect_ratio: Scalar, near: Scalar, far: Scalar,
    ) -> (m: Mat4)
        ensures
            m == Mat4::spec_perspective_right(tan_half_fov, aspect_ratio, near, far),
    {
        let one = Scalar { bits: ONE_BITS };
        let neg_one = Scalar { bits: NEG_ONE_BITS };
        let zero = Scalar { bits: ZERO_BITS };
        let w = one.div(tan_half_fov);
        let h = w.mul(aspect_ratio);
        let r = far.div(far.sub(near));
        Mat4 {
            col1: Vec4 { i: w, j: zero, k: zero, l: zero },
            col2: Vec4 { i: zero, j: h, k: zero, l: zero },
            col3: Vec4 { i: zero, j: zero, k: r, l: neg_one },
            col4: Vec4 { i: zero, j: zero, k: r.mul(near), l: zero },
        }
    }

    /// The left-handed perspective projection with the far plane at
    /// infinity, from the tangent of half the field of view.
    pub fn perspective_inf_left(
        tan_half_fov: Scalar, aspect_ratio: Scalar, near: Scalar,
    ) -> (m: Mat4)
        ensures
            m == Mat4::spec_perspective_inf_left(tan_half_fov, aspect_ratio, near),
    {
        let one = Scalar { bits: ONE_BITS };
        let zero = Scalar { bits: ZERO_BITS };
        let w = one.div(tan_half_fov);
        let h = w.mul(aspect_ratio);
        Mat4 {
            col1: Vec4 { i: w, j: zero, k: zero, l: zero },
            col2: Vec4 { i: zero, j: h, k: zero, l: zero },
            col3: Vec4 { i: zero, j: zero, k: one, l: one },
            col4: Vec4 { i: zero, j: zero, k: near.neg(), l: zero },
        }
    }

    /// The right-handed perspective projection with the far plane at
    /// infinity, from the tangent of half the field of view.
    pub fn perspective_inf_right(
        tan_half_fov: Scalar, aspect_ratio: Scalar, near: Scalar,
    ) -> (m: Mat4)
        ensures
            m == Mat4::spec_perspective_inf_right(tan_half_fov, aspect_ratio, near),
    {
        let one = Scalar { bits: ONE_BITS };
        let neg_one = Scalar { bits: NEG_ONE_BITS };
        let zero = Scalar { bits: ZERO_BITS };
        let w = one.div(tan_half_fov);
        let h = w.mul(aspect_ratio);
        Mat4 {
            col1: Vec4 { i: w, j: zero, k: zero, l: zero },
            col2: Vec4 { i: zero, j: h, k: zero, l: zero },
            col3: Vec4 { i: zero, j: zero, k: neg_one, l: neg_one },
            col4: Vec4 { i: zero, j: zero, k: near.neg(), l: zero },
        }
    }
}

/// Matrix composition acts column by column: every column of a product is
/// the left matrix applied to the matching column of the right matrix, so
/// transforming a column with the product equals transforming it twice.
pub proof fn lemma_mul_mat_columns4(a: Mat4, b: Mat4)
    ensures
        a.spec_mul_mat(b).col1 == a.spec_mul_vec(b.col1),
        a.spec_mul_mat(b).col2 == a.spec_mul_vec(b.col2),
        a.spec_mul_mat(b).col3 == a.spec_mul_vec(b.col3),
        a.spec_mul_mat(b).col4 == a.spec_mul_vec(b.col4),
{
}

/// Transposing is an involution: transposing twice gives back the matrix.
pub proof fn lemma_transpose_involution4(m: Mat4)
    ensures
        m.spec_transpose().spec_transpose() == m,
{
}

} // verus!
