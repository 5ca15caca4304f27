//! Three-by-three single-precision matrices, stored by columns.

use vstd::prelude::*;
use crate::scalar::Scalar;
use crate::scalar::ZERO_BITS;
use crate::scalar::ONE_BITS;
use crate::vec2::Vec2;
use crate::vec3::Vec3;

verus! {

/// A square matrix stored as three columns: entry of
/// mathematical row I and column J is component I of column J.
#[derive(Clone, Copy, PartialEq, Eq, Structural, Debug)]
pub struct Mat3 {
    pub col1: Vec3,
    pub col2: Vec3,
    pub col3: Vec3,
}

impl Mat3 {
    /// The first row, read out of the column storage.
    pub open spec fn spec_row1(self) -> Vec3 {
        Vec3 { i: self.col1.i, j: self.col2.i, k: self.col3.i }
    }
    /// The second row, read out of the column storage.
    pub open spec fn spec_row2(self) -> Vec3 {
        Vec3 { i: self.col1.j, j: self.col2.j, k: self.col3.j }
    }
    /// The third row, read out of the column storage.
    pub open spec fn spec_row3(self) -> Vec3 {
        Vec3 { i: self.col1.k, j: self.col2.k, k: self.col3.k }
    }

    /// The transpose: the rows become the columns.
    pub open spec fn spec_transpose(self) -> Mat3 {
        Mat3 {
            col1: self.spec_row1(),
            col2: self.spec_row2(),
            col3: self.spec_row3(),
        }
    }

    /// The identity: the standard basis vectors as columns, in order.
    pub open spec fn spec_identity() -> Mat3 {
        Mat3 {
            col1: Vec3::spec_unit_i(),
            col2: Vec3::spec_unit_j(),
            col3: Vec3::spec_unit_k(),
        }
    }

    /// The zero matrix: every column the zero vector.
    pub open spec fn spec_zero() -> Mat3 {
        Mat3 {
            col1: Vec3::spec_zero(),
            col2: Vec3::spec_zero(),
            col3: Vec3::spec_zero(),
        }
    }

    /// The columnwise sum of two matrices.
    pub open spec fn spec_add(self, mat: Mat3) -> Mat3 {
        Mat3 {
            col1: self.col1.spec_add(mat.col1),
            col2: self.col2.spec_add(mat.col2),
            col3: self.col3.spec_add(mat.col3),
        }
    }

    /// The scalar added to every entry.
    pub open spec fn spec_add_scalar(self, val: Scalar) -> Mat3 {
        Mat3 {
            col1: self.col1.spec_add_scalar(val),
            col2: self.col2.spec_add_scalar(val),
            col3: self.col3.spec_add_scalar(val),
        }
    }

    /// The columnwise difference of two matrices.
    pub open spec fn spec_sub(self, mat: Mat3) -> Mat3 {
        Mat3 {
            col1: self.col1.spec_sub(mat.col1),
            col2: self.col2.spec_sub(mat.col2),
            col3: self.col3.spec_sub(mat.col3),
        }
    }

    /// The scalar subtracted from every entry.
    pub open spec fn spec_sub_scalar(self, val: Scalar) -> Mat3 {
        Mat3 {
            col1: self.col1.spec_sub_scalar(val),
            col2: self.col2.spec_sub_scalar(val),
            col3: self.col3.spec_sub_scalar(val),
        }
    }

    /// The matrix-vector product: component I of the result is the dot
    /// product of row I with the vector.
    pub open spec fn spec_mul_vec(self, vec: Vec3) -> Vec3 {
        Vec3 { i: self.spec_row1().spec_dot(vec), j: self.spec_row2().spec_dot(vec), k: self.spec_row3().spec_dot(vec) }
    }

    /// The matrix-matrix product: column J of the result is the left
    /// matrix applied to column J of the right matrix.
    pub open spec fn spec_mul_mat(self, mat: Mat3) -> Mat3 {
        Mat3 {
            col1: self.spec_mul_vec(mat.col1),
            col2: self.spec_mul_vec(mat.col2),
            col3: self.spec_mul_vec(mat.col3),
        }
    }

    /// The raw constructor reads its scalars in row-major order and
    /// stores them into the column-major layout.
    pub fn new(
        m00: Scalar, m01: Scalar, m02: Scalar,
        m10: Scalar, m11: Scalar, m12: Scalar,
        m20: Scalar, m21: Scalar, m22: Scalar,
    ) -> (m: Mat3)
        ensures
            m == (Mat3 {
                col1: Vec3 { i: m00, j: m10, k: m20 },
                col2: Vec3 { i: m01, j: m11, k: m21 },
                col3: Vec3 { i: m02, j: m12, k: m22 },
            }),
    {
        Mat3 {
            col1: Vec3 { i: m00, j: m10, k: m20 },
            col2: Vec3 { i: m01, j: m11, k: m21 },
            col3: Vec3 { i: m02, j: m12, k: m22 },
        }
    }

    /// The given vectors are stored as the columns, verbatim.
    pub fn from_cols(vec1: Vec3, vec2: Vec3, vec3: Vec3) -> (m: Mat3)
        ensures
            m == (Mat3 {
                col1: vec1,
                col2: vec2,
                col3: vec3,
            }),
    {
        Mat3 {
            col1: vec1,
            col2: vec2,
            col3: vec3,
        }
    }

    /// The given vectors become the rows: the matrix of them as columns,
    /// transposed. The componentwise shuffle makes this the slower,
    /// discouraged path; prefer `from_cols`.
    pub fn from_rows(row1: Vec3, row2: Vec3, row3: Vec3) -> (m: Mat3)
        ensures
            m == (Mat3 {
                col1: row1,
                col2: row2,
                col3: row3,
            }).spec_transpose(),
    {
        Mat3 {
            col1: Vec3 { i: row1.i, j: row2.i, k: row3.i },
            col2: Vec3 { i: row1.j, j: row2.j, k: row3.j },
            col3: Vec3 { i: row1.k, j: row2.k, k: row3.k },
        }
    }

    /// The identity matrix.
    pub fn identity() -> (m: Mat3)
        ensures
            m == Mat3::spec_identity(),
    {
        Mat3 {
            col1: Vec3::unit_i(),
            col2: Vec3::unit_j(),
            col3: Vec3::unit_k(),
        }
    }

    /// The zero matrix.
    pub fn zero() -> (m: Mat3)
        ensures
            m == Mat3::spec_zero(),
    {
        Mat3 {
            col1: Vec3::zero(),
            col2: Vec3::zero(),
            col3: Vec3::zero(),
        }
    }

    /// The columnwise sum.
    pub fn add(self, mat: Mat3) -> (m: Mat3)
        ensures
            m == self.spec_add(mat),
    {
        Mat3 {
            col1: self.col1.add(mat.col1),
            col2: self.col2.add(mat.col2),
            col3: self.col3.add(mat.col3),
        }
    }

    /// The scalar added to every entry.
    pub fn add_scalar(self, val: Scalar) -> (m: Mat3)
        ensures
            m == self.spec_add_scalar(val),
    {
        Mat3 {
            col1: self.col1.add_scalar(val),
            col2: self.col2.add_scalar(val),
            col3: self.col3.add_scalar(val),
        }
    }

    /// The columnwise difference.
    pub fn sub(self, mat: Mat3) -> (m: Mat3)
        ensures
            m == self.spec_sub(mat),
    {
        Mat3 {
            col1: self.col1.sub(mat.col1),
            col2: self.col2.sub(mat.col2),
            col3: self.col3.sub(mat.col3),
        }
    }

    /// The scalar subtracted from every entry.
    pub fn sub_scalar(self, val: Scalar) -> (m: Mat3)
        ensures
            m == self.spec_sub_scalar(val),
    {
        Mat3 {
            col1: self.col1.sub_scalar(val),
            col2: self.col2.sub_scalar(val),
            col3: self.col3.sub_scalar(val),
        }
    }

    /// The matrix-vector product, computed by reading the rows out of the
    /// column storage and taking their dot products with the vector.
    pub fn mul_vec(self, vec: Vec3) -> (r: Vec3)
        ensures
            r == self.spec_mul_vec(vec),
    {
        let row1 = Vec3::new(self.col1.i, self.col2.i, self.col3.i);
        let row2 = Vec3::new(self.col1.j, self.col2.j, self.col3.j);
        let row3 = Vec3::new(self.col1.k, self.col2.k, self.col3.k);
        Vec3::new(row1.dot(vec), row2.dot(vec), row3.dot(vec))
    }

    /// The matrix-matrix product: each column of the right matrix is
    /// transformed by the left matrix.
    pub fn mul_mat(self, mat: Mat3) -> (m: Mat3)
        ensures
            m == self.spec_mul_mat(mat),
    {
        Mat3 {
            col1: self.mul_vec(mat.col1),
            col2: self.mul_vec(mat.col2),
            col3: self.mul_vec(mat.col3),
        }
    }

    /// A planar scale, as a spec-level value: the scale factors on the
    /// leading diagonal and one in the final homogeneous slot.
    pub open spec fn spec_from_scale(scale: Vec2) -> Mat3 {
        Mat3 {
            col1: Vec3 { i: scale.i, j: Scalar { bits: ZERO_BITS }, k: Scalar { bits: ZERO_BITS } },
            col2: Vec3 { i: Scalar { bits: ZERO_BITS }, j: scale.j, k: Scalar { bits: ZERO_BITS } },
            col3: Vec3::spec_unit_k(),
        }
    }

    /// A planar homogeneous translation, as a spec-level value: the
    /// identity with the translation in the leading components of the
    /// final column.
    pub open spec fn spec_from_translation(translation: Vec2) -> Mat3 {
        Mat3 {
            col1: Vec3::spec_unit_i(),
            col2: Vec3::spec_unit_j(),
            col3: Vec3 { i: translation.i, j: translation.j, k: Scalar { bits: ONE_BITS } },
        }
    }

    /// The matrix scaling the two planar axes by the given factors and
    /// leaving the homogeneous coordinate unchanged.
    pub fn from_scale(scale: Vec2) -> (m: Mat3)
        ensures
            m == Mat3::spec_from_scale(scale),
    {
        let zero = Scalar { bits: ZERO_BITS };
        Mat3 {
            col1: Vec3 { i: scale.i, j: zero, k: zero },
            col2: Vec3 { i: zero, j: scale.j, k: zero },
            col3: Vec3::unit_k(),
        }
    }

    /// The homogeneous-coordinate translation by the given planar vector:
    /// the identity with the translation in the leading components of the
    /// final column.
    pub fn from_translation(translation: Vec2) -> (m: Mat3)
        ensures
            m == Mat3::spec_from_translation(translation),
    {
        Mat3 {
            col1: Vec3::unit_i(),
            col2: Vec3::unit_j(),
            col3: Vec3 { i: translation.i, j: translation.j, k: Scalar { bits: ONE_BITS } },
        }
    }
}

/// Matrix composition acts column by column: every column of a product is
/// the left matrix applied to the matching column of the right matrix, so
/// transforming a column with the product equals transforming it twice.
pub proof fn lemma_mul_mat_columns3(a: Mat3, b: Mat3)
    ensures
        a.spec_mul_mat(b).col1 == a.spec_mul_vec(b.col1),
        a.spec_mul_mat(b).col2 == a.spec_mul_vec(b.col2),
        a.spec_mul_mat(b).col3 == a.spec_mul_vec(b.col3),
{
}

/// Transposing is an involution: transposing twice gives back the matrix.
pub proof fn lemma_transpose_involution3(m: Mat3)
    ensures
        m.spec_transpose().spec_transpose() == m,
{
}

} // verus!
