//! Two-by-two single-precision matrices, stored by columns.

use vstd::prelude::*;
use crate::scalar::Scalar;
use crate::vec2::Vec2;

verus! {

/// A square matrix stored as two columns: entry of
/// mathematical row I and column J is component I of column J.
#[derive(Clone, Copy, PartialEq, Eq, Structural, Debug)]
pub struct Mat2 {
    pub col1: Vec2,
    pub col2: Vec2,
}

impl Mat2 {
    /// The first row, read out of the column storage.
    pub open spec fn spec_row1(self) -> Vec2 {
        Vec2 { i: self.col1.i, j: self.col2.i }
    }
    /// The second row, read out of the column storage.
    pub open spec fn spec_row2(self) -> Vec2 {
        Vec2 { i: self.col1.j, j: self.col2.j }
    }

    /// The transpose: the rows become the columns.
    pub open spec fn spec_transpose(self) -> Mat2 {
        Mat2 {
            col1: self.spec_row1(),
            col2: self.spec_row2(),
        }
    }

    /// The identity: the standard basis vectors as columns, in order.
    pub open spec fn spec_identity() -> Mat2 {
        Mat2 {
            col1: Vec2::spec_unit_i(),
            col2: Vec2::spec_unit_j(),
        }
    }

    /// The zero matrix: every column the zero vector.
    pub open spec fn spec_zero() -> Mat2 {
        Mat2 {
            col1: Vec2::spec_zero(),
            col2: Vec2::spec_zero(),
        }
    }

    /// The columnwise sum of two matrices.
    pub open spec fn spec_add(self, mat: Mat2) -> Mat2 {
        Mat2 {
            col1: self.col1.spec_add(mat.col1),
            col2: self.col2.spec_add(mat.col2),
        }
    }

    /// The scalar added to every entry.
    pub open spec fn spec_add_scalar(self, val: Scalar) -> Mat2 {
        Mat2 {
            col1: self.col1.spec_add_scalar(val),
            col2: self.col2.spec_add_scalar(val),
        }
    }

    /// The columnwise difference of two matrices.
    pub open spec fn spec_sub(self, mat: Mat2) -> Mat2 {
        Mat2 {
            col1: self.col1.spec_sub(mat.col1),
            col2: self.col2.spec_sub(mat.col2),
        }
    }

    /// The scalar subtracted from every entry.
    pub open spec fn spec_sub_scalar(self, val: Scalar) -> Mat2 {
        Mat2 {
            col1: self.col1.spec_sub_scalar(val),
            col2: self.col2.spec_sub_scalar(val),
        }
    }

    /// The matrix-vector product: component I of the result is the dot
    /// product of row I with the vector.
    pub open spec fn spec_mul_vec(self, vec: Vec2) -> Vec2 {
        Vec2 { i: self.spec_row1().spec_dot(vec), j: self.spec_row2().spec_dot(vec) }
    }

    /// The matrix-matrix product: column J of the result is the left
    /// matrix applied to column J of the right matrix.
    pub open spec fn spec_mul_mat(self, mat: Mat2) -> Mat2 {
        Mat2 {
            col1: self.spec_mul_vec(mat.col1),
            col2: self.spec_mul_vec(mat.col2),
        }
    }

    /// The raw constructor reads its scalars in row-major order and
    /// stores them into the column-major layout.
    pub fn new(
        m00: Scalar, m01: Scalar,
        m10: Scalar, m11: Scalar,
    ) -> (m: Mat2)
        ensures
            m == (Mat2 {
                col1: Vec2 { i: m00, j: m10 },
                col2: Vec2 { i: m01, j: m11 },
            }),
    {
        Mat2 {
            col1: Vec2 { i: m00, j: m10 },
            col2: Vec2 { i: m01, j: m11 },
        }
    }

    /// The given vectors are stored as the columns, verbatim.
    pub fn from_cols(vec1: Vec2, vec2: Vec2) -> (m: Mat2)
        ensures
            m == (Mat2 {
                col1: vec1,
                col2: vec2,
            }),
    {
        Mat2 {
            col1: vec1,
            col2: vec2,
        }
    }

    /// The given vectors become the rows: the matrix of them as columns,
    /// transposed. The componentwise shuffle makes this the slower,
    /// discouraged path; prefer `from_cols`.
    pub fn from_rows(row1: Vec2, row2: Vec2) -> (m: Mat2)
        ensures
            m == (Mat2 {
                col1: row1,
                col2: row2,
            }).spec_transpose(),
    {
        Mat2 {
            col1: Vec2 { i: row1.i, j: row2.i },
            col2: Vec2 { i: row1.j, j: row2.j },
        }
    }

    /// The identity matrix.
    pub fn identity() -> (m: Mat2)
        ensures
            m == Mat2::spec_identity(),
    {
        Mat2 {
            col1: Vec2::unit_i(),
            col2: Vec2::unit_j(),
        }
    }

    /// The zero matrix.
    pub fn zero() -> (m: Mat2)
        ensures
            m == Mat2::spec_zero(),
    {
        Mat2 {
            col1: Vec2::zero(),
            col2: Vec2::zero(),
        }
    }

    /// The columnwise sum.
    pub fn add(self, mat: Mat2) -> (m: Mat2)
        ensures
            m == self.spec_add(mat),
    {
        Mat2 {
            col1: self.col1.add(mat.col1),
            col2: self.col2.add(mat.col2),
        }
    }

    /// The scalar added to every entry.
    pub fn add_scalar(self, val: Scalar) -> (m: Mat2)
        ensures
            m == self.spec_add_scalar(val),
    {
        Mat2 {
            col1: self.col1.add_scalar(val),
            col2: self.col2.add_scalar(val),
        }
    }

    /// The columnwise difference.
    pub fn sub(self, mat: Mat2) -> (m: Mat2)
        ensures
            m == self.spec_sub(mat),
    {
        Mat2 {
            col1: self.col1.sub(mat.col1),
            col2: self.col2.sub(mat.col2),
        }
    }

    /// The scalar subtracted from every entry.
    pub fn sub_scalar(self, val: Scalar) -> (m: Mat2)
        ensures
            m == self.spec_sub_scalar(val),
    {
        Mat2 {
            col1: self.col1.sub_scalar(val),
            col2: self.col2.sub_scalar(val),
        }
    }

    /// The matrix-vector product, computed by reading the rows out of the
    /// column storage and taking their dot products with the vector.
    pub fn mul_vec(self, vec: Vec2) -> (r: Vec2)
        ensures
            r == self.spec_mul_vec(vec),
    {
        let row1 = Vec2::new(self.col1.i, self.col2.i);
        let row2 = Vec2::new(self.col1.j, self.col2.j);
        Vec2::new(row1.dot(vec), row2.dot(vec))
    }

    /// The matrix-matrix product: each column of the right matrix is
    /// transformed by the left matrix.
    pub fn mul_mat(self, mat: Mat2) -> (m: Mat2)
        ensures
            m == self.spec_mul_mat(mat),
    {
        Mat2 {
            col1: self.mul_vec(mat.col1),
            col2: self.mul_vec(mat.col2),
        }
    }
}

/// Matrix composition acts column by column: every column of a product is
/// the left matrix applied to the matching column of the right matrix, so
/// transforming a column with the product equals transforming it twice.
pub proof fn lemma_mul_mat_columns2(a: Mat2, b: Mat2)
    ensures
        a.spec_mul_mat(b).col1 == a.spec_mul_vec(b.col1),
        a.spec_mul_mat(b).col2 == a.spec_mul_vec(b.col2),
{
}

/// Transposing is an involution: transposing twice gives back the matrix.
pub proof fn lemma_transpose_involution2(m: Mat2)
    ensures
        m.spec_transpose().spec_transpose() == m,
{
}

} // verus!
