//! Matrix layout, arithmetic and composition, held against the host's f32
//! arithmetic and the properties the library promises.

use linalg32::Scalar;
use linalg32::Vec2;
use linalg32::Vec3;
use linalg32::Vec4;
use linalg32::Mat2;
use linalg32::Mat3;
use linalg32::Mat4;

fn s(x: f32) -> Scalar {
    Scalar::from_bits(x.to_bits())
}

fn f(x: Scalar) -> f32 {
    f32::from_bits(x.to_bits())
}

fn v2(i: f32, j: f32) -> Vec2 {
    Vec2::new(s(i), s(j))
}

fn v3(i: f32, j: f32, k: f32) -> Vec3 {
    Vec3::new(s(i), s(j), s(k))
}

fn v4(i: f32, j: f32, k: f32, l: f32) -> Vec4 {
    Vec4::new(s(i), s(j), s(k), s(l))
}

fn close(a: f32, b: f32) -> bool {
    (a - b).abs() <= 1.0e-4 * a.abs().max(b.abs()).max(1.0)
}

#[test]
fn basis_columns_give_the_identity() {
    let m = Mat2::from_cols(Vec2::unit_i(), Vec2::unit_j());
    let id = Mat2::identity();
    assert_eq!(m.col1.i.to_bits(), id.col1.i.to_bits());
    assert_eq!(m.col1.j.to_bits(), id.col1.j.to_bits());
    assert_eq!(m.col2.i.to_bits(), id.col2.i.to_bits());
    assert_eq!(m.col2.j.to_bits(), id.col2.j.to_bits());
}

#[test]
fn identity_transforms_nothing() {
    let r = Mat2::identity().mul_vec(v2(7.0, 9.0));
    assert_eq!(f(r.i), 7.0);
    assert_eq!(f(r.j), 9.0);
    let r = Mat3::identity().mul_vec(v3(1.5, 2.5, 3.5));
    assert_eq!((f(r.i), f(r.j), f(r.k)), (1.5, 2.5, 3.5));
    let r = Mat4::identity().mul_vec(v4(0.1, 0.2, 0.3, 0.4));
    assert_eq!((f(r.i), f(r.j), f(r.k), f(r.l)), (0.1, 0.2, 0.3, 0.4));
}

#[test]
fn raw_constructor_reads_row_major() {
    let m = Mat2::new(s(1.0), s(2.0), s(3.0), s(4.0));
    // Row 1 is (1 2), row 2 is (3 4); column 1 is therefore (1 3).
    assert_eq!((f(m.col1.i), f(m.col1.j)), (1.0, 3.0));
    assert_eq!((f(m.col2.i), f(m.col2.j)), (2.0, 4.0));
}

#[test]
fn from_rows_transposes() {
    let m = Mat3::from_rows(v3(1.0, 2.0, 3.0), v3(4.0, 5.0, 6.0), v3(7.0, 8.0, 9.0));
    assert_eq!((f(m.col1.i), f(m.col1.j), f(m.col1.k)), (1.0, 4.0, 7.0));
    assert_eq!((f(m.col2.i), f(m.col2.j), f(m.col2.k)), (2.0, 5.0, 8.0));
    assert_eq!((f(m.col3.i), f(m.col3.j), f(m.col3.k)), (3.0, 6.0, 9.0));
}

#[test]
fn mul_vec_matches_hardware() {
    let m = Mat2::from_cols(v2(0.1, 0.2), v2(0.3, 0.4));
    let r = m.mul_vec(v2(0.5, 0.6));
    assert_eq!(r.i.to_bits(), (0.1f32 * 0.5f32 + 0.3f32 * 0.6f32).to_bits());
    assert_eq!(r.j.to_bits(), (0.2f32 * 0.5f32 + 0.4f32 * 0.6f32).to_bits());
}

#[test]
fn composition_is_column_by_column() {
    let a = Mat2::from_cols(v2(1.0, 2.0), v2(3.0, 4.0));
    let b = Mat2::from_cols(v2(5.0, 6.0), v2(7.0, 8.0));
    let ab = a.mul_mat(b);
    let c1 = a.mul_vec(b.col1);
    let c2 = a.mul_vec(b.col2);
    assert_eq!(ab.col1.i.to_bits(), c1.i.to_bits());
    assert_eq!(ab.col1.j.to_bits(), c1.j.to_bits());
    assert_eq!(ab.col2.i.to_bits(), c2.i.to_bits());
    assert_eq!(ab.col2.j.to_bits(), c2.j.to_bits());
}

#[test]
fn composition_associates_on_exact_inputs() {
    // Small integers stay exact in binary32, so both groupings agree
    // bit for bit here.
    let a = Mat3::from_cols(v3(1.0, 2.0, 3.0), v3(0.0, 1.0, 4.0), v3(5.0, 6.0, 0.0));
    let b = Mat3::from_cols(v3(2.0, 0.0, 1.0), v3(1.0, 3.0, 0.0), v3(0.0, 2.0, 2.0));
    let v = v3(1.0, -2.0, 3.0);
    let left = a.mul_mat(b).mul_vec(v);
    let right = a.mul_vec(b.mul_vec(v));
    assert_eq!(left.i.to_bits(), right.i.to_bits());
    assert_eq!(left.j.to_bits(), right.j.to_bits());
    assert_eq!(left.k.to_bits(), right.k.to_bits());
}

#[test]
fn composition_associates_within_tolerance() {
    let a = Mat4::from_cols(
        v4(0.1, 0.2, 0.3, 0.4),
        v4(-0.5, 0.6, 0.7, -0.8),
        v4(0.9, -1.0, 1.1, 1.2),
        v4(1.3, 1.4, -1.5, 1.6),
    );
    let b = Mat4::from_cols(
        v4(2.1, 0.0, -0.3, 0.7),
        v4(0.4, 1.6, 0.2, -0.9),
        v4(-1.1, 0.5, 0.8, 0.3),
        v4(0.6, -0.2, 1.9, 1.0),
    );
    let v = v4(0.3, -1.7, 2.4, 0.5);
    let left = a.mul_mat(b).mul_vec(v);
    let right = a.mul_vec(b.mul_vec(v));
    assert!(close(f(left.i), f(right.i)));
    assert!(close(f(left.j), f(right.j)));
    assert!(close(f(left.k), f(right.k)));
    assert!(close(f(left.l), f(right.l)));
}

#[test]
fn matrix_sum_and_difference_are_columnwise() {
    let a = Mat2::from_cols(v2(1.0, 2.0), v2(3.0, 4.0));
    let b = Mat2::from_cols(v2(0.5, 0.25), v2(0.125, 8.0));
    let sum = a.add(b);
    assert_eq!(f(sum.col1.i), 1.5);
    assert_eq!(f(sum.col2.j), 12.0);
    let diff = a.sub(b);
    assert_eq!(f(diff.col1.j), 1.75);
    let shifted = a.add_scalar(s(1.0));
    assert_eq!(f(shifted.col2.i), 4.0);
    let lowered = a.sub_scalar(s(1.0));
    assert_eq!(f(lowered.col1.i), 0.0);
}

#[test]
fn scale_matrices_have_the_diagonal_layout() {
    let m = Mat3::from_scale(v2(2.0, 3.0));
    assert_eq!((f(m.col1.i), f(m.col2.j), f(m.col3.k)), (2.0, 3.0, 1.0));
    assert_eq!(f(m.col1.j) + f(m.col1.k) + f(m.col2.i), 0.0);
    let m = Mat4::from_scale(v3(2.0, 3.0, 4.0));
    assert_eq!(
        (f(m.col1.i), f(m.col2.j), f(m.col3.k), f(m.col4.l)),
        (2.0, 3.0, 4.0, 1.0)
    );
    let r = m.mul_vec(v4(1.0, 1.0, 1.0, 1.0));
    assert_eq!((f(r.i), f(r.j), f(r.k), f(r.l)), (2.0, 3.0, 4.0, 1.0));
}

#[test]
fn translation_matrices_translate_homogeneous_points() {
    let m = Mat4::from_translation(v3(10.0, 20.0, 30.0));
    let r = m.mul_vec(v4(1.0, 2.0, 3.0, 1.0));
    assert_eq!((f(r.i), f(r.j), f(r.k), f(r.l)), (11.0, 22.0, 33.0, 1.0));
    let m = Mat3::from_translation(v2(5.0, 7.0));
    let r = m.mul_vec(v3(1.0, 2.0, 1.0));
    assert_eq!((f(r.i), f(r.j), f(r.k)), (6.0, 9.0, 1.0));
}

#[test]
fn quarter_turn_about_the_third_axis() {
    // sin 90 degrees is 1, cos is 0: the first basis vector goes to the
    // second.
    let m = Mat4::from_rotation_k(s(1.0), s(0.0));
    let r = m.mul_vec(v4(1.0, 0.0, 0.0, 0.0));
    assert_eq!((f(r.i), f(r.j), f(r.k), f(r.l)), (0.0, 1.0, 0.0, 0.0));
}

#[test]
fn rotation_matrices_have_the_documented_columns() {
    let (sin_a, cos_a) = (0.6f32, 0.8f32);
    let m = Mat4::from_rotation_i(s(sin_a), s(cos_a));
    assert_eq!((f(m.col1.i), f(m.col1.j)), (1.0, 0.0));
    assert_eq!((f(m.col2.j), f(m.col2.k)), (cos_a, sin_a));
    assert_eq!((f(m.col3.j), f(m.col3.k)), (-sin_a, cos_a));
    let m = Mat4::from_rotation_j(s(sin_a), s(cos_a));
    assert_eq!((f(m.col1.i), f(m.col1.k)), (cos_a, sin_a));
    assert_eq!((f(m.col3.i), f(m.col3.k)), (-sin_a, cos_a));
    assert_eq!(f(m.col2.j), 1.0);
    let m = Mat4::from_rotation_k(s(sin_a), s(cos_a));
    assert_eq!((f(m.col1.i), f(m.col1.j)), (cos_a, sin_a));
    assert_eq!((f(m.col2.i), f(m.col2.j)), (-sin_a, cos_a));
}

#[test]
fn orthographic_left_has_the_documented_columns() {
    let (l, r, b, t, n, fa) = (-2.0f32, 3.0f32, -1.0f32, 4.0f32, 0.1f32, 100.0f32);
    let m = Mat4::orthographic_left(s(l), s(r), s(b), s(t), s(n), s(fa));
    let width_inv = 1.0f32 / (r - l);
    let height_inv = 1.0f32 / (t - b);
    let range_inv = 1.0f32 / (fa - n);
    assert_eq!(f(m.col1.i).to_bits(), (2.0f32 * width_inv).to_bits());
    assert_eq!(f(m.col2.j).to_bits(), (2.0f32 * height_inv).to_bits());
    assert_eq!(f(m.col3.k).to_bits(), range_inv.to_bits());
    assert_eq!(f(m.col4.i).to_bits(), (-(r + l) * width_inv).to_bits());
    assert_eq!(f(m.col4.j).to_bits(), (-(t + b) * height_inv).to_bits());
    assert_eq!(f(m.col4.k).to_bits(), (-range_inv * n).to_bits());
    assert_eq!(f(m.col4.l), 1.0);
}

#[test]
fn orthographic_right_inverts_the_depth_range() {
    let (l, r, b, t, n, fa) = (-2.0f32, 3.0f32, -1.0f32, 4.0f32, 0.1f32, 100.0f32);
    let m = Mat4::orthographic_right(s(l), s(r), s(b), s(t), s(n), s(fa));
    let range_inv = 1.0f32 / (n - fa);
    assert_eq!(f(m.col3.k).to_bits(), range_inv.to_bits());
    assert_eq!(f(m.col4.k).to_bits(), (-range_inv * n).to_bits());
}

#[test]
fn perspective_left_has_the_documented_columns() {
    let fov = 1.0f32; // radians
    let tan_half = (fov * 0.5f32).tan();
    let (aspect, near, far) = (1.5f32, 0.1f32, 100.0f32);
    let m = Mat4::perspective_left(s(tan_half), s(aspect), s(near), s(far));
    let w = 1.0f32 / tan_half;
    let h = w * aspect;
    let r = far / (far - near);
    assert_eq!(f(m.col1.i).to_bits(), w.to_bits());
    assert_eq!(f(m.col2.j).to_bits(), h.to_bits());
    assert_eq!(f(m.col3.k).to_bits(), r.to_bits());
    assert_eq!(f(m.col3.l), 1.0);
    assert_eq!(f(m.col4.k).to_bits(), (-r * near).to_bits());
    assert_eq!(f(m.col4.l), 0.0);
}

#[test]
fn perspective_right_flips_the_handedness_signs() {
    let tan_half = 0.5f32;
    let (aspect, near, far) = (1.5f32, 0.1f32, 100.0f32);
    let m = Mat4::perspective_right(s(tan_half), s(aspect), s(near), s(far));
    let r = far / (far - near);
    assert_eq!(f(m.col3.l), -1.0);
    assert_eq!(f(m.col4.k).to_bits(), (r * near).to_bits());
}

#[test]
fn infinite_far_plane_variants() {
    let tan_half = 0.5f32;
    let (aspect, near) = (2.0f32, 0.25f32);
    let m = Mat4::perspective_inf_left(s(tan_half), s(aspect), s(near));
    assert_eq!((f(m.col3.k), f(m.col3.l)), (1.0, 1.0));
    assert_eq!((f(m.col4.k), f(m.col4.l)), (-near, 0.0));
    assert_eq!(f(m.col1.i).to_bits(), (1.0f32 / tan_half).to_bits());
    let m = Mat4::perspective_inf_right(s(tan_half), s(aspect), s(near));
    assert_eq!((f(m.col3.k), f(m.col3.l)), (-1.0, -1.0));
    assert_eq!((f(m.col4.k), f(m.col4.l)), (-near, 0.0));
}

#[test]
fn zero_matrix_is_all_zero() {
    let m = Mat3::zero();
    let r = m.mul_vec(v3(1.0, 2.0, 3.0));
    assert_eq!((f(r.i), f(r.j), f(r.k)), (0.0, 0.0, 0.0));
}

#[test]
fn degenerate_projection_bounds_propagate_infinities() {
    // Equal left and right bounds divide by zero; nothing traps it.
    let m = Mat4::orthographic_left(s(1.0), s(1.0), s(-1.0), s(1.0), s(0.1), s(100.0));
    assert_eq!(f(m.col1.i), f32::INFINITY);
    // Equal near and far bounds.
    let m = Mat4::perspective_left(s(0.5), s(1.0), s(1.0), s(1.0));
    assert!(f(m.col3.k).is_infinite());
    // A zero tangent of half the field of view.
    let m = Mat4::perspective_left(s(0.0), s(1.0), s(0.1), s(100.0));
    assert_eq!(f(m.col1.i), f32::INFINITY);
}
