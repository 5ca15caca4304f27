//! Vector operations, held against the host's f32 arithmetic and against
//! the properties the library promises.

use linalg32::Scalar;
use linalg32::Vec2;
use linalg32::Vec3;
use linalg32::Vec4;

fn s(x: f32) -> Scalar {
    Scalar::from_bits(x.to_bits())
}

fn f(x: Scalar) -> f32 {
    f32::from_bits(x.to_bits())
}

fn v2(i: f32, j: f32) -> Vec2 {
    Vec2::new(s(i), s(j))
}

fn v3(i: f32, j: f32, k: f32) -> Vec3 {
    Vec3::new(s(i), s(j), s(k))
}

fn v4(i: f32, j: f32, k: f32, l: f32) -> Vec4 {
    Vec4::new(s(i), s(j), s(k), s(l))
}

fn close(a: f32, b: f32) -> bool {
    (a - b).abs() <= 1.0e-5 * a.abs().max(b.abs()).max(1.0)
}

#[test]
fn vec2_norm_three_four_five() {
    assert_eq!(f(v2(3.0, 4.0).norm()), 5.0f32);
}

#[test]
fn norm_squared_is_norm_squared_up_to_rounding() {
    for v in [v2(3.0, 4.0), v2(0.1, 0.2), v2(-7.5, 2.25), v2(1.0e3, 1.0e-3)] {
        let n = f(v.norm());
        assert!(close(f(v.norm_squared()), n * n));
    }
    let u = v3(1.5, -2.5, 3.5);
    let n = f(u.norm());
    assert!(close(f(u.norm_squared()), n * n));
    let w = v4(1.0, 2.0, 3.0, 4.0);
    let n = f(w.norm());
    assert!(close(f(w.norm_squared()), n * n));
}

#[test]
fn dist_is_norm_of_difference_exactly() {
    let u = v3(1.0, 2.5, -3.0);
    let v = v3(-4.0, 0.5, 2.0);
    assert_eq!(u.dist(v).to_bits(), u.sub(v).norm().to_bits());
    assert_eq!(
        u.dist_squared(v).to_bits(),
        u.sub(v).norm_squared().to_bits()
    );
    let a = v2(0.1, 0.7);
    let b = v2(-0.3, 0.2);
    assert_eq!(a.dist(b).to_bits(), a.sub(b).norm().to_bits());
}

#[test]
fn normalized_vector_has_unit_norm() {
    for v in [v3(3.0, 4.0, 12.0), v3(0.01, -0.02, 0.05), v3(1.0, 1.0, 1.0)] {
        assert!(close(f(v.normalize().norm()), 1.0));
        assert!(close(f(v.normalize_or_nan().norm()), 1.0));
    }
    assert!(close(f(v2(5.0, -12.0).normalize().norm()), 1.0));
    assert!(close(f(v4(1.0, 2.0, 3.0, 4.0).normalize().norm()), 1.0));
}

#[test]
fn normalize_or_nan_of_zero_vector_is_all_nan() {
    let r = v2(0.0, 0.0).normalize_or_nan();
    assert!(r.i.is_nan() && r.j.is_nan());
    let r = v3(0.0, 0.0, 0.0).normalize_or_nan();
    assert!(r.i.is_nan() && r.j.is_nan() && r.k.is_nan());
    let r = v4(0.0, 0.0, 0.0, 0.0).normalize_or_nan();
    assert!(r.i.is_nan() && r.j.is_nan() && r.k.is_nan() && r.l.is_nan());
}

#[test]
fn normalize_of_zero_vector_is_nan_by_division() {
    let r = v3(0.0, 0.0, 0.0).normalize();
    assert!(r.i.is_nan() && r.j.is_nan() && r.k.is_nan());
}

#[test]
fn midpoint_is_symmetric_and_equidistant() {
    let u = v2(1.0, 2.0);
    let v = v2(3.0, 4.0);
    let m = u.midpoint(v);
    assert_eq!(f(m.i), 2.0);
    assert_eq!(f(m.j), 3.0);
    let m2 = v.midpoint(u);
    assert_eq!(m.i.to_bits(), m2.i.to_bits());
    assert_eq!(m.j.to_bits(), m2.j.to_bits());
    assert!(close(f(u.dist(m)), f(v.dist(m))));

    let a = v3(0.1, -0.7, 2.3);
    let b = v3(1.9, 0.4, -0.6);
    let m = a.midpoint(b);
    let m2 = b.midpoint(a);
    assert_eq!(m.i.to_bits(), m2.i.to_bits());
    assert_eq!(m.j.to_bits(), m2.j.to_bits());
    assert_eq!(m.k.to_bits(), m2.k.to_bits());
    assert!(close(f(a.dist(m)), f(b.dist(m))));
}

#[test]
fn vec4_dot_of_ones_sums_components() {
    assert_eq!(
        f(v4(1.0, 2.0, 3.0, 4.0).dot(v4(1.0, 1.0, 1.0, 1.0))),
        10.0f32
    );
}

#[test]
fn dot_matches_hardware() {
    let u = v3(0.1, 0.2, 0.3);
    let v = v3(0.4, 0.5, 0.6);
    let expected = 0.1f32 * 0.4f32 + 0.2f32 * 0.5f32 + 0.3f32 * 0.6f32;
    assert_eq!(u.dot(v).to_bits(), expected.to_bits());
}

#[test]
fn componentwise_operations_match_hardware() {
    let u = v2(0.1, -2.5);
    let v = v2(0.2, 7.75);
    let sum = u.add(v);
    assert_eq!(sum.i.to_bits(), (0.1f32 + 0.2f32).to_bits());
    assert_eq!(sum.j.to_bits(), (-2.5f32 + 7.75f32).to_bits());
    let diff = u.sub(v);
    assert_eq!(diff.i.to_bits(), (0.1f32 - 0.2f32).to_bits());
    let scaled = u.scale(s(3.0));
    assert_eq!(scaled.j.to_bits(), (-2.5f32 * 3.0f32).to_bits());
    let divided = u.div_scalar(s(3.0));
    assert_eq!(divided.i.to_bits(), (0.1f32 / 3.0f32).to_bits());
    let shifted = u.add_scalar(s(1.5));
    assert_eq!(shifted.i.to_bits(), (0.1f32 + 1.5f32).to_bits());
    let lowered = u.sub_scalar(s(1.5));
    assert_eq!(lowered.j.to_bits(), (-2.5f32 - 1.5f32).to_bits());
}

#[test]
fn abs_is_componentwise() {
    let r = v3(-1.5, 2.5, -0.0).abs();
    assert_eq!(f(r.i), 1.5);
    assert_eq!(f(r.j), 2.5);
    assert_eq!(r.k.to_bits(), 0.0f32.to_bits());
}

#[test]
fn named_vectors_have_their_layouts() {
    let e1 = Vec3::unit_i();
    assert_eq!((f(e1.i), f(e1.j), f(e1.k)), (1.0, 0.0, 0.0));
    let e2n = Vec3::unit_j_neg();
    assert_eq!((f(e2n.i), f(e2n.j), f(e2n.k)), (0.0, -1.0, 0.0));
    let z = Vec4::zero();
    assert_eq!(f(z.i) + f(z.j) + f(z.k) + f(z.l), 0.0);
    let o = Vec2::one();
    assert_eq!((f(o.i), f(o.j)), (1.0, 1.0));
    let n = Vec2::one_neg();
    assert_eq!((f(n.i), f(n.j)), (-1.0, -1.0));
}

#[test]
fn nan_propagates_through_arithmetic() {
    let v = Vec2::new(linalg32::Scalar::nan(), s(1.0));
    let sum = v.add(v2(1.0, 1.0));
    assert!(sum.i.is_nan());
    assert!(!sum.j.is_nan());
    assert!(v.norm().is_nan());
}
