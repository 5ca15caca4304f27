//! The wedge product and the rotor, held against the host's f32
//! arithmetic and the properties the library promises.

use linalg32::Scalar;
use linalg32::Vec3;
use linalg32::Bivec3;
use linalg32::Rot;

fn s(x: f32) -> Scalar {
    Scalar::from_bits(x.to_bits())
}

fn f(x: Scalar) -> f32 {
    f32::from_bits(x.to_bits())
}

fn v3(i: f32, j: f32, k: f32) -> Vec3 {
    Vec3::new(s(i), s(j), s(k))
}

fn close(a: f32, b: f32) -> bool {
    (a - b).abs() <= 1.0e-5 * a.abs().max(b.abs()).max(1.0)
}

#[test]
fn wedge_of_first_two_basis_vectors() {
    let w = Bivec3::wedge(Vec3::unit_i(), Vec3::unit_j());
    assert_eq!((f(w.b01), f(w.b02), f(w.b12)), (1.0, 0.0, 0.0));
}

#[test]
fn wedge_matches_the_minor_determinants() {
    let u = v3(1.0, 2.0, 3.0);
    let v = v3(4.0, 5.0, 6.0);
    let w = Bivec3::wedge(u, v);
    assert_eq!(f(w.b01).to_bits(), (1.0f32 * 5.0 - 2.0 * 4.0).to_bits());
    assert_eq!(f(w.b02).to_bits(), (1.0f32 * 6.0 - 3.0 * 4.0).to_bits());
    assert_eq!(f(w.b12).to_bits(), (2.0f32 * 6.0 - 3.0 * 5.0).to_bits());
}

#[test]
fn wedge_is_antisymmetric() {
    let u = v3(0.3, -1.2, 2.5);
    let v = v3(1.7, 0.4, -0.9);
    let uv = Bivec3::wedge(u, v);
    let vu = Bivec3::wedge(v, u);
    assert_eq!(f(uv.b01), -f(vu.b01));
    assert_eq!(f(uv.b02), -f(vu.b02));
    assert_eq!(f(uv.b12), -f(vu.b12));
}

#[test]
fn wedge_with_itself_vanishes() {
    let u = v3(0.3, -1.2, 2.5);
    let w = Bivec3::wedge(u, u);
    assert_eq!(f(w.b01), 0.0);
    assert_eq!(f(w.b02), 0.0);
    assert_eq!(f(w.b12), 0.0);
}

#[test]
fn bivec_raw_constructor_stores_verbatim() {
    let b = Bivec3::new(s(1.5), s(-2.5), s(3.5));
    assert_eq!((f(b.b01), f(b.b02), f(b.b12)), (1.5, -2.5, 3.5));
}

#[test]
fn rotor_norms_match_hardware() {
    let r = Rot::new(s(1.0), s(2.0), s(3.0), s(4.0));
    assert_eq!(f(r.norm_squared()), 30.0);
    assert_eq!(f(r.norm()).to_bits(), 30.0f32.sqrt().to_bits());
}

#[test]
fn rotor_dot_is_the_four_dimensional_inner_product() {
    let a = Rot::new(s(1.0), s(2.0), s(3.0), s(4.0));
    let b = Rot::new(s(5.0), s(6.0), s(7.0), s(8.0));
    assert_eq!(f(a.dot(b)), 70.0);
}

#[test]
fn rotor_normalize_gives_unit_norm() {
    let r = Rot::new(s(1.0), s(2.0), s(3.0), s(4.0)).normalize();
    assert!(close(f(r.norm()), 1.0));
    let r = Rot::new(s(0.1), s(-0.7), s(0.0), s(2.5)).normalize_or_nan();
    assert!(close(f(r.norm()), 1.0));
}

#[test]
fn rotor_normalize_or_nan_of_zero_rotor_is_all_nan() {
    let z = s(0.0);
    let r = Rot::new(z, z, z, z).normalize_or_nan();
    assert!(r.a.is_nan() && r.b01.is_nan() && r.b02.is_nan() && r.b12.is_nan());
}

#[test]
fn rotor_from_identical_vectors_is_the_identity_rotation() {
    for v in [v3(1.0, 2.0, 3.0), v3(0.1, -0.4, 0.2), v3(-5.0, 0.0, 12.0)] {
        let r = Rot::from_vecs(v, v);
        assert!(close(f(r.a), 1.0));
        assert!(f(r.b01).abs() < 1.0e-6);
        assert!(f(r.b02).abs() < 1.0e-6);
        assert!(f(r.b12).abs() < 1.0e-6);
    }
}

#[test]
fn rotor_between_the_first_two_basis_vectors_is_a_quarter_turn() {
    let r = Rot::from_vecs(Vec3::unit_i(), Vec3::unit_j());
    let half_sqrt2 = 0.70710678f32;
    assert!(close(f(r.a), half_sqrt2));
    assert!(close(f(r.b01), half_sqrt2));
    assert_eq!(f(r.b02), 0.0);
    assert_eq!(f(r.b12), 0.0);
}

#[test]
fn rotor_from_antiparallel_vectors_degenerates_to_nan() {
    let v = Vec3::unit_i();
    let w = Vec3::unit_i_neg();
    let r = Rot::from_vecs(v, w);
    assert!(r.a.is_nan());
}
