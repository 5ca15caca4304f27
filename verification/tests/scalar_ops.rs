//! The scalar arithmetic must agree bit for bit with the host's IEEE-754
//! binary32 operations, which round to nearest with ties to even.

use linalg32::Scalar;

fn s(x: f32) -> Scalar {
    Scalar::from_bits(x.to_bits())
}

fn f(x: Scalar) -> f32 {
    f32::from_bits(x.to_bits())
}

#[test]
fn add_matches_hardware_exact() {
    assert_eq!(s(1.5).add(s(2.25)).to_bits(), (1.5f32 + 2.25f32).to_bits());
}

#[test]
fn add_matches_hardware_rounded() {
    // An inexact sum exercises the rounding path.
    assert_eq!(s(0.1).add(s(0.2)).to_bits(), (0.1f32 + 0.2f32).to_bits());
    assert_eq!(
        s(1.0e30).add(s(1.0)).to_bits(),
        (1.0e30f32 + 1.0f32).to_bits()
    );
}

#[test]
fn sub_matches_hardware() {
    assert_eq!(s(5.5).sub(s(2.25)).to_bits(), (5.5f32 - 2.25f32).to_bits());
    assert_eq!(s(0.3).sub(s(0.1)).to_bits(), (0.3f32 - 0.1f32).to_bits());
}

#[test]
fn mul_matches_hardware() {
    assert_eq!(s(3.0).mul(s(4.0)).to_bits(), 12.0f32.to_bits());
    assert_eq!(s(0.1).mul(s(0.3)).to_bits(), (0.1f32 * 0.3f32).to_bits());
}

#[test]
fn div_matches_hardware() {
    assert_eq!(s(1.0).div(s(4.0)).to_bits(), 0.25f32.to_bits());
    assert_eq!(s(1.0).div(s(3.0)).to_bits(), (1.0f32 / 3.0f32).to_bits());
}

#[test]
fn div_by_zero_is_infinity() {
    assert_eq!(s(1.0).div(s(0.0)).to_bits(), f32::INFINITY.to_bits());
    assert_eq!(s(-1.0).div(s(0.0)).to_bits(), f32::NEG_INFINITY.to_bits());
}

#[test]
fn zero_div_zero_is_nan() {
    assert!(s(0.0).div(s(0.0)).is_nan());
}

#[test]
fn sqrt_matches_hardware() {
    assert_eq!(s(9.0).sqrt().to_bits(), 3.0f32.to_bits());
    assert_eq!(s(2.0).sqrt().to_bits(), 2.0f32.sqrt().to_bits());
    assert_eq!(s(0.5).sqrt().to_bits(), 0.5f32.sqrt().to_bits());
}

#[test]
fn sqrt_of_negative_is_nan() {
    assert!(s(-1.0).sqrt().is_nan());
}

#[test]
fn square_is_product_with_itself() {
    assert_eq!(s(1.3).square().to_bits(), (1.3f32 * 1.3f32).to_bits());
}

#[test]
fn abs_clears_the_sign_bit() {
    assert_eq!(s(-3.5).abs().to_bits(), 3.5f32.to_bits());
    assert_eq!(s(3.5).abs().to_bits(), 3.5f32.to_bits());
    assert_eq!(s(-0.0).abs().to_bits(), 0.0f32.to_bits());
    assert!(Scalar::from_bits(0xFFC0_0000).abs().is_nan());
}

#[test]
fn neg_flips_the_sign_bit() {
    assert_eq!(s(2.5).neg().to_bits(), (-2.5f32).to_bits());
    assert_eq!(s(0.0).neg().to_bits(), (-0.0f32).to_bits());
}

#[test]
fn is_gt_zero_matches_float_comparison() {
    assert!(s(1.0e-44).is_gt_zero()); // a subnormal
    assert!(s(2.0).is_gt_zero());
    assert!(s(f32::INFINITY).is_gt_zero());
    assert!(!s(0.0).is_gt_zero());
    assert!(!s(-0.0).is_gt_zero());
    assert!(!s(-1.0).is_gt_zero());
    assert!(!s(f32::NAN).is_gt_zero());
}

#[test]
fn named_constants_have_the_ieee_patterns() {
    assert_eq!(f(Scalar::zero()), 0.0f32);
    assert_eq!(f(Scalar::one()), 1.0f32);
    assert_eq!(f(Scalar::neg_one()), -1.0f32);
    assert_eq!(f(Scalar::half()), 0.5f32);
    assert_eq!(f(Scalar::two()), 2.0f32);
    assert!(Scalar::nan().is_nan());
}
