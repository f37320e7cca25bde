//! Tests of the fixed-point scalars, vectors, intervals and the color
//! pipeline.
use raytrace::color::{linear_to_gamma, write_color, INTENSITY_MAX};
use raytrace::fixed::{fp_add, fp_div, fp_mul, fp_neg, fp_sqrt, fp_sub, FP_MAX, FP_ONE};
use raytrace::interval::Interval;
use raytrace::vec3::{reflect, Vec3};

#[test]
fn scalar_arithmetic_is_exact_on_round_values() {
    let half = FP_ONE / 2;
    let quarter = FP_ONE / 4;
    assert_eq!(fp_add(half, quarter), half + quarter);
    assert_eq!(fp_sub(half, quarter), quarter);
    assert_eq!(fp_mul(half, half), quarter);
    assert_eq!(fp_div(quarter, half), half);
    assert_eq!(fp_neg(half), -half);
    assert_eq!(fp_mul(FP_ONE, 12345), 12345);
}

#[test]
fn scalar_arithmetic_saturates() {
    assert_eq!(fp_add(FP_MAX, FP_MAX), FP_MAX);
    assert_eq!(fp_sub(-FP_MAX, FP_MAX), -FP_MAX);
    assert_eq!(fp_mul(FP_MAX, FP_MAX), FP_MAX);
    assert_eq!(fp_div(FP_MAX, 1), FP_MAX);
    assert_eq!(fp_div(12345, 0), 0);
}

#[test]
fn square_root_is_exact_on_perfect_squares() {
    assert_eq!(fp_sqrt(FP_ONE), FP_ONE);
    assert_eq!(fp_sqrt(FP_ONE / 4), FP_ONE / 2);
    assert_eq!(fp_sqrt(4 * FP_ONE), 2 * FP_ONE);
    assert_eq!(fp_sqrt(0), 0);
    assert_eq!(fp_sqrt(-FP_ONE), 0);
}

#[test]
fn interval_membership_and_clamp() {
    let iv = Interval::new(10, 20);
    assert!(iv.contains(10));
    assert!(iv.contains(20));
    assert!(!iv.surrounds(10));
    assert!(!iv.surrounds(20));
    assert!(iv.surrounds(15));
    assert!(!iv.contains(9));
    assert_eq!(iv.clamp(5), 10);
    assert_eq!(iv.clamp(25), 20);
    assert_eq!(iv.clamp(15), 15);
    assert_eq!(iv.size(), 10);
    assert!(Interval::empty().size() < 0);
}

#[test]
fn empty_and_universe_intervals() {
    let empty = Interval::empty();
    assert!(!empty.contains(0));
    assert!(!empty.contains(FP_MAX));
    let universe = Interval::universe();
    assert!(universe.contains(0));
    assert!(universe.contains(-FP_MAX));
    assert!(universe.contains(FP_MAX));
}

#[test]
fn vector_dot_cross_and_length() {
    let a = Vec3::new(FP_ONE, 0, 0);
    let b = Vec3::new(0, FP_ONE, 0);
    assert_eq!(a.dot(&b), 0);
    assert_eq!(a.dot(&a), FP_ONE);
    assert_eq!(a.cross(&b), Vec3::new(0, 0, FP_ONE));
    let v = Vec3::new(3 * FP_ONE, 4 * FP_ONE, 0);
    assert_eq!(v.length_squared(), 25 * FP_ONE);
    assert_eq!(v.length(), 5 * FP_ONE);
    let u = v.unit();
    assert_eq!(u, Vec3::new(3 * FP_ONE / 5, 4 * FP_ONE / 5, 0));
}

#[test]
fn unit_of_zero_vector_is_zero() {
    assert_eq!(Vec3::new(0, 0, 0).unit(), Vec3::new(0, 0, 0));
}

#[test]
fn reflection_mirrors_about_the_normal() {
    let v = Vec3::new(FP_ONE, -FP_ONE, 0);
    let n = Vec3::new(0, FP_ONE, 0);
    assert_eq!(reflect(&v, &n), Vec3::new(FP_ONE, FP_ONE, 0));
}

#[test]
fn gamma_transform_is_the_square_root_of_positive_components() {
    assert_eq!(linear_to_gamma(FP_ONE / 4), FP_ONE / 2);
    assert_eq!(linear_to_gamma(FP_ONE), FP_ONE);
    assert_eq!(linear_to_gamma(0), 0);
    assert_eq!(linear_to_gamma(-FP_ONE), 0);
}

#[test]
fn color_pipeline_round_trip() {
    // Linear (1.0, 0.0, 0.25) -> gamma (1.0, 0.0, 0.5) -> clamped
    // (0.999, 0.0, 0.5) -> bytes (255, 0, 128).
    let linear = Vec3::new(FP_ONE, 0, FP_ONE / 4);
    let rgb = write_color(&linear);
    assert_eq!(rgb, (255, 0, 128));
}

#[test]
fn color_pipeline_clamps_negative_and_oversized_channels() {
    let hot = Vec3::new(100 * FP_ONE, -FP_ONE, FP_ONE / 64);
    let rgb = write_color(&hot);
    assert_eq!(rgb.0, 255);
    assert_eq!(rgb.1, 0);
    // sqrt(1/64) = 1/8 -> 256 / 8 = 32.
    assert_eq!(rgb.2, 32);
    assert!(INTENSITY_MAX < FP_ONE);
}
