use raytracer::render::{black, horizon, zenith};
use raytracer::scalar::Scalar;
use raytracer::vec3::{Color, Vec3};

fn s(v: f64) -> Scalar {
    Scalar::from_bits(v.to_bits())
}

fn f(v: Scalar) -> f64 {
    f64::from_bits(v.to_bits())
}

fn v(x: f64, y: f64, z: f64) -> Vec3 {
    Vec3::new(s(x), s(y), s(z))
}

#[test]
fn xyz() {
    let vec = v(0.0, 1.0, 2.0);
    assert_eq!(f(vec.x()), 0.0);
    assert_eq!(f(vec.y()), 1.0);
    assert_eq!(f(vec.z()), 2.0);
}

#[test]
fn neg() {
    assert_eq!(-v(0.0, 1.0, 2.0), v(0.0, -1.0, -2.0));
}

#[test]
fn to_rgb() {
    assert_eq!(v(0.0, 0.5, 1.0).to_rgb(), image::Rgb([0, 128, 255]))
}

#[test]
fn to_rgb_keeps_the_channel_order() {
    assert_eq!(v(0.25, 0.5, 0.75).to_rgb(), image::Rgb([64, 128, 192]));
    assert_eq!(v(0.75, 0.25, 0.5).to_rgb(), image::Rgb([192, 64, 128]));
}

#[test]
fn to_rgb_saturates_and_drops_nan() {
    assert_eq!(v(-1.0, 7.0, f64::NAN).to_rgb(), image::Rgb([0, 255, 0]));
    assert_eq!(v(f64::INFINITY, f64::NEG_INFINITY, 0.999).to_rgb(), image::Rgb([255, 0, 255]));
}

#[test]
fn equality_is_that_of_the_numbers() {
    assert_eq!(v(0.0, 1.0, 2.0), v(-0.0, 1.0, 2.0));
    assert_ne!(v(0.0, 1.0, 2.0), v(0.0, 1.0, 2.5));
    assert_ne!(v(f64::NAN, 1.0, 2.0), v(f64::NAN, 1.0, 2.0));
}

#[test]
fn negation_flips_every_sign() {
    let n = -v(0.0, -3.5, f64::INFINITY);
    assert_eq!(n.x().to_bits(), (-0.0f64).to_bits());
    assert_eq!(f(n.y()), 3.5);
    assert_eq!(f(n.z()), f64::NEG_INFINITY);
}

#[test]
fn default_is_the_zero_vector() {
    assert_eq!(Vec3::default(), v(0.0, 0.0, 0.0));
}

#[test]
fn clamp_holds_each_channel() {
    let c: Color = v(-0.5, 0.25, 3.0).clamp(s(0.0), s(1.0));
    assert_eq!(c, v(0.0, 0.25, 1.0));
}

#[test]
fn named_colours() {
    assert_eq!(black(), v(0.0, 0.0, 0.0));
    assert_eq!(horizon(), v(1.0, 1.0, 1.0));
    assert_eq!(zenith(), v(0.5, 0.7, 1.0));
}
