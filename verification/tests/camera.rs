use raytracer::camera::Camera;
use raytracer::scalar::Scalar;
use raytracer::vec3::{Point3, Vec3};

fn s(v: f64) -> Scalar {
    Scalar::from_bits(v.to_bits())
}

fn f(v: Scalar) -> f64 {
    f64::from_bits(v.to_bits())
}

#[test]
fn default_aspect_ratio() {
    assert_eq!(f(Camera::default().aspect_ratio()), 16.0 / 9.0)
}

#[test]
fn default_viewport_height() {
    assert_eq!(f(Camera::default().viewport_height()), 2.0)
}

#[test]
fn default_focal_length() {
    assert_eq!(f(Camera::default().focal_length()), 1.0)
}

#[test]
fn default_origin() {
    assert_eq!(Camera::default().origin(), Point3::new(s(0.0), s(0.0), s(0.0)))
}

#[test]
fn camera_keeps_its_configuration() {
    let origin = Point3::new(s(1.0), s(-2.0), s(3.5));
    let camera = Camera::new(s(16.0 / 9.0), s(2.0), s(0.8), origin);
    assert_eq!(f(camera.aspect_ratio()), 16.0 / 9.0);
    assert_eq!(f(camera.viewport_height()), 2.0);
    assert_eq!(f(camera.focal_length()), 0.8);
    assert_eq!(camera.origin(), origin);
}

#[test]
fn vertical_edge_is_the_viewport_height_along_y() {
    let camera = Camera::new(s(1.5), s(3.0), s(1.0), Point3::new(s(0.0), s(0.0), s(0.0)));
    assert_eq!(camera.vertical(), Vec3::new(s(0.0), s(3.0), s(0.0)));
}
