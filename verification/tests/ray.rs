use raytracer::ray::Ray;
use raytracer::scalar::Scalar;
use raytracer::vec3::{Point3, Vec3};

fn s(v: f64) -> Scalar {
    Scalar::from_bits(v.to_bits())
}

fn v(x: f64, y: f64, z: f64) -> Vec3 {
    Vec3::new(s(x), s(y), s(z))
}

#[test]
fn origin() {
    let point: Point3 = v(1.0, 2.0, 3.0);
    let ray = Ray::new(point.clone(), v(3.0, 1.0, 2.0));

    assert_eq!(*ray.origin(), point)
}

#[test]
fn dir() {
    let dir = v(1.0, 2.0, 3.0);
    let ray = Ray::new(v(3.0, 1.0, 2.0), dir.clone());

    assert_eq!(*ray.direction(), dir)
}
