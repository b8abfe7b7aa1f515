use raytracer::hittable::HitRecord;
use raytracer::material::lambertian::Lambertian;
use raytracer::material::Material;
use raytracer::scalar::Scalar;
use raytracer::sphere::{inside, Crossing, Sphere};
use raytracer::vec3::{Point3, Vec3};

fn s(v: f64) -> Scalar {
    Scalar::from_bits(v.to_bits())
}

fn f(v: Scalar) -> f64 {
    f64::from_bits(v.to_bits())
}

fn v(x: f64, y: f64, z: f64) -> Vec3 {
    Vec3::new(s(x), s(y), s(z))
}

fn matte() -> Material {
    Material::Lambertian(Lambertian::default())
}

/// The quadratic of a ray from `o` along `d` against a sphere at `c` with
/// radius `r`, in the half-b form.
fn crossing(o: (f64, f64, f64), d: (f64, f64, f64), c: (f64, f64, f64), r: f64) -> Crossing {
    let oc = (o.0 - c.0, o.1 - c.1, o.2 - c.2);
    let a = d.0 * d.0 + d.1 * d.1 + d.2 * d.2;
    let half_b = oc.0 * d.0 + oc.1 * d.1 + oc.2 * d.2;
    let cc = oc.0 * oc.0 + oc.1 * oc.1 + oc.2 * oc.2 - r * r;
    let discriminant = half_b * half_b - a * cc;
    let root = discriminant.sqrt();
    Crossing::new(s(discriminant), s((-half_b - root) / a), s((-half_b + root) / a))
}

#[test]
fn radius() {
    assert_eq!(
        f(Sphere::new(Point3::new(s(0.0), s(0.0), s(0.0)), s(10.0), matte()).radius()),
        10.0,
    )
}

#[test]
fn center() {
    assert_eq!(
        *Sphere::new(v(1.0, 2.0, 3.0), s(10.0), matte()).center(),
        v(1.0, 2.0, 3.0),
    )
}

#[test]
fn sphere_ahead_is_hit_at_the_near_root() {
    let c = crossing((0.0, 0.0, 0.0), (0.0, 0.0, -1.0), (0.0, 0.0, -1.0), 0.5);
    let t = c.hit(s(0.001), s(f64::INFINITY)).expect("the ray hits the sphere");
    assert_eq!(f(t), 0.5);

    let sphere = Sphere::new(v(0.0, 0.0, -1.0), s(0.5), matte());
    let p = (0.0, 0.0, -0.5);
    let outward = ((p.0 - 0.0) / 0.5, (p.1 - 0.0) / 0.5, (p.2 + 1.0) / 0.5);
    let facing = 0.0 * outward.0 + 0.0 * outward.1 + -1.0 * outward.2;
    let rec = sphere.record(t, v(p.0, p.1, p.2), v(outward.0, outward.1, outward.2), s(facing));
    assert_eq!(rec.normal, v(0.0, 0.0, 1.0));
    assert_eq!(rec.p, v(0.0, 0.0, -0.5));
    assert_eq!(f(rec.t), 0.5);
    assert!(rec.front_face);
}

#[test]
fn ray_from_inside_is_hit_at_the_far_root() {
    let c = crossing((0.0, 0.0, -1.0), (0.0, 0.0, -1.0), (0.0, 0.0, -1.0), 0.5);
    assert_eq!(f(c.near), -0.5);
    assert_eq!(f(c.far), 0.5);
    let t = c.hit(s(0.001), s(f64::INFINITY)).expect("the ray leaves the sphere");
    assert_eq!(f(t), 0.5);

    let sphere = Sphere::new(v(0.0, 0.0, -1.0), s(0.5), matte());
    let rec = sphere.record(t, v(0.0, 0.0, -1.5), v(0.0, 0.0, -1.0), s(1.0));
    assert!(!rec.front_face);
    assert_eq!(rec.normal, v(0.0, 0.0, 1.0));
}

#[test]
fn missing_and_grazing_rays_do_not_hit() {
    let miss = crossing((0.0, 0.0, 0.0), (0.0, 1.0, 0.0), (0.0, 0.0, -1.0), 0.5);
    assert!(f(miss.discriminant) < 0.0);
    assert!(miss.hit(s(0.001), s(f64::INFINITY)).is_none());

    let graze = crossing((0.5, 0.0, 0.0), (0.0, 0.0, -1.0), (0.0, 0.0, -1.0), 0.5);
    assert_eq!(f(graze.discriminant), 0.0);
    assert!(graze.hit(s(0.001), s(f64::INFINITY)).is_none());
}

#[test]
fn roots_outside_the_interval_do_not_hit() {
    let c = crossing((0.0, 0.0, 0.0), (0.0, 0.0, -1.0), (0.0, 0.0, -1.0), 0.5);
    assert!(c.hit(s(0.001), s(0.5)).is_none());
    assert!(c.hit(s(1.5), s(f64::INFINITY)).is_none());
    assert_eq!(f(c.hit(s(0.5), s(f64::INFINITY)).unwrap()), 1.5);
    assert_eq!(f(c.hit(s(0.001), s(1.0)).unwrap()), 0.5);
    assert!(c.hit(s(f64::NAN), s(f64::INFINITY)).is_none());
    assert!(c.hit(s(0.001), s(f64::NAN)).is_none());
}

#[test]
fn inside_is_strict_at_both_ends() {
    assert!(inside(s(0.5), s(0.0), s(1.0)));
    assert!(!inside(s(0.0), s(0.0), s(1.0)));
    assert!(!inside(s(1.0), s(0.0), s(1.0)));
    assert!(!inside(s(f64::NAN), s(0.0), s(1.0)));
}

#[test]
fn set_face_normal_turns_the_normal_against_the_ray() {
    let mut rec = HitRecord::default();
    rec.set_face_normal(s(-0.25), &v(0.0, 1.0, 0.0));
    assert!(rec.front_face);
    assert_eq!(rec.normal, v(0.0, 1.0, 0.0));

    rec.set_face_normal(s(0.25), &v(0.0, 1.0, 0.0));
    assert!(!rec.front_face);
    assert_eq!(rec.normal, v(0.0, -1.0, 0.0));

    rec.set_face_normal(s(0.0), &v(0.0, 1.0, 0.0));
    assert!(!rec.front_face);
    assert_eq!(rec.normal, v(0.0, -1.0, 0.0));
}

#[test]
fn default_record() {
    let rec = HitRecord::default();
    assert_eq!(rec.p, v(0.0, 0.0, 0.0));
    assert_eq!(rec.normal, v(0.0, 0.0, 0.0));
    assert_eq!(f(rec.t), 0.0);
    assert!(rec.front_face);
    assert!(matches!(rec.material, Material::Lambertian(_)));
}
