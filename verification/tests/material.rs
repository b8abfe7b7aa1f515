use raytracer::hittable::HitRecord;
use raytracer::material::dielectric::Dielectric;
use raytracer::material::lambertian::Lambertian;
use raytracer::material::metal::Metal;
use raytracer::material::{white, Material};
use raytracer::scalar::Scalar;
use raytracer::vec3::Vec3;

fn s(v: f64) -> Scalar {
    Scalar::from_bits(v.to_bits())
}

fn f(v: Scalar) -> f64 {
    f64::from_bits(v.to_bits())
}

fn v(x: f64, y: f64, z: f64) -> Vec3 {
    Vec3::new(s(x), s(y), s(z))
}

fn record_at(p: Vec3, normal: Vec3) -> HitRecord {
    HitRecord::new(p, normal, Material::default(), s(1.0), true)
}

#[test]
fn metal_fuzz_is_held_to_the_unit_interval() {
    let albedo = v(0.8, 0.6, 0.2);
    assert_eq!(f(Metal::new(albedo, s(0.3)).fuzz()), 0.3);
    assert_eq!(f(Metal::new(albedo, s(1.0)).fuzz()), 1.0);
    assert_eq!(f(Metal::new(albedo, s(0.0)).fuzz()), 0.0);
    assert_eq!(f(Metal::new(albedo, s(7.5)).fuzz()), 1.0);
    assert_eq!(f(Metal::new(albedo, s(f64::INFINITY)).fuzz()), 1.0);
    assert_eq!(f(Metal::new(albedo, s(-0.5)).fuzz()), 0.0);
    assert_eq!(f(Metal::new(albedo, s(f64::NAN)).fuzz()), 1.0);
    assert_eq!(Metal::new(albedo, s(0.3)).albedo(), albedo);
    assert_eq!(f(Metal::default().fuzz()), 0.0);
}

#[test]
fn smooth_metal_mirrors_the_ray() {
    // Incoming (0,0,-1) off the normal (0,0,1): v - 2 (v.n) n = (0,0,1).
    let incoming = (0.0f64, 0.0f64, -1.0f64);
    let normal = (0.0f64, 0.0f64, 1.0f64);
    let d = incoming.0 * normal.0 + incoming.1 * normal.1 + incoming.2 * normal.2;
    let reflected = (
        incoming.0 - 2.0 * d * normal.0,
        incoming.1 - 2.0 * d * normal.1,
        incoming.2 - 2.0 * d * normal.2,
    );
    let facing = reflected.0 * normal.0 + reflected.1 * normal.1 + reflected.2 * normal.2;

    let albedo = v(0.8, 0.8, 0.8);
    let metal = Metal::new(albedo, s(0.0));
    let rec = record_at(v(1.0, 2.0, 3.0), v(normal.0, normal.1, normal.2));
    let (attenuation, scattered, goes_on) =
        metal.scatter(&rec, v(reflected.0, reflected.1, reflected.2), s(facing));
    assert_eq!(attenuation, albedo);
    assert_eq!(*scattered.direction(), v(0.0, 0.0, 1.0));
    assert_eq!(*scattered.origin(), v(1.0, 2.0, 3.0));
    assert!(goes_on);
}

#[test]
fn metal_absorbs_a_ray_that_points_into_the_surface() {
    let metal = Metal::new(v(0.8, 0.6, 0.2), s(1.0));
    let rec = record_at(v(0.0, 0.0, 0.0), v(0.0, 0.0, 1.0));
    let (_, _, goes_on) = metal.scatter(&rec, v(0.5, 0.0, -0.1), s(-0.1));
    assert!(!goes_on);
    let (_, _, goes_on) = metal.scatter(&rec, v(0.5, 0.0, 0.0), s(0.0));
    assert!(!goes_on);
    let (_, _, goes_on) = metal.scatter(&rec, v(0.5, 0.0, 0.0), s(f64::NAN));
    assert!(!goes_on);
}

#[test]
fn lambertian_always_scatters_with_its_albedo() {
    let albedo = v(0.7, 0.3, 0.3);
    let matte = Lambertian::new(albedo);
    let rec = record_at(v(4.0, 5.0, 6.0), v(0.0, 1.0, 0.0));
    let (attenuation, scattered, goes_on) = matte.scatter(&rec, v(0.1, 1.2, -0.3));
    assert_eq!(attenuation, albedo);
    assert_eq!(*scattered.origin(), v(4.0, 5.0, 6.0));
    assert_eq!(*scattered.direction(), v(0.1, 1.2, -0.3));
    assert!(goes_on);
    assert_eq!(Lambertian::default().albedo, v(0.0, 0.0, 0.0));
}

#[test]
fn dielectric_is_lossless() {
    let glass = Dielectric::new(s(1.5));
    let rec = record_at(v(4.0, 5.0, 6.0), v(0.0, 1.0, 0.0));
    let (attenuation, scattered, goes_on) = glass.scatter(&rec, v(0.0, -1.0, 0.0));
    assert_eq!(attenuation, v(1.0, 1.0, 1.0));
    assert_eq!(*scattered.origin(), v(4.0, 5.0, 6.0));
    assert_eq!(*scattered.direction(), v(0.0, -1.0, 0.0));
    assert!(goes_on);
}

#[test]
fn dielectric_ratio_flips_with_the_face() {
    let glass = Dielectric::new(s(1.5));
    let (n_i, n_t) = glass.indices(true);
    assert_eq!(f(n_i) / f(n_t), 1.0 / 1.5);
    let (n_i, n_t) = glass.indices(false);
    assert_eq!(f(n_i) / f(n_t), 1.5);
}

#[test]
fn ray_along_the_normal_is_never_totally_reflected() {
    // ref_idx 1.5, cos_theta 1, front face: eta * sin_theta = 0.
    let glass = Dielectric::new(s(1.5));
    let (n_i, n_t) = glass.indices(true);
    let eta = f(n_i) / f(n_t);
    let cos_theta = 1.0f64;
    let sin_theta = (1.0 - cos_theta * cos_theta).sqrt();
    assert_eq!(eta * sin_theta, 0.0);
    assert!(!Dielectric::must_reflect(s(eta * sin_theta)));
}

#[test]
fn total_internal_reflection_starts_above_one() {
    assert!(Dielectric::must_reflect(s(1.2)));
    assert!(Dielectric::must_reflect(s(1.0 + f64::EPSILON)));
    assert!(!Dielectric::must_reflect(s(1.0)));
    assert!(!Dielectric::must_reflect(s(0.3)));
    assert!(!Dielectric::must_reflect(s(f64::NAN)));
}

#[test]
fn reflection_is_drawn_below_the_reflectance() {
    let r0 = ((1.0f64 - 1.5) / (1.0 + 1.5)) * ((1.0f64 - 1.5) / (1.0 + 1.5));
    assert!(Dielectric::reflects(s(0.0), s(r0)));
    assert!(Dielectric::reflects(s(0.039), s(r0)));
    assert!(!Dielectric::reflects(s(r0), s(r0)));
    assert!(!Dielectric::reflects(s(0.5), s(r0)));
    assert!(!Dielectric::reflects(s(0.0), s(0.0)));
}

#[test]
fn attenuation_by_material() {
    let albedo = v(0.8, 0.6, 0.2);
    assert_eq!(Material::Lambertian(Lambertian::new(albedo)).attenuation(), albedo);
    assert_eq!(Material::Metal(Metal::new(albedo, s(0.5))).attenuation(), albedo);
    assert_eq!(Material::Dielectric(Dielectric::new(s(1.5))).attenuation(), white());
    assert_eq!(white(), v(1.0, 1.0, 1.0));
    assert_eq!(f(Dielectric::default().ref_idx), 0.0);
}
