//! Diffuse surfaces.

use vstd::prelude::*;
use crate::hittable::HitRecord;
use crate::ray::Ray;
use crate::scalar::Scalar;
use crate::vec3::{Color, Vec3};

verus! {

/// An ideal matte surface with one albedo.
#[derive(Clone, Copy, Debug)]
pub struct Lambertian {
    pub albedo: Color,
}

impl Lambertian {
    pub fn new(albedo: Color) -> (m: Lambertian)
        ensures
            m.albedo == albedo,
    {
        Lambertian { albedo }
    }

    /// A diffuse surface never absorbs: the ray leaves the hit point in
    /// `direction` (the normal offset by a random unit vector), attenuated
    /// by the albedo.
    pub fn scatter(&self, rec: &HitRecord, direction: Vec3) -> (out: (Color, Ray, bool))
        ensures
            out.0 == self.albedo,
            out.1 == (Ray { orig: rec.p, dir: direction }),
            out.2,
    {
        (self.albedo, Ray::new(rec.p, direction), true)
    }
}

impl Default for Lambertian {
    fn default() -> (m: Lambertian)
        ensures
            m.albedo == (Vec3 { x: Scalar { bits: 0 }, y: Scalar { bits: 0 }, z: Scalar { bits: 0 } }),
    {
        Lambertian { albedo: Vec3::default() }
    }
}

} // verus!
