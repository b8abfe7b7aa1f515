//! Clear refractive surfaces such as glass.

use vstd::prelude::*;
use crate::hittable::HitRecord;
use crate::material::{spec_white, white};
use crate::ray::Ray;
use crate::scalar::{Scalar, ONE_BITS};
use crate::vec3::{Color, Vec3};

verus! {

/// A lossless refractive surface, given by its refractive index relative
/// to the surrounding vacuum.
#[derive(Clone, Copy, Debug)]
pub struct Dielectric {
    pub ref_idx: Scalar,
}

impl Dielectric {
    /// The refractive indices on the incident and on the transmitted side
    /// of the surface: `(1, ref_idx)` for a ray that enters through the
    /// front face, `(ref_idx, 1)` for one that leaves from inside.
    pub open spec fn spec_indices(self, front_face: bool) -> (Scalar, Scalar) {
        if front_face {
            (Scalar { bits: ONE_BITS }, self.ref_idx)
        } else {
            (self.ref_idx, Scalar { bits: ONE_BITS })
        }
    }

    /// Snell's law has no solution when `eta_ratio * sin_theta` exceeds 1.
    pub open spec fn spec_must_reflect(eta_sin: Scalar) -> bool {
        (Scalar { bits: ONE_BITS }).spec_lt(eta_sin)
    }

    /// A uniform sample below the reflectance picks reflection.
    pub open spec fn spec_reflects(sample: Scalar, reflectance: Scalar) -> bool {
        sample.spec_lt(reflectance)
    }

    pub fn new(ref_idx: Scalar) -> (m: Dielectric)
        ensures
            m.ref_idx == ref_idx,
    {
        Dielectric { ref_idx }
    }

    /// The pair whose quotient is the effective ratio of indices at the
    /// surface; dividing by 1 is exact, so the back face keeps `ref_idx`.
    pub fn indices(&self, front_face: bool) -> (pair: (Scalar, Scalar))
        ensures
            pair == self.spec_indices(front_face),
    {
        if front_face {
            (Scalar::one(), self.ref_idx)
        } else {
            (self.ref_idx, Scalar::one())
        }
    }

    /// Total internal reflection: with `eta_sin` the product of the ratio
    /// of indices and the sine of the angle of incidence, the ray cannot
    /// refract and is reflected.
    pub fn must_reflect(eta_sin: Scalar) -> (r: bool)
        ensures
            r == Self::spec_must_reflect(eta_sin),
    {
        eta_sin.gt(Scalar::one())
    }

    /// Where refraction is possible, the ray is reflected with the
    /// probability given by the Fresnel reflectance: `sample` is one uniform
    /// draw from `[0, 1)`.
    pub fn reflects(sample: Scalar, reflectance: Scalar) -> (r: bool)
        ensures
            r == Self::spec_reflects(sample, reflectance),
    {
        sample.lt(reflectance)
    }

    /// A dielectric absorbs nothing: the ray leaves the hit point in
    /// `direction` (reflected or refracted), with white attenuation.
    pub fn scatter(&self, rec: &HitRecord, direction: Vec3) -> (out: (Color, Ray, bool))
        ensures
            out.0 == spec_white(),
            out.1 == (Ray { orig: rec.p, dir: direction }),
            out.2,
    {
        (white(), Ray::new(rec.p, direction), true)
    }
}

impl Default for Dielectric {
    fn default() -> (m: Dielectric)
        ensures
            m.ref_idx == (Scalar { bits: 0 }),
    {
        Dielectric { ref_idx: Scalar::zero() }
    }
}

} // verus!
