//! Reflective surfaces with a roughness.

use vstd::prelude::*;
use crate::hittable::HitRecord;
use crate::ray::Ray;
use crate::scalar::{Scalar, ONE_BITS};
use crate::vec3::{Color, Vec3};

verus! {

/// The fuzz that a metal keeps of the one it was given: values above 1 and
/// NaN become 1, values below 0 become 0.
pub open spec fn spec_clamp_fuzz(fuzz: Scalar) -> Scalar {
    if fuzz.is_nan() || (Scalar { bits: ONE_BITS }).spec_lt(fuzz) {
        Scalar { bits: ONE_BITS }
    } else if fuzz.spec_lt(Scalar { bits: 0 }) {
        Scalar { bits: 0 }
    } else {
        fuzz
    }
}

/// A mirror-like surface: an albedo and a fuzz that perturbs the reflected
/// direction. The fuzz is within `[0, 1]`.
#[derive(Clone, Copy, Debug)]
pub struct Metal {
    albedo: Color,
    fuzz: Scalar,
}

impl Metal {
    #[verifier::type_invariant]
    spec fn fuzz_in_range(self) -> bool {
        (Scalar { bits: 0 }).spec_le(self.fuzz) && self.fuzz.spec_le(Scalar { bits: ONE_BITS })
    }

    pub closed spec fn spec_albedo(self) -> Color {
        self.albedo
    }

    pub closed spec fn spec_fuzz(self) -> Scalar {
        self.fuzz
    }

    pub fn new(albedo: Color, fuzz: Scalar) -> (m: Metal)
        ensures
            m.spec_albedo() == albedo,
            m.spec_fuzz() == spec_clamp_fuzz(fuzz),
    {
        let kept = if fuzz.is_not_a_number() || fuzz.gt(Scalar::one()) {
            Scalar::one()
        } else if fuzz.lt(Scalar::zero()) {
            Scalar::zero()
        } else {
            fuzz
        };
        Metal { albedo, fuzz: kept }
    }

    pub fn albedo(&self) -> (c: Color)
        ensures
            c == self.spec_albedo(),
    {
        self.albedo
    }

    /// The fuzz, which lies in `[0, 1]` whatever the metal was made with.
    pub fn fuzz(&self) -> (f: Scalar)
        ensures
            f == self.spec_fuzz(),
            (Scalar { bits: 0 }).spec_le(f),
            f.spec_le(Scalar { bits: ONE_BITS }),
    {
        proof {
            use_type_invariant(self);
        }
        self.fuzz
    }

    /// The ray leaves the hit point in `direction` (the mirrored direction
    /// plus the fuzzed offset), attenuated by the albedo. `facing` is the dot
    /// product of `direction` with the surface normal: the path goes on only
    /// if the ray still points away from the surface.
    pub fn scatter(&self, rec: &HitRecord, direction: Vec3, facing: Scalar) -> (out: (Color, Ray, bool))
        ensures
            out.0 == self.spec_albedo(),
            out.1 == (Ray { orig: rec.p, dir: direction }),
            out.2 == (Scalar { bits: 0 }).spec_lt(facing),
    {
        (self.albedo, Ray::new(rec.p, direction), facing.gt(Scalar::zero()))
    }
}

impl Default for Metal {
    /// A black, perfectly smooth metal.
    fn default() -> (m: Metal)
        ensures
            m.spec_albedo() == (Vec3 { x: Scalar { bits: 0 }, y: Scalar { bits: 0 }, z: Scalar { bits: 0 } }),
            m.spec_fuzz() == (Scalar { bits: 0 }),
    {
        Metal { albedo: Vec3::default(), fuzz: Scalar::zero() }
    }
}

} // verus!
