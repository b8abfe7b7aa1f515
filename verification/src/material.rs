//! Surface materials: what a surface does to a ray that hits it.
//!
//! Each material answers with an attenuation, a scattered ray and a flag
//! that says whether the path goes on. The scattered direction is computed
//! by the caller, in floating point; what the material decides stands here.

pub mod dielectric;
pub mod lambertian;
pub mod metal;

use vstd::prelude::*;
use crate::material::dielectric::Dielectric;
use crate::material::lambertian::Lambertian;
use crate::material::metal::Metal;
use crate::scalar::{Scalar, ONE_BITS};
use crate::vec3::{Color, Vec3};

verus! {

/// The closed set of materials a surface can have.
#[derive(Clone, Copy, Debug)]
pub enum Material {
    Lambertian(Lambertian),
    Metal(Metal),
    Dielectric(Dielectric),
}

/// The colour `(1, 1, 1)`.
pub open spec fn spec_white() -> Color {
    Vec3 { x: Scalar { bits: ONE_BITS }, y: Scalar { bits: ONE_BITS }, z: Scalar { bits: ONE_BITS } }
}

/// The colour `(1, 1, 1)`: what a lossless surface leaves of the light.
pub fn white() -> (c: Color)
    ensures
        c == spec_white(),
{
    Vec3::new(Scalar::one(), Scalar::one(), Scalar::one())
}

impl Material {
    /// The fraction of light, per channel, that the surface passes on: the
    /// albedo of a diffuse or metallic surface, white for a dielectric.
    pub open spec fn spec_attenuation(self) -> Color {
        match self {
            Material::Lambertian(m) => m.albedo,
            Material::Metal(m) => m.spec_albedo(),
            Material::Dielectric(_) => spec_white(),
        }
    }

    pub fn attenuation(&self) -> (c: Color)
        ensures
            c == self.spec_attenuation(),
    {
        match self {
            Material::Lambertian(m) => m.albedo,
            Material::Metal(m) => m.albedo(),
            Material::Dielectric(_) => white(),
        }
    }
}

impl Default for Material {
    /// A black diffuse surface.
    fn default() -> (m: Material)
        ensures
            m == Material::Lambertian(Lambertian { albedo: Vec3 { x: Scalar { bits: 0 }, y: Scalar { bits: 0 }, z: Scalar { bits: 0 } } }),
    {
        Material::Lambertian(Lambertian::default())
    }
}

} // verus!
