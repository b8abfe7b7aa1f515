//! The camera's configuration. The viewport vectors that need arithmetic
//! are derived from it by the caller.

use vstd::prelude::*;
use crate::scalar::{Scalar, ONE_BITS};
use crate::vec3::{Point3, Vec3};

verus! {

/// Encoding of 16/9, the default aspect ratio.
pub const SIXTEEN_NINTHS_BITS: u64 = 0x3FFC_71C7_1C71_C71C;

/// Encoding of 2.0, the default viewport height.
pub const TWO_BITS: u64 = 0x4000_0000_0000_0000;

/// An eye point looking down the negative z axis through a viewport.
#[derive(Clone, Copy, Debug)]
pub struct Camera {
    pub aspect_ratio: Scalar,
    pub viewport_height: Scalar,
    pub focal_length: Scalar,
    pub origin: Point3,
}

impl Camera {
    pub fn new(aspect_ratio: Scalar, viewport_height: Scalar, focal_length: Scalar, origin: Point3) -> (c: Camera)
        ensures
            c == (Camera { aspect_ratio, viewport_height, focal_length, origin }),
    {
        Camera { aspect_ratio, viewport_height, focal_length, origin }
    }

    pub fn aspect_ratio(&self) -> (r: Scalar)
        ensures
            r == self.aspect_ratio,
    {
        self.aspect_ratio
    }

    pub fn viewport_height(&self) -> (r: Scalar)
        ensures
            r == self.viewport_height,
    {
        self.viewport_height
    }

    pub fn focal_length(&self) -> (r: Scalar)
        ensures
            r == self.focal_length,
    {
        self.focal_length
    }

    pub fn origin(&self) -> (p: Point3)
        ensures
            p == self.origin,
    {
        self.origin
    }

    /// The viewport's vertical edge: `(0, viewport_height, 0)`.
    pub fn vertical(&self) -> (v: Vec3)
        ensures
            v == (Vec3 { x: Scalar { bits: 0 }, y: self.viewport_height, z: Scalar { bits: 0 } }),
    {
        Vec3::new(Scalar::zero(), self.viewport_height, Scalar::zero())
    }
}

impl Default for Camera {
    /// A 16:9 viewport of height 2 at focal length 1, seen from the origin.
    fn default() -> (c: Camera)
        ensures
            c.aspect_ratio.bits == SIXTEEN_NINTHS_BITS,
            c.viewport_height.bits == TWO_BITS,
            c.focal_length.bits == ONE_BITS,
            c.origin == (Vec3 { x: Scalar { bits: 0 }, y: Scalar { bits: 0 }, z: Scalar { bits: 0 } }),
    {
        Camera::new(
            Scalar::from_bits(SIXTEEN_NINTHS_BITS),
            Scalar::from_bits(TWO_BITS),
            Scalar::one(),
            Vec3::default(),
        )
    }
}

} // verus!
