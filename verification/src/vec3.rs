//! Three-component values: directions, points and linear colours.

use vstd::prelude::*;
use vstd::std_specs::cmp::PartialEqSpecImpl;
use vstd::std_specs::ops::NegSpecImpl;
use core::ops::Neg;
use crate::scalar::Scalar;

verus! {

/// The pixel type of the `image` crate, carried through as an opaque value.
#[verifier::external_type_specification]
#[verifier::external_body]
#[verifier::reject_recursive_types(T)]
pub struct ExRgb<T>(image::Rgb<T>);

/// The three channels that an `image::Rgb<u8>` holds: red, green, blue.
pub uninterp spec fn rgb_channels(pixel: image::Rgb<u8>) -> Seq<u8>;

/// `image::Rgb` is a tuple struct around `[T; 3]`; this builds one from its
/// three channels, which the pixel then holds in the order given.
#[verifier::external_body]
fn rgb_pixel(r: u8, g: u8, b: u8) -> (pixel: image::Rgb<u8>)
    ensures
        rgb_channels(pixel) == seq![r, g, b],
{
    image::Rgb([r, g, b])
}

/// Three scalars. `Point3` and `Color` are the same type in another role.
#[derive(Clone, Copy, Debug)]
pub struct Vec3 {
    pub x: Scalar,
    pub y: Scalar,
    pub z: Scalar,
}

pub type Point3 = Vec3;

pub type Color = Vec3;

impl Vec3 {
    /// Component-wise negation.
    pub open spec fn spec_neg(self) -> Vec3 {
        Vec3 { x: self.x.spec_neg(), y: self.y.spec_neg(), z: self.z.spec_neg() }
    }

    /// Component-wise IEEE equality.
    pub open spec fn spec_eq(self, other: Vec3) -> bool {
        self.x.spec_eq(other.x) && self.y.spec_eq(other.y) && self.z.spec_eq(other.z)
    }

    /// The colour with each channel clamped to `[lo, hi]`.
    pub open spec fn spec_clamp(self, lo: Scalar, hi: Scalar) -> Vec3 {
        Vec3 {
            x: self.x.spec_clamp(lo, hi),
            y: self.y.spec_clamp(lo, hi),
            z: self.z.spec_clamp(lo, hi),
        }
    }

    /// The three eight-bit channels of a colour.
    pub open spec fn spec_channels(self) -> Seq<u8> {
        seq![self.x.spec_to_channel(), self.y.spec_to_channel(), self.z.spec_to_channel()]
    }

    pub fn new(x: Scalar, y: Scalar, z: Scalar) -> (v: Vec3)
        ensures
            v == (Vec3 { x, y, z }),
    {
        Vec3 { x, y, z }
    }

    pub fn x(&self) -> (r: Scalar)
        ensures
            r == self.x,
    {
        self.x
    }

    pub fn y(&self) -> (r: Scalar)
        ensures
            r == self.y,
    {
        self.y
    }

    pub fn z(&self) -> (r: Scalar)
        ensures
            r == self.z,
    {
        self.z
    }

    /// Each channel clamped to `[lo, hi]`.
    pub fn clamp(&self, lo: Scalar, hi: Scalar) -> (c: Vec3)
        ensures
            c == self.spec_clamp(lo, hi),
    {
        Vec3 { x: self.x.clamp(lo, hi), y: self.y.clamp(lo, hi), z: self.z.clamp(lo, hi) }
    }

    /// The pixel of a linear colour: each channel is `floor(256 * v)` held
    /// to `0..=255`.
    pub fn to_rgb(&self) -> (pixel: image::Rgb<u8>)
        ensures
            rgb_channels(pixel) == self.spec_channels(),
    {
        rgb_pixel(self.x.to_channel(), self.y.to_channel(), self.z.to_channel())
    }
}

impl PartialEq for Vec3 {
    fn eq(&self, other: &Vec3) -> (r: bool) {
        self.x == other.x && self.y == other.y && self.z == other.z
    }
}

impl PartialEqSpecImpl for Vec3 {
    open spec fn obeys_eq_spec() -> bool {
        true
    }

    open spec fn eq_spec(&self, other: &Vec3) -> bool {
        self.spec_eq(*other)
    }
}

impl Neg for Vec3 {
    type Output = Vec3;

    fn neg(self) -> (r: Vec3) {
        Vec3 { x: self.x.neg(), y: self.y.neg(), z: self.z.neg() }
    }
}

impl NegSpecImpl for Vec3 {
    open spec fn obeys_neg_spec() -> bool {
        true
    }

    open spec fn neg_req(self) -> bool {
        true
    }

    open spec fn neg_spec(self) -> Vec3 {
        self.spec_neg()
    }
}

impl Default for Vec3 {
    /// The zero vector, which is also black.
    fn default() -> (v: Vec3)
        ensures
            v == (Vec3 { x: Scalar { bits: 0 }, y: Scalar { bits: 0 }, z: Scalar { bits: 0 } }),
    {
        Vec3 { x: Scalar::zero(), y: Scalar::zero(), z: Scalar::zero() }
    }
}

} // verus!
