//! The integrator's control and the reduction of a pixel.
//!
//! Tracing a ray alternates floating-point work (intersecting the scene,
//! scattering, multiplying colours) with decisions; the decisions are the
//! functions of this module, and the caller runs the recursion.

use vstd::prelude::*;
use vstd::arithmetic::div_mod::lemma_basic_div;
use vstd::arithmetic::power2::{pow2, lemma_pow2_pos};
use crate::scalar::{lemma_channel_below_one, lemma_channel_is_monotone, Scalar, INFINITY_BITS, ONE_BITS};
use crate::vec3::{rgb_channels, Color, Vec3};

verus! {

/// Encoding of 0.001, the lower end of the hit interval.
pub const SHADOW_ACNE_BITS: u64 = 0x3F50_624D_D2F1_A9FC;

/// Encoding of `1 - 2^-52`, the largest channel value that is kept.
pub const CHANNEL_LIMIT_BITS: u64 = 0x3FEF_FFFF_FFFF_FFFE;

/// Encoding of 0.5.
pub const HALF_BITS: u64 = 0x3FE0_0000_0000_0000;

/// Encoding of 0.7.
pub const SEVEN_TENTHS_BITS: u64 = 0x3FE6_6666_6666_6666;

/// What the radiance along a ray is made of.
#[derive(Clone, Copy, Debug, PartialEq, Eq, Structural)]
pub enum Radiance {
    /// No light: `(0, 0, 0)`.
    Black,
    /// The background gradient in the ray's direction.
    Background,
    /// The attenuation of the hit surface times the radiance along the
    /// scattered ray, which is traced with the budget `depth`.
    Attenuated { depth: usize },
}

/// The radiance along a ray traced with budget `depth`. `scatter` is what
/// the ray met: nothing (`None`), or a surface that passes the ray on
/// (`Some(true)`) or absorbs it (`Some(false)`).
pub open spec fn spec_ray_color(depth: usize, scatter: Option<bool>) -> Radiance {
    if depth == 0 {
        Radiance::Black
    } else {
        match scatter {
            None => Radiance::Background,
            Some(false) => Radiance::Black,
            Some(true) => Radiance::Attenuated { depth: (depth - 1) as usize },
        }
    }
}

/// How many surfaces a path scatters off: `path[k]` is what the ray met on
/// its bounce `k`.
pub open spec fn spec_bounces(depth: usize, path: Seq<Option<bool>>) -> nat
    decreases path.len(),
{
    if path.len() == 0 {
        0
    } else {
        match spec_ray_color(depth, path[0]) {
            Radiance::Attenuated { depth: rest } => 1 + spec_bounces(rest, path.skip(1)),
            _ => 0,
        }
    }
}

/// A ray without budget is black, whatever it would have met.
pub proof fn lemma_exhausted_is_black(scatter: Option<bool>)
    ensures
        spec_ray_color(0, scatter) == Radiance::Black,
{
}

/// Every recursive step lowers the budget by exactly one.
pub proof fn lemma_budget_decreases(depth: usize, scatter: Option<bool>)
    ensures
        spec_ray_color(depth, scatter) matches Radiance::Attenuated { depth: rest } ==> rest + 1 == depth,
{
}

/// No path scatters more often than its budget allows.
pub proof fn lemma_bounces_within_budget(depth: usize, path: Seq<Option<bool>>)
    ensures
        spec_bounces(depth, path) <= depth,
        spec_bounces(depth, path) <= path.len(),
    decreases path.len(),
{
    if path.len() > 0 {
        if let Radiance::Attenuated { depth: rest } = spec_ray_color(depth, path[0]) {
            lemma_bounces_within_budget(rest, path.skip(1));
        }
    }
}

/// The budget is used up: the ray is black and nothing is traced.
pub fn exhausted(depth: usize) -> (r: bool)
    ensures
        r == (depth == 0),
        r ==> forall|scatter: Option<bool>| spec_ray_color(depth, scatter) == Radiance::Black,
{
    depth == 0
}

/// The integrator's decision for one ray; see `spec_ray_color`.
pub fn ray_color(depth: usize, scatter: Option<bool>) -> (radiance: Radiance)
    ensures
        radiance == spec_ray_color(depth, scatter),
        depth == 0 ==> radiance == Radiance::Black,
{
    if depth == 0 {
        return Radiance::Black;
    }
    match scatter {
        None => Radiance::Background,
        Some(false) => Radiance::Black,
        Some(true) => Radiance::Attenuated { depth: depth - 1 },
    }
}

/// The interval `(0.001, +inf)` in which a traced ray looks for a hit; the
/// lower end keeps a scattered ray from hitting the surface it left.
pub fn hit_interval() -> (ends: (Scalar, Scalar))
    ensures
        ends.0.bits == SHADOW_ACNE_BITS,
        ends.1.bits == INFINITY_BITS,
{
    (Scalar::from_bits(SHADOW_ACNE_BITS), Scalar::infinity())
}

/// `(0, 0, 0)`: the radiance of an absorbed or exhausted ray.
pub fn black() -> (c: Color)
    ensures
        c == (Vec3 { x: Scalar { bits: 0 }, y: Scalar { bits: 0 }, z: Scalar { bits: 0 } }),
{
    Vec3::default()
}

/// The background at the horizon: white, `(1, 1, 1)`.
pub fn horizon() -> (c: Color)
    ensures
        c == (Vec3 { x: Scalar { bits: ONE_BITS }, y: Scalar { bits: ONE_BITS }, z: Scalar { bits: ONE_BITS } }),
{
    Vec3::new(Scalar::one(), Scalar::one(), Scalar::one())
}

/// The background at the zenith: sky blue, `(0.5, 0.7, 1.0)`.
pub fn zenith() -> (c: Color)
    ensures
        c == (Vec3 {
            x: Scalar { bits: HALF_BITS },
            y: Scalar { bits: SEVEN_TENTHS_BITS },
            z: Scalar { bits: ONE_BITS },
        }),
{
    Vec3::new(Scalar::from_bits(HALF_BITS), Scalar::from_bits(SEVEN_TENTHS_BITS), Scalar::one())
}

/// The row of the scene, counted upwards, that the image row `y`, counted
/// from the top, shows.
pub fn flip_row(image_height: u32, y: u32) -> (row: u32)
    requires
        y <= image_height,
    ensures
        row == image_height - y,
{
    image_height - y
}

/// A colour with each channel held to `[0, 1 - 2^-52]`.
pub open spec fn spec_clamp_color(color: Color) -> Color {
    color.spec_clamp(Scalar { bits: 0 }, Scalar { bits: CHANNEL_LIMIT_BITS })
}

/// Holds each channel of a gamma-corrected colour to `[0, 1 - 2^-52]`.
pub fn clamp_color(color: Color) -> (c: Color)
    ensures
        c == spec_clamp_color(color),
{
    color.clamp(Scalar::zero(), Scalar::from_bits(CHANNEL_LIMIT_BITS))
}

/// The finished pixel of a gamma-corrected colour: each channel clamped,
/// then converted to eight bits.
pub fn to_pixel(color: Color) -> (pixel: image::Rgb<u8>)
    ensures
        rgb_channels(pixel) == spec_clamp_color(color).spec_channels(),
{
    clamp_color(color).to_rgb()
}

/// A channel as `clamp_color` leaves it.
pub open spec fn spec_clamp_channel(v: Scalar) -> Scalar {
    v.spec_clamp(Scalar { bits: 0 }, Scalar { bits: CHANNEL_LIMIT_BITS })
}

/// A clamped channel that is a number lies in `[0, 1 - 2^-52]`, and its
/// byte is exactly `floor(256 * v)`: the clamp keeps the conversion from
/// saturating.
pub proof fn lemma_finished_channel(v: Scalar)
    requires
        !v.is_nan(),
    ensures
        (Scalar { bits: 0 }).spec_le(spec_clamp_channel(v)),
        spec_clamp_channel(v).spec_le(Scalar { bits: CHANNEL_LIMIT_BITS }),
        spec_clamp_channel(v).floor_scaled(8) < 256,
        spec_clamp_channel(v).spec_to_channel() == spec_clamp_channel(v).floor_scaled(8),
{
    let c = spec_clamp_channel(v);
    if c.is_negative() {
        // Only -0.0 is left with the sign bit.
        assert(c.magnitude() == 0);
        lemma_pow2_pos(1066);
        lemma_basic_div(0, pow2(1066) as int);
    } else {
        lemma_channel_below_one(c);
    }
}

/// Of two channels the brighter never gets the smaller byte.
pub proof fn lemma_finished_channel_is_monotone(a: Scalar, b: Scalar)
    requires
        a.spec_le(b),
    ensures
        spec_clamp_channel(a).spec_to_channel() <= spec_clamp_channel(b).spec_to_channel(),
{
    lemma_channel_is_monotone(spec_clamp_channel(a), spec_clamp_channel(b));
}

} // verus!
