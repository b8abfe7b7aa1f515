//! Spheres, and the rule that picks the hit among the two places where a
//! ray's line crosses one.

use vstd::prelude::*;
use crate::hittable::HitRecord;
use crate::material::Material;
use crate::scalar::Scalar;
use crate::vec3::{Point3, Vec3};

verus! {

/// The solution of the quadratic `|O + tD - C|^2 = r^2`: its reduced
/// discriminant and its two roots, the smaller one first.
#[derive(Clone, Copy, Debug)]
pub struct Crossing {
    pub discriminant: Scalar,
    pub near: Scalar,
    pub far: Scalar,
}

/// `t` lies strictly inside `(t_min, t_max)`.
pub open spec fn spec_inside(t: Scalar, t_min: Scalar, t_max: Scalar) -> bool {
    t.spec_lt(t_max) && t_min.spec_lt(t)
}

/// `t` lies strictly inside `(t_min, t_max)`; never true of a NaN.
pub fn inside(t: Scalar, t_min: Scalar, t_max: Scalar) -> (r: bool)
    ensures
        r == spec_inside(t, t_min, t_max),
{
    t.lt(t_max) && t.gt(t_min)
}

impl Crossing {
    /// The far root is not below the near one.
    pub open spec fn ordered(self) -> bool {
        !self.far.spec_lt(self.near)
    }

    /// The line meets the surface in two places.
    pub open spec fn crosses(self) -> bool {
        (Scalar { bits: 0 }).spec_lt(self.discriminant)
    }

    /// The hit within `(t_min, t_max)`: none unless the discriminant is
    /// positive; else the near root if it lies inside the interval, else
    /// the far root if that one does.
    pub open spec fn spec_hit(self, t_min: Scalar, t_max: Scalar) -> Option<Scalar> {
        if !self.crosses() {
            None
        } else if spec_inside(self.near, t_min, t_max) {
            Some(self.near)
        } else if spec_inside(self.far, t_min, t_max) {
            Some(self.far)
        } else {
            None
        }
    }

    pub fn new(discriminant: Scalar, near: Scalar, far: Scalar) -> (c: Crossing)
        ensures
            c == (Crossing { discriminant, near, far }),
    {
        Crossing { discriminant, near, far }
    }

    /// The ray parameter of the hit within `(t_min, t_max)`, if there is one.
    pub fn hit(&self, t_min: Scalar, t_max: Scalar) -> (t: Option<Scalar>)
        ensures
            t == self.spec_hit(t_min, t_max),
    {
        if !self.discriminant.gt(Scalar::zero()) {
            return None;
        }
        if inside(self.near, t_min, t_max) {
            return Some(self.near);
        }
        if inside(self.far, t_min, t_max) {
            return Some(self.far);
        }
        None
    }
}

/// A hit lies strictly inside the interval and is one of the two roots.
pub proof fn lemma_hit_is_root_inside(c: Crossing, t_min: Scalar, t_max: Scalar)
    requires
        c.spec_hit(t_min, t_max) is Some,
    ensures
        c.crosses(),
        spec_inside(c.spec_hit(t_min, t_max)->0, t_min, t_max),
        c.spec_hit(t_min, t_max)->0 == c.near || c.spec_hit(t_min, t_max)->0 == c.far,
{
}

/// Of two roots inside the interval the smaller is taken: the hit is not
/// above any root of an ordered crossing that lies inside the interval.
pub proof fn lemma_hit_is_smallest_root(c: Crossing, t_min: Scalar, t_max: Scalar)
    requires
        c.ordered(),
        c.spec_hit(t_min, t_max) is Some,
    ensures
        spec_inside(c.near, t_min, t_max) ==> c.spec_hit(t_min, t_max)->0.spec_le(c.near),
        spec_inside(c.far, t_min, t_max) ==> c.spec_hit(t_min, t_max)->0.spec_le(c.far),
{
}

/// Narrowing the interval from above keeps the hit or loses it: a hit below
/// a tighter bound is the hit of an ordered crossing in the wider interval.
pub proof fn lemma_hit_under_tighter_bound(c: Crossing, t_min: Scalar, bound: Scalar, t_max: Scalar)
    requires
        c.ordered(),
        bound == t_max || bound.spec_lt(t_max),
        c.spec_hit(t_min, bound) is Some,
    ensures
        c.spec_hit(t_min, t_max) == c.spec_hit(t_min, bound),
{
}

/// A sphere: centre, radius and the material of its surface.
#[derive(Clone, Copy, Debug)]
pub struct Sphere {
    pub center: Point3,
    pub radius: Scalar,
    pub material: Material,
}

impl Sphere {
    pub fn new(center: Point3, radius: Scalar, material: Material) -> (s: Sphere)
        ensures
            s == (Sphere { center, radius, material }),
    {
        Sphere { center, radius, material }
    }

    pub fn radius(&self) -> (r: Scalar)
        ensures
            r == self.radius,
    {
        self.radius
    }

    pub fn center(&self) -> (c: &Point3)
        ensures
            *c == self.center,
    {
        &self.center
    }

    pub fn material(&self) -> (m: Material)
        ensures
            m == self.material,
    {
        self.material
    }

    /// The record of a hit at parameter `t`: the point `p` on the ray, the
    /// normal turned against the ray, and the sphere's material.
    /// `outward_normal` is `(p - center) / radius`, and `facing` its dot
    /// product with the ray's direction.
    pub fn record(&self, t: Scalar, p: Point3, outward_normal: Vec3, facing: Scalar) -> (rec: HitRecord)
        ensures
            rec.t == t,
            rec.p == p,
            rec.material == self.material,
            rec.front_face == HitRecord::spec_front_face(facing),
            rec.normal == HitRecord::spec_oriented(facing, outward_normal),
    {
        let mut rec = HitRecord::new(p, outward_normal, self.material, t, true);
        rec.set_face_normal(facing, &outward_normal);
        rec
    }
}

} // verus!
