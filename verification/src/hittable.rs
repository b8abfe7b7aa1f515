//! Hit records, and the scene as a list of shapes.

use vstd::prelude::*;
use core::ops::Neg;
use crate::material::Material;
use crate::material::lambertian::Lambertian;
use crate::scalar::Scalar;
use crate::sphere::{lemma_hit_under_tighter_bound, spec_inside, Crossing, Sphere};
use crate::vec3::{Point3, Vec3};

verus! {

/// What a successful intersection test reports.
#[derive(Clone, Copy, Debug)]
pub struct HitRecord {
    /// The hit point.
    pub p: Point3,
    /// The surface normal, turned against the incoming ray.
    pub normal: Vec3,
    /// The material of the surface at the hit point.
    pub material: Material,
    /// The ray parameter of the hit.
    pub t: Scalar,
    /// Whether the ray met the surface from outside, so that the normal
    /// kept its geometric direction.
    pub front_face: bool,
}

impl HitRecord {
    /// The ray comes from outside when its direction has a negative dot
    /// product with the outward normal.
    pub open spec fn spec_front_face(facing: Scalar) -> bool {
        facing.spec_lt(Scalar { bits: 0 })
    }

    /// The outward normal, or its opposite for a ray that comes from inside.
    pub open spec fn spec_oriented(facing: Scalar, outward_normal: Vec3) -> Vec3 {
        if Self::spec_front_face(facing) {
            outward_normal
        } else {
            outward_normal.spec_neg()
        }
    }

    pub fn new(p: Point3, normal: Vec3, material: Material, t: Scalar, front_face: bool) -> (rec: HitRecord)
        ensures
            rec == (HitRecord { p, normal, material, t, front_face }),
    {
        HitRecord { p, normal, material, t, front_face }
    }

    /// Orients the normal against the incoming ray. `facing` is the dot
    /// product of the ray's direction with `outward_normal`.
    pub fn set_face_normal(&mut self, facing: Scalar, outward_normal: &Vec3)
        ensures
            final(self).front_face == Self::spec_front_face(facing),
            final(self).normal == Self::spec_oriented(facing, *outward_normal),
            final(self).p == old(self).p,
            final(self).material == old(self).material,
            final(self).t == old(self).t,
    {
        let front_face = facing.lt(Scalar::zero());
        self.front_face = front_face;
        self.normal = if front_face {
            *outward_normal
        } else {
            outward_normal.neg()
        };
    }
}

impl Default for HitRecord {
    /// A record at the origin with a black diffuse material.
    fn default() -> (rec: HitRecord)
        ensures
            rec.p == (Vec3 { x: Scalar { bits: 0 }, y: Scalar { bits: 0 }, z: Scalar { bits: 0 } }),
            rec.normal == rec.p,
            rec.material == Material::Lambertian(Lambertian { albedo: rec.p }),
            rec.t == (Scalar { bits: 0 }),
            rec.front_face,
    {
        HitRecord::new(Vec3::default(), Vec3::default(), Material::default(), Scalar::zero(), true)
    }
}

/// The nearest hit of a scene: which object, and at which ray parameter.
#[derive(Clone, Copy, Debug)]
pub struct Nearest {
    pub index: usize,
    pub t: Scalar,
}

/// The upper end of the interval that is still open once `best` is known.
pub open spec fn spec_bound(best: Option<(int, Scalar)>, t_max: Scalar) -> Scalar {
    match best {
        Some((_, t)) => t,
        None => t_max,
    }
}

/// The hit that a scan of the objects in order ends with: each object is
/// tested in the interval that the best hit so far leaves open, and a hit
/// there replaces it.
pub open spec fn spec_nearest(crossings: Seq<Crossing>, t_min: Scalar, t_max: Scalar) -> Option<(int, Scalar)>
    decreases crossings.len(),
{
    if crossings.len() == 0 {
        None
    } else {
        let before = spec_nearest(crossings.drop_last(), t_min, t_max);
        match crossings.last().spec_hit(t_min, spec_bound(before, t_max)) {
            Some(t) => Some((crossings.len() - 1, t)),
            None => before,
        }
    }
}

/// Every crossing has its roots in order.
pub open spec fn all_ordered(crossings: Seq<Crossing>) -> bool {
    forall|j: int| 0 <= j < crossings.len() ==> (#[trigger] crossings[j]).ordered()
}

/// The scan reports the nearest hit: a scene in which no object is hit has
/// no hit; otherwise the reported parameter lies inside the interval and is
/// a root of the reported object, no object has a hit below it, and no
/// object before the reported one has a hit as near.
pub proof fn lemma_nearest_is_closest(crossings: Seq<Crossing>, t_min: Scalar, t_max: Scalar)
    ensures
        match spec_nearest(crossings, t_min, t_max) {
            None => forall|j: int| 0 <= j < crossings.len() ==> (#[trigger] crossings[j]).spec_hit(t_min, t_max) is None,
            Some((i, t)) => {
                &&& 0 <= i < crossings.len()
                &&& crossings[i].crosses()
                &&& t == crossings[i].near || t == crossings[i].far
                &&& spec_inside(t, t_min, t_max)
                &&& forall|j: int| 0 <= j < crossings.len() && (#[trigger] crossings[j]).spec_hit(t_min, t_max) is Some
                        ==> t.spec_le(crossings[j].spec_hit(t_min, t_max)->0)
                &&& forall|j: int| 0 <= j < i && (#[trigger] crossings[j]).spec_hit(t_min, t_max) is Some
                        ==> t.spec_lt(crossings[j].spec_hit(t_min, t_max)->0)
            },
        },
    decreases crossings.len(),
{
    if crossings.len() > 0 {
        let rest = crossings.drop_last();
        assert(forall|j: int| 0 <= j < rest.len() ==> rest[j] == crossings[j]);
        lemma_nearest_is_closest(rest, t_min, t_max);
        assert(crossings.last() == crossings[crossings.len() - 1]);
    }
}

/// Where the crossings are ordered, the reported parameter is the hit that
/// the reported object has in the whole interval.
pub proof fn lemma_nearest_is_own_hit(crossings: Seq<Crossing>, t_min: Scalar, t_max: Scalar)
    requires
        all_ordered(crossings),
    ensures
        match spec_nearest(crossings, t_min, t_max) {
            None => true,
            Some((i, t)) => 0 <= i < crossings.len() && crossings[i].spec_hit(t_min, t_max) == Some(t),
        },
    decreases crossings.len(),
{
    if crossings.len() > 0 {
        let rest = crossings.drop_last();
        let last = crossings.last();
        assert(forall|j: int| 0 <= j < rest.len() ==> rest[j] == crossings[j]);
        assert(all_ordered(rest));
        lemma_nearest_is_own_hit(rest, t_min, t_max);
        lemma_nearest_is_closest(rest, t_min, t_max);
        let bound = spec_bound(spec_nearest(rest, t_min, t_max), t_max);
        assert(last == crossings[crossings.len() - 1]);
        assert(last.ordered());
        if last.spec_hit(t_min, bound) is Some {
            lemma_hit_under_tighter_bound(last, t_min, bound, t_max);
        }
    }
}

/// The reported hit does not depend on the order of the objects: two
/// scenes with the same ordered crossings both miss, or report parameters
/// that are equal as numbers.
pub proof fn lemma_nearest_ignores_order(a: Seq<Crossing>, b: Seq<Crossing>, t_min: Scalar, t_max: Scalar)
    requires
        all_ordered(a),
        all_ordered(b),
        forall|c: Crossing| a.contains(c) <==> b.contains(c),
    ensures
        spec_nearest(a, t_min, t_max) is None <==> spec_nearest(b, t_min, t_max) is None,
        match (spec_nearest(a, t_min, t_max), spec_nearest(b, t_min, t_max)) {
            (Some((_, t)), Some((_, u))) => t.spec_eq(u),
            _ => true,
        },
{
    lemma_nearest_is_closest(a, t_min, t_max);
    lemma_nearest_is_closest(b, t_min, t_max);
    lemma_nearest_is_own_hit(a, t_min, t_max);
    lemma_nearest_is_own_hit(b, t_min, t_max);
    if spec_nearest(a, t_min, t_max) is Some {
        let (i, _) = spec_nearest(a, t_min, t_max).unwrap();
        assert(a.contains(a[i]));
        assert(b.contains(a[i]));
        let k = choose|k: int| 0 <= k < b.len() && b[k] == a[i];
        assert(b[k].spec_hit(t_min, t_max) is Some);
    }
    if spec_nearest(b, t_min, t_max) is Some {
        let (i, _) = spec_nearest(b, t_min, t_max).unwrap();
        assert(b.contains(b[i]));
        assert(a.contains(b[i]));
        let k = choose|k: int| 0 <= k < a.len() && a[k] == b[i];
        assert(a[k].spec_hit(t_min, t_max) is Some);
    }
}

/// The scene: its objects in the order in which they were added.
#[derive(Debug)]
pub struct HittableList {
    pub objects: Vec<Sphere>,
}

impl HittableList {
    pub fn new() -> (list: HittableList)
        ensures
            list.objects@ == Seq::<Sphere>::empty(),
    {
        HittableList { objects: Vec::new() }
    }

    pub fn clear(&mut self)
        ensures
            final(self).objects@ == Seq::<Sphere>::empty(),
    {
        self.objects.clear();
    }

    pub fn add(&mut self, object: Sphere)
        ensures
            final(self).objects@ == old(self).objects@.push(object),
    {
        self.objects.push(object);
    }

    pub fn len(&self) -> (n: usize)
        ensures
            n == self.objects@.len(),
    {
        self.objects.len()
    }

    /// The object at `index`, if the scene has that many.
    pub fn get(&self, index: usize) -> (object: Option<&Sphere>)
        ensures
            index < self.objects@.len() ==> object == Some(&self.objects@[index as int]),
            index >= self.objects@.len() ==> object is None,
    {
        if index < self.objects.len() {
            Some(&self.objects[index])
        } else {
            None
        }
    }

    /// The nearest hit within `(t_min, t_max)`, where `crossings[i]` is the
    /// crossing of the ray with the scene's object `i`.
    pub fn hit(&self, crossings: &Vec<Crossing>, t_min: Scalar, t_max: Scalar) -> (nearest: Option<Nearest>)
        requires
            crossings@.len() == self.objects@.len(),
        ensures
            match nearest {
                Some(n) => n.index < self.objects@.len() && spec_nearest(crossings@, t_min, t_max) == Some(
                    (n.index as int, n.t),
                ),
                None => spec_nearest(crossings@, t_min, t_max) is None,
            },
    {
        let mut nearest: Option<Nearest> = None;
        let mut closest_so_far = t_max;
        let mut i: usize = 0;
        while i < crossings.len()
            invariant
                i <= crossings@.len(),
                crossings@.len() == self.objects@.len(),
                closest_so_far == spec_bound(spec_nearest(crossings@.take(i as int), t_min, t_max), t_max),
                match nearest {
                    Some(n) => n.index < i && spec_nearest(crossings@.take(i as int), t_min, t_max) == Some(
                        (n.index as int, n.t),
                    ),
                    None => spec_nearest(crossings@.take(i as int), t_min, t_max) is None,
                },
            decreases crossings@.len() - i,
        {
            proof {
                let next = crossings@.take(i + 1);
                assert(next.drop_last() == crossings@.take(i as int));
                assert(next.last() == crossings@[i as int]);
            }
            match crossings[i].hit(t_min, closest_so_far) {
                Some(t) => {
                    nearest = Some(Nearest { index: i, t });
                    closest_so_far = t;
                },
                None => {},
            }
            i += 1;
        }
        proof {
            assert(crossings@.take(i as int) == crossings@);
        }
        nearest
    }
}

} // verus!
