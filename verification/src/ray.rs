//! A half-line: where it starts and where it heads.

use vstd::prelude::*;
use crate::vec3::{Point3, Vec3};

verus! {

/// An origin and a direction, both by value.
#[derive(Clone, Copy, Debug)]
pub struct Ray {
    pub orig: Point3,
    pub dir: Vec3,
}

impl Ray {
    pub fn new(point: Point3, dir: Vec3) -> (r: Ray)
        ensures
            r == (Ray { orig: point, dir }),
    {
        Ray { orig: point, dir }
    }

    pub fn origin(&self) -> (p: &Point3)
        ensures
            *p == self.orig,
    {
        &self.orig
    }

    pub fn direction(&self) -> (d: &Vec3)
        ensures
            *d == self.dir,
    {
        &self.dir
    }
}

} // verus!
