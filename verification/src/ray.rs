//! A ray is the parametric line `origin + t * direction`; it never changes
//! after construction.
use vstd::prelude::*;

verus! {

use crate::vec3::{v_add_s, v_scale_s, Point3, Vec3};

#[derive(Clone, Copy, PartialEq, Eq, Structural, Debug)]
pub struct Ray {
    pub origin: Point3,
    pub direction: Vec3,
}

/// The point the ray reaches at parameter `t`.
pub open spec fn ray_at_s(r: Ray, t: int) -> Point3 {
    v_add_s(r.origin, v_scale_s(r.direction, t))
}

impl Ray {
    pub fn new(origin: Point3, direction: Vec3) -> (r: Ray)
        ensures
            r == (Ray { origin, direction }),
    {
        Ray { origin, direction }
    }

    pub fn at(&self, t: i64) -> (p: Point3)
        ensures
            p == ray_at_s(*self, t as int),
    {
        self.origin.add(&self.direction.scale(t))
    }
}

} // verus!
