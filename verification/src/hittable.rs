//! The record a successful ray/geometry intersection produces: the hit point,
//! the oriented unit normal, the ray parameter, which side of the surface the
//! ray came from, and the material that owns the surface.
use vstd::prelude::*;

verus! {

use crate::material::Material;
use crate::ray::Ray;
use crate::vec3::{v_dot_s, v_neg_s, Point3, Vec3};

#[derive(Clone, Copy, PartialEq, Eq, Structural, Debug)]
pub struct HitRecord {
    pub p: Point3,
    pub normal: Vec3,
    pub mat: Material,
    pub t: i64,
    pub front_face: bool,
}

/// The ray meets the front face when it runs against the outward normal.
pub open spec fn front_face_s(r: Ray, outward_normal: Vec3) -> bool {
    v_dot_s(r.direction, outward_normal) <= 0
}

/// The stored normal always opposes the incoming ray: the outward normal on a
/// front face, its negation otherwise.
pub open spec fn face_normal_s(r: Ray, outward_normal: Vec3) -> Vec3 {
    if front_face_s(r, outward_normal) {
        outward_normal
    } else {
        v_neg_s(outward_normal)
    }
}

impl HitRecord {
    /// Orient `outward_normal` against the ray and record which side was hit;
    /// the other fields keep their values.
    pub fn set_face_normal(&mut self, r: &Ray, outward_normal: Vec3)
        ensures
            final(self).front_face == front_face_s(*r, outward_normal),
            final(self).normal == face_normal_s(*r, outward_normal),
            final(self).p == old(self).p,
            final(self).mat == old(self).mat,
            final(self).t == old(self).t,
    {
        let d = r.direction.dot(&outward_normal);
        self.front_face = d <= 0;
        self.normal = if self.front_face {
            outward_normal
        } else {
            outward_normal.neg()
        };
    }
}

} // verus!
