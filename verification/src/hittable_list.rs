//! The scene aggregate: an ordered list of spheres whose hit test returns the
//! nearest child hit. The contract states the full manual scan: the result is
//! a child's own hit with the least parameter, and nothing is returned only
//! when no child reports a hit. Children tied at the same parameter are
//! resolved in favor of the earliest one in the list.
use vstd::prelude::*;

verus! {

use crate::hittable::HitRecord;
use crate::interval::Interval;
use crate::ray::Ray;
use crate::sphere::{sphere_hit_s, Sphere};

pub struct HittableList {
    pub objects: Vec<Sphere>,
}

impl HittableList {
    pub fn new() -> (r: HittableList)
        ensures
            r.objects@ =~= Seq::<Sphere>::empty(),
    {
        HittableList { objects: Vec::new() }
    }

    pub fn clear(&mut self)
        ensures
            final(self).objects@ =~= Seq::<Sphere>::empty(),
    {
        self.objects.clear();
    }

    pub fn add(&mut self, object: Sphere)
        ensures
            final(self).objects@ == old(self).objects@.push(object),
    {
        self.objects.push(object);
    }

    /// Scan every child and keep the hit with the smallest parameter.
    /// The returned hit is some child's hit, no child hits strictly nearer,
    /// and the scan comes back empty exactly when every child misses.
    pub fn hit(&self, r: &Ray, ray_t: &Interval) -> (res: Option<HitRecord>)
        ensures
            res is None ==> forall|i: int|
                0 <= i < self.objects@.len() ==> sphere_hit_s(self.objects@[i], *r, *ray_t)
                    is None,
            res matches Some(h) ==> exists|i: int|
                0 <= i < self.objects@.len() && sphere_hit_s(self.objects@[i], *r, *ray_t)
                    == Some(h),
            res matches Some(h) ==> forall|i: int|
                0 <= i < self.objects@.len() ==> (#[trigger] sphere_hit_s(
                    self.objects@[i],
                    *r,
                    *ray_t,
                ) matches Some(hi) ==> h.t <= hi.t),
    {
        let mut best: Option<HitRecord> = None;
        let n = self.objects.len();
        let mut idx: usize = 0;
        while idx < n
            invariant
                n == self.objects@.len(),
                0 <= idx <= n,
                best is None ==> forall|i: int|
                    0 <= i < idx ==> sphere_hit_s(self.objects@[i], *r, *ray_t) is None,
                best matches Some(h) ==> exists|i: int|
                    0 <= i < idx && sphere_hit_s(self.objects@[i], *r, *ray_t) == Some(h),
                best matches Some(h) ==> forall|i: int|
                    0 <= i < idx ==> (#[trigger] sphere_hit_s(self.objects@[i], *r, *ray_t)
                        matches Some(hi) ==> h.t <= hi.t),
            decreases n - idx,
        {
            let cand = self.objects[idx].hit(r, ray_t);
            match cand {
                Some(c) => {
                    match best {
                        Some(b) => {
                            if c.t < b.t {
                                best = Some(c);
                            }
                        },
                        None => {
                            best = Some(c);
                        },
                    }
                },
                None => {},
            }
            idx = idx + 1;
        }
        best
    }
}

} // verus!
