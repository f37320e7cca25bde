//! The sphere primitive and its ray intersection test, the half-discriminant
//! form of the quadratic `|O + tD - C|^2 = r^2`.
use vstd::prelude::*;

verus! {

use crate::fixed::{fp_add, fp_add_s, fp_div, fp_div_s, fp_mul, fp_mul_s, fp_sqrt, fp_sqrt_s,
    fp_sub, fp_sub_s};
use crate::hittable::{face_normal_s, front_face_s, HitRecord};
use crate::interval::{surrounds_s, Interval};
use crate::material::Material;
use crate::ray::{ray_at_s, Ray};
use crate::vec3::{v_div_scalar_s, v_dot_s, v_len_sq_s, v_sub_s, Point3, Vec3};

#[derive(Clone, Copy, PartialEq, Eq, Structural, Debug)]
pub struct Sphere {
    pub center: Point3,
    pub radius: i64,
    pub mat: Material,
}

/// The outward normal at a surface point: the offset from the center scaled
/// by the inverse radius.
pub open spec fn outward_normal_s(s: Sphere, p: Point3) -> Vec3 {
    v_div_scalar_s(v_sub_s(p, s.center), s.radius as int)
}

/// What intersecting a sphere yields: the nearer quadratic root strictly
/// inside `ray_t` if it qualifies, else the farther one, else nothing. A
/// sphere of zero radius is never hit, so the normal never divides by zero.
pub open spec fn sphere_hit_s(s: Sphere, r: Ray, ray_t: Interval) -> Option<HitRecord> {
    if s.radius <= 0 {
        None
    } else {
        let oc = v_sub_s(s.center, r.origin);
        let a = v_len_sq_s(r.direction);
        let h = v_dot_s(r.direction, oc);
        let c = fp_sub_s(v_len_sq_s(oc), fp_mul_s(s.radius as int, s.radius as int));
        let discriminant = fp_sub_s(fp_mul_s(h, h), fp_mul_s(a, c));
        if discriminant < 0 {
            None
        } else {
            let sqrtd = fp_sqrt_s(discriminant);
            let near = fp_div_s(fp_sub_s(h, sqrtd), a);
            let root = if surrounds_s(ray_t, near) {
                near
            } else {
                fp_div_s(fp_add_s(h, sqrtd), a)
            };
            if !surrounds_s(ray_t, root) {
                None
            } else {
                let p = ray_at_s(r, root);
                let outward = outward_normal_s(s, p);
                Some(
                    HitRecord {
                        p,
                        normal: face_normal_s(r, outward),
                        mat: s.mat,
                        t: root as i64,
                        front_face: front_face_s(r, outward),
                    },
                )
            }
        }
    }
}

impl Sphere {
    /// A negative configured radius is clamped to zero, which the hit test
    /// treats as never intersected.
    pub fn new(center: Point3, radius: i64, mat: Material) -> (r: Sphere)
        ensures
            r.center == center,
            r.mat == mat,
            r.radius == if radius < 0 {
                0
            } else {
                radius
            },
    {
        let radius = if radius < 0 {
            0
        } else {
            radius
        };
        Sphere { center, radius, mat }
    }

    /// Intersect the ray over `ray_t`. The result is exactly what
    /// `sphere_hit_s` states; an accepted hit lies strictly inside the range,
    /// sits on the ray at its parameter, carries this sphere's material, and
    /// fronts the ray exactly when the ray runs against the outward normal.
    pub fn hit(&self, r: &Ray, ray_t: &Interval) -> (res: Option<HitRecord>)
        ensures
            res == sphere_hit_s(*self, *r, *ray_t),
            res matches Some(rec) ==> surrounds_s(*ray_t, rec.t as int),
            res matches Some(rec) ==> rec.mat == self.mat,
            res matches Some(rec) ==> rec.p == ray_at_s(*r, rec.t as int),
            res matches Some(rec) ==> {
                let outward = outward_normal_s(*self, rec.p);
                rec.front_face == (v_dot_s(r.direction, outward) <= 0) && rec.normal
                    == face_normal_s(*r, outward)
            },
    {
        if self.radius <= 0 {
            return None;
        }
        let oc = self.center.sub(&r.origin);
        let a = r.direction.length_squared();
        let h = r.direction.dot(&oc);
        let c = fp_sub(oc.length_squared(), fp_mul(self.radius, self.radius));

        let discriminant = fp_sub(fp_mul(h, h), fp_mul(a, c));
        if discriminant < 0 {
            return None;
        }

        let sqrtd = fp_sqrt(discriminant);

        let mut root = fp_div(fp_sub(h, sqrtd), a);
        if !ray_t.surrounds(root) {
            root = fp_div(fp_add(h, sqrtd), a);
            if !ray_t.surrounds(root) {
                return None;
            }
        }

        let t = root;
        let p = r.at(t);
        let outward_normal = p.sub(&self.center).div_scalar(self.radius);
        let mut rec = HitRecord {
            t,
            p,
            mat: self.mat,
            normal: outward_normal,
            front_face: true,
        };
        rec.set_face_normal(r, outward_normal);

        Some(rec)
    }
}

} // verus!
