//! Three-component vectors over the fixed-point scalars, with the reflection
//! and refraction helpers the materials use. `Point3` names the same type when
//! a value stands for a location rather than a direction.
use vstd::prelude::*;

verus! {

use crate::fixed::{
    fp_abs, fp_abs_s, fp_add, fp_add_s, fp_div, fp_div_s, fp_mul, fp_mul_s, fp_neg, fp_neg_s,
    fp_sqrt, fp_sqrt_s, fp_sub, fp_sub_s, FP_ONE,
};

#[derive(Clone, Copy, PartialEq, Eq, Structural, Debug)]
pub struct Vec3 {
    pub x: i64,
    pub y: i64,
    pub z: i64,
}

pub type Point3 = Vec3;

pub open spec fn v_add_s(a: Vec3, b: Vec3) -> Vec3 {
    Vec3 {
        x: fp_add_s(a.x as int, b.x as int) as i64,
        y: fp_add_s(a.y as int, b.y as int) as i64,
        z: fp_add_s(a.z as int, b.z as int) as i64,
    }
}

pub open spec fn v_sub_s(a: Vec3, b: Vec3) -> Vec3 {
    Vec3 {
        x: fp_sub_s(a.x as int, b.x as int) as i64,
        y: fp_sub_s(a.y as int, b.y as int) as i64,
        z: fp_sub_s(a.z as int, b.z as int) as i64,
    }
}

pub open spec fn v_neg_s(a: Vec3) -> Vec3 {
    Vec3 {
        x: fp_neg_s(a.x as int) as i64,
        y: fp_neg_s(a.y as int) as i64,
        z: fp_neg_s(a.z as int) as i64,
    }
}

/// Scale every component by the scalar `s`.
pub open spec fn v_scale_s(a: Vec3, s: int) -> Vec3 {
    Vec3 {
        x: fp_mul_s(a.x as int, s) as i64,
        y: fp_mul_s(a.y as int, s) as i64,
        z: fp_mul_s(a.z as int, s) as i64,
    }
}

/// Divide every component by the scalar `s`.
pub open spec fn v_div_scalar_s(a: Vec3, s: int) -> Vec3 {
    Vec3 {
        x: fp_div_s(a.x as int, s) as i64,
        y: fp_div_s(a.y as int, s) as i64,
        z: fp_div_s(a.z as int, s) as i64,
    }
}

/// Component-wise product, as colors attenuate.
pub open spec fn v_comp_mul_s(a: Vec3, b: Vec3) -> Vec3 {
    Vec3 {
        x: fp_mul_s(a.x as int, b.x as int) as i64,
        y: fp_mul_s(a.y as int, b.y as int) as i64,
        z: fp_mul_s(a.z as int, b.z as int) as i64,
    }
}

pub open spec fn v_dot_s(a: Vec3, b: Vec3) -> int {
    fp_add_s(
        fp_add_s(fp_mul_s(a.x as int, b.x as int), fp_mul_s(a.y as int, b.y as int)),
        fp_mul_s(a.z as int, b.z as int),
    )
}

pub open spec fn v_cross_s(a: Vec3, b: Vec3) -> Vec3 {
    Vec3 {
        x: fp_sub_s(fp_mul_s(a.y as int, b.z as int), fp_mul_s(a.z as int, b.y as int)) as i64,
        y: fp_sub_s(fp_mul_s(a.z as int, b.x as int), fp_mul_s(a.x as int, b.z as int)) as i64,
        z: fp_sub_s(fp_mul_s(a.x as int, b.y as int), fp_mul_s(a.y as int, b.x as int)) as i64,
    }
}

pub open spec fn v_len_sq_s(a: Vec3) -> int {
    v_dot_s(a, a)
}

pub open spec fn v_len_s(a: Vec3) -> int {
    fp_sqrt_s(v_len_sq_s(a))
}

/// The vector scaled to unit length; the zero vector stays zero.
pub open spec fn v_unit_s(a: Vec3) -> Vec3 {
    let l = v_len_s(a);
    if l == 0 {
        Vec3 { x: 0, y: 0, z: 0 }
    } else {
        Vec3 {
            x: fp_div_s(a.x as int, l) as i64,
            y: fp_div_s(a.y as int, l) as i64,
            z: fp_div_s(a.z as int, l) as i64,
        }
    }
}

/// At the fixed-point resolution, a degenerate direction is the exact zero
/// vector.
pub open spec fn v_near_zero_s(a: Vec3) -> bool {
    a.x == 0 && a.y == 0 && a.z == 0
}

/// Mirror `v` about the surface normal `n`: `v - 2 (v . n) n`.
pub open spec fn v_reflect_s(v: Vec3, n: Vec3) -> Vec3 {
    v_sub_s(v, v_scale_s(n, fp_add_s(v_dot_s(v, n), v_dot_s(v, n))))
}

/// Bend the unit direction `uv` through a boundary with relative index
/// `etai_over_etat`, by the perpendicular / parallel decomposition of
/// Snell's law.
pub open spec fn v_refract_s(uv: Vec3, n: Vec3, etai_over_etat: int) -> Vec3 {
    let d = v_dot_s(v_neg_s(uv), n);
    let cos_theta = if d > FP_ONE {
        FP_ONE as int
    } else {
        d
    };
    let r_out_perp = v_scale_s(v_add_s(uv, v_scale_s(n, cos_theta)), etai_over_etat);
    let r_out_parallel = v_scale_s(
        n,
        fp_neg_s(fp_sqrt_s(fp_abs_s(fp_sub_s(FP_ONE as int, v_len_sq_s(r_out_perp))))),
    );
    v_add_s(r_out_perp, r_out_parallel)
}

impl Vec3 {
    pub fn new(x: i64, y: i64, z: i64) -> (r: Vec3)
        ensures
            r == (Vec3 { x, y, z }),
    {
        Vec3 { x, y, z }
    }

    pub fn zero() -> (r: Vec3)
        ensures
            r == (Vec3 { x: 0i64, y: 0i64, z: 0i64 }),
    {
        Vec3 { x: 0, y: 0, z: 0 }
    }

    pub fn add(&self, o: &Vec3) -> (r: Vec3)
        ensures
            r == v_add_s(*self, *o),
    {
        Vec3 { x: fp_add(self.x, o.x), y: fp_add(self.y, o.y), z: fp_add(self.z, o.z) }
    }

    pub fn sub(&self, o: &Vec3) -> (r: Vec3)
        ensures
            r == v_sub_s(*self, *o),
    {
        Vec3 { x: fp_sub(self.x, o.x), y: fp_sub(self.y, o.y), z: fp_sub(self.z, o.z) }
    }

    pub fn neg(&self) -> (r: Vec3)
        ensures
            r == v_neg_s(*self),
    {
        Vec3 { x: fp_neg(self.x), y: fp_neg(self.y), z: fp_neg(self.z) }
    }

    pub fn scale(&self, s: i64) -> (r: Vec3)
        ensures
            r == v_scale_s(*self, s as int),
    {
        Vec3 { x: fp_mul(self.x, s), y: fp_mul(self.y, s), z: fp_mul(self.z, s) }
    }

    pub fn div_scalar(&self, s: i64) -> (r: Vec3)
        ensures
            r == v_div_scalar_s(*self, s as int),
    {
        Vec3 { x: fp_div(self.x, s), y: fp_div(self.y, s), z: fp_div(self.z, s) }
    }

    pub fn comp_mul(&self, o: &Vec3) -> (r: Vec3)
        ensures
            r == v_comp_mul_s(*self, *o),
    {
        Vec3 { x: fp_mul(self.x, o.x), y: fp_mul(self.y, o.y), z: fp_mul(self.z, o.z) }
    }

    pub fn dot(&self, o: &Vec3) -> (r: i64)
        ensures
            r as int == v_dot_s(*self, *o),
    {
        fp_add(fp_add(fp_mul(self.x, o.x), fp_mul(self.y, o.y)), fp_mul(self.z, o.z))
    }

    pub fn cross(&self, o: &Vec3) -> (r: Vec3)
        ensures
            r == v_cross_s(*self, *o),
    {
        Vec3 {
            x: fp_sub(fp_mul(self.y, o.z), fp_mul(self.z, o.y)),
            y: fp_sub(fp_mul(self.z, o.x), fp_mul(self.x, o.z)),
            z: fp_sub(fp_mul(self.x, o.y), fp_mul(self.y, o.x)),
        }
    }

    pub fn length_squared(&self) -> (r: i64)
        ensures
            r as int == v_len_sq_s(*self),
    {
        self.dot(self)
    }

    pub fn length(&self) -> (r: i64)
        ensures
            r as int == v_len_s(*self),
            r >= 0,
    {
        fp_sqrt(self.length_squared())
    }

    pub fn unit(&self) -> (r: Vec3)
        ensures
            r == v_unit_s(*self),
    {
        let l = self.length();
        if l == 0 {
            Vec3 { x: 0, y: 0, z: 0 }
        } else {
            Vec3 { x: fp_div(self.x, l), y: fp_div(self.y, l), z: fp_div(self.z, l) }
        }
    }

    pub fn near_zero(&self) -> (r: bool)
        ensures
            r == v_near_zero_s(*self),
    {
        self.x == 0 && self.y == 0 && self.z == 0
    }
}

/// Adding the zero vector changes nothing, as long as the components are
/// saturated scalars.
pub proof fn lemma_v_add_zero(v: Vec3)
    requires
        crate::fixed::fp_in_range(v.x as int),
        crate::fixed::fp_in_range(v.y as int),
        crate::fixed::fp_in_range(v.z as int),
    ensures
        v_add_s(v, Vec3 { x: 0, y: 0, z: 0 }) == v,
{
}

pub fn reflect(v: &Vec3, n: &Vec3) -> (r: Vec3)
    ensures
        r == v_reflect_s(*v, *n),
{
    let d = v.dot(n);
    v.sub(&n.scale(fp_add(d, d)))
}

pub fn refract(uv: &Vec3, n: &Vec3, etai_over_etat: i64) -> (r: Vec3)
    ensures
        r == v_refract_s(*uv, *n, etai_over_etat as int),
{
    let d = uv.neg().dot(n);
    let cos_theta = if d > FP_ONE {
        FP_ONE
    } else {
        d
    };
    let r_out_perp = uv.add(&n.scale(cos_theta)).scale(etai_over_etat);
    let r_out_parallel = n.scale(fp_neg(fp_sqrt(fp_abs(fp_sub(FP_ONE, r_out_perp.length_squared())))));
    r_out_perp.add(&r_out_parallel)
}

} // verus!
