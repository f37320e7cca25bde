//! Material models. Each one answers a hit with an attenuation color and a
//! scattered ray, or absorbs the path. The scattered direction is sampled, so
//! the contracts state what holds of every draw; wherever a branch is
//! deterministic (polished metal, forced total internal reflection) they pin
//! the exact direction.
use vstd::prelude::*;

verus! {

use crate::fixed::{
    fp_add, fp_add_s, fp_div, fp_div_s, fp_mul, fp_mul_s, fp_sqrt, fp_sqrt_s, fp_sub, fp_sub_s,
    lemma_fp_div_ratio_unit, lemma_fp_mul_unit, lemma_fp_square_unit, FP_ONE,
};
use crate::hittable::HitRecord;
use crate::ray::Ray;
use crate::rng::{random_unit_scalar, random_unit_vector};
use crate::vec3::{
    reflect, refract, v_add_s, v_dot_s, v_near_zero_s, v_reflect_s, v_refract_s, v_scale_s,
    v_unit_s, Vec3,
};

pub type Color = Vec3;

#[derive(Clone, Copy, PartialEq, Eq, Structural, Debug)]
pub struct Lambertian {
    pub albedo: Color,
}

#[derive(Clone, Copy, PartialEq, Eq, Structural, Debug)]
pub struct Metal {
    pub albedo: Color,
    pub fuzz: i64,
}

#[derive(Clone, Copy, PartialEq, Eq, Structural, Debug)]
pub struct Dielectric {
    /// Refractive index in vacuum or air, or the ratio of the material's
    /// index over the index of the enclosing medium.
    pub refraction_index: i64,
}

/// A surface is one of the three closed material models.
#[derive(Clone, Copy, PartialEq, Eq, Structural, Debug)]
pub enum Material {
    Lambertian(Lambertian),
    Metal(Metal),
    Dielectric(Dielectric),
}

/// The Schlick approximation of Fresnel reflectance:
/// `r0 + (1 - r0) (1 - cos)^5` with `r0 = ((1 - ri) / (1 + ri))^2`.
pub open spec fn schlick_s(cosine: int, refraction_index: int) -> int {
    let r0a = fp_div_s(
        fp_sub_s(FP_ONE as int, refraction_index),
        fp_add_s(FP_ONE as int, refraction_index),
    );
    let r0 = fp_mul_s(r0a, r0a);
    let p = fp_sub_s(FP_ONE as int, cosine);
    let p2 = fp_mul_s(p, p);
    let p4 = fp_mul_s(p2, p2);
    let p5 = fp_mul_s(p4, p);
    fp_add_s(r0, fp_mul_s(fp_sub_s(FP_ONE as int, r0), p5))
}

/// The relative refraction index a hit sees: entering the medium divides into
/// 1, leaving uses the index itself.
pub open spec fn relative_index_s(d: Dielectric, front_face: bool) -> int {
    if front_face {
        fp_div_s(FP_ONE as int, d.refraction_index as int)
    } else {
        d.refraction_index as int
    }
}

/// Snell's law forbids refraction when `ri * sin(theta)` leaves `[0, 1]`.
pub open spec fn cannot_refract_s(ri: int, cos_theta: int) -> bool {
    fp_mul_s(ri, fp_sqrt_s(fp_sub_s(FP_ONE as int, fp_mul_s(cos_theta, cos_theta)))) > FP_ONE
}

/// The cosine the dielectric works with: the incoming unit direction against
/// the stored normal, capped at 1.
pub open spec fn dielectric_cos_s(unit_direction: Vec3, normal: Vec3) -> int {
    let d = v_dot_s(crate::vec3::v_neg_s(unit_direction), normal);
    if d > FP_ONE {
        FP_ONE as int
    } else {
        d
    }
}

impl Lambertian {
    pub fn new(albedo: Color) -> (r: Lambertian)
        ensures
            r.albedo == albedo,
    {
        Lambertian { albedo }
    }

    /// Diffuse scattering: the direction is the normal nudged by a random
    /// unit vector, falling back to the normal itself when the two cancel.
    /// Light is always scattered and attenuated by the albedo.
    pub fn scatter(&self, _r_in: &Ray, rec: &HitRecord) -> (res: Option<(Ray, Color)>)
        ensures
            res is Some,
            res matches Some(sa) ==> sa.1 == self.albedo && sa.0.origin == rec.p && (sa.0.direction
                == rec.normal || !v_near_zero_s(sa.0.direction)),
    {
        let mut scatter_direction = rec.normal.add(&random_unit_vector());
        if scatter_direction.near_zero() {
            scatter_direction = rec.normal;
        }
        let scattered = Ray::new(rec.p, scatter_direction);
        Some((scattered, self.albedo))
    }
}

impl Metal {
    /// The fuzz radius is capped at 1 when the surface is built.
    pub fn new(albedo: Color, fuzz: i64) -> (r: Metal)
        ensures
            r.albedo == albedo,
            r.fuzz == if fuzz < FP_ONE {
                fuzz
            } else {
                FP_ONE
            },
    {
        let fuzz = if fuzz < FP_ONE {
            fuzz
        } else {
            FP_ONE
        };
        Metal { albedo, fuzz }
    }

    /// Fuzzy mirror reflection. A scattered ray is returned only when its
    /// direction leaves the surface: its dot product with the stored normal
    /// is strictly positive. With no fuzz the direction is exactly the unit
    /// mirror reflection.
    pub fn scatter(&self, r_in: &Ray, rec: &HitRecord) -> (res: Option<(Ray, Color)>)
        ensures
            res matches Some(sa) ==> sa.1 == self.albedo && sa.0.origin == rec.p && v_dot_s(
                sa.0.direction,
                rec.normal,
            ) > 0,
            self.fuzz == 0 ==> (res is Some <==> v_dot_s(
                metal_mirror_s(*r_in, *rec),
                rec.normal,
            ) > 0),
            self.fuzz == 0 ==> (res matches Some(sa) ==> sa.0.direction == metal_mirror_s(
                *r_in,
                *rec,
            )),
    {
        let reflected = reflect(&r_in.direction, &rec.normal);
        let mirror = reflected.unit();
        let nudge = random_unit_vector();
        let fuzzed = mirror.add(&nudge.scale(self.fuzz));
        proof {
            if self.fuzz == 0 {
                lemma_scale_zero(nudge);
                lemma_unit_in_range(v_reflect_s(r_in.direction, rec.normal));
                crate::vec3::lemma_v_add_zero(mirror);
            }
        }
        let scattered = Ray::new(rec.p, fuzzed);
        if scattered.direction.dot(&rec.normal) > 0 {
            Some((scattered, self.albedo))
        } else {
            None
        }
    }
}

/// The direction a polished metal surface reflects into.
pub open spec fn metal_mirror_s(r_in: Ray, rec: HitRecord) -> Vec3 {
    v_unit_s(v_reflect_s(r_in.direction, rec.normal))
}

/// Scaling any vector by zero gives the zero vector.
proof fn lemma_scale_zero(v: Vec3)
    ensures
        v_scale_s(v, 0) == (Vec3 { x: 0i64, y: 0i64, z: 0i64 }),
{
    lemma_mul_by_zero(v.x as int);
    lemma_mul_by_zero(v.y as int);
    lemma_mul_by_zero(v.z as int);
}

proof fn lemma_mul_by_zero(a: int)
    ensures
        fp_mul_s(a, 0) == 0,
{
    assert(a * 0 == 0) by (nonlinear_arith);
    vstd::arithmetic::div_mod::lemma_div_of0(FP_ONE as int);
}

/// A normalized vector's components are saturated scalars.
proof fn lemma_unit_in_range(v: Vec3)
    ensures
        crate::fixed::fp_in_range(v_unit_s(v).x as int),
        crate::fixed::fp_in_range(v_unit_s(v).y as int),
        crate::fixed::fp_in_range(v_unit_s(v).z as int),
{
}

impl Dielectric {
    pub fn new(refraction_index: i64) -> (r: Dielectric)
        ensures
            r.refraction_index == refraction_index,
    {
        Dielectric { refraction_index }
    }

    /// Schlick's reflectance approximation. For a physical (nonnegative)
    /// index and a cosine in `[0, 1]` the result stays in `[0, 1]`, and a
    /// grazing cosine of zero reflects everything.
    pub fn reflectance(cosine: i64, refraction_index: i64) -> (r: i64)
        ensures
            r as int == schlick_s(cosine as int, refraction_index as int),
            0 <= cosine <= FP_ONE && refraction_index >= 0 ==> 0 <= r <= FP_ONE,
            0 <= cosine <= FP_ONE && refraction_index >= 0 && cosine == 0 ==> r == FP_ONE,
    {
        let r0a = fp_div(fp_sub(FP_ONE, refraction_index), fp_add(FP_ONE, refraction_index));
        let r0 = fp_mul(r0a, r0a);
        let p = fp_sub(FP_ONE, cosine);
        let p2 = fp_mul(p, p);
        let p4 = fp_mul(p2, p2);
        let p5 = fp_mul(p4, p);
        let r = fp_add(r0, fp_mul(fp_sub(FP_ONE, r0), p5));
        proof {
            if 0 <= cosine <= FP_ONE && refraction_index >= 0 {
                lemma_schlick_unit(cosine as int, refraction_index as int);
            }
        }
        r
    }

    /// Refraction or reflection at a dielectric boundary: glass absorbs
    /// nothing, so a ray is always scattered from the hit point. Total
    /// internal reflection forces the mirror direction; otherwise the
    /// reflectance decides stochastically, and the direction is exactly one
    /// of the two.
    pub fn scatter(&self, r_in: &Ray, rec: &HitRecord) -> (res: Option<(Ray, Color)>)
        ensures
            res is Some,
            res matches Some(sa) ==> {
                let ri = relative_index_s(*self, rec.front_face);
                let ud = v_unit_s(r_in.direction);
                let cos = dielectric_cos_s(ud, rec.normal);
                sa.1 == (Vec3 { x: FP_ONE, y: FP_ONE, z: FP_ONE }) && sa.0.origin == rec.p && (
                sa.0.direction == v_reflect_s(ud, rec.normal) || sa.0.direction == v_refract_s(
                    ud,
                    rec.normal,
                    ri,
                )) && (cannot_refract_s(ri, cos) || schlick_s(cos, ri) >= FP_ONE
                    ==> sa.0.direction == v_reflect_s(ud, rec.normal))
            },
    {
        let attenuation = Vec3::new(FP_ONE, FP_ONE, FP_ONE);
        let ri = if rec.front_face {
            fp_div(FP_ONE, self.refraction_index)
        } else {
            self.refraction_index
        };

        let unit_direction = r_in.direction.unit();
        let d = unit_direction.neg().dot(&rec.normal);
        let cos_theta = if d > FP_ONE {
            FP_ONE
        } else {
            d
        };
        let sin_theta = fp_sqrt(fp_sub(FP_ONE, fp_mul(cos_theta, cos_theta)));

        let cannot_refract = fp_mul(ri, sin_theta) > FP_ONE;
        let direction = if cannot_refract || Dielectric::reflectance(cos_theta, ri)
            > random_unit_scalar() {
            reflect(&unit_direction, &rec.normal)
        } else {
            refract(&unit_direction, &rec.normal, ri)
        };

        let scattered = Ray::new(rec.p, direction);
        Some((scattered, attenuation))
    }
}

/// The bounds behind the reflectance contract: every factor of the Schlick
/// formula stays inside `[0, 1]`, so the sum does too, and a zero cosine
/// makes the fifth power exactly one.
proof fn lemma_schlick_unit(cosine: int, refraction_index: int)
    requires
        0 <= cosine <= FP_ONE,
        refraction_index >= 0,
    ensures
        0 <= schlick_s(cosine, refraction_index) <= FP_ONE,
        cosine == 0 ==> schlick_s(cosine, refraction_index) == FP_ONE,
{
    let one = FP_ONE as int;
    let num = fp_sub_s(one, refraction_index);
    let den = fp_add_s(one, refraction_index);
    assert(den >= one);
    assert(vstd::math::abs(num) <= den);
    lemma_fp_div_ratio_unit(num, den);
    let r0a = fp_div_s(num, den);
    lemma_fp_square_unit(r0a);
    let r0 = fp_mul_s(r0a, r0a);
    let p = fp_sub_s(one, cosine);
    assert(0 <= p <= one);
    lemma_fp_mul_unit(p, p);
    let p2 = fp_mul_s(p, p);
    lemma_fp_mul_unit(p2, p2);
    let p4 = fp_mul_s(p2, p2);
    lemma_fp_mul_unit(p4, p);
    let p5 = fp_mul_s(p4, p);
    lemma_fp_mul_unit(fp_sub_s(one, r0), p5);
    if cosine == 0 {
        assert(p == one);
        lemma_fp_mul_unit(p, p);
        assert(p2 == one);
        lemma_fp_mul_unit(p2, p2);
        assert(p4 == one);
        lemma_fp_mul_unit(p4, p);
        assert(p5 == one);
        assert(fp_mul_s(fp_sub_s(one, r0), p5) == fp_sub_s(one, r0)) by {
            lemma_fp_mul_unit(fp_sub_s(one, r0), p5);
        }
    }
}

impl Material {
    /// Answer a hit: the variant's own scattering rule decides the ray and
    /// attenuation, as each variant's contract states.
    pub fn scatter(&self, r_in: &Ray, rec: &HitRecord) -> (res: Option<(Ray, Color)>)
        ensures
            res matches Some(sa) ==> sa.0.origin == rec.p,
            self is Lambertian ==> res is Some && (res matches Some(sa) ==> sa.1
                == self->Lambertian_0.albedo),
            self is Dielectric ==> res is Some,
            self is Metal ==> (res matches Some(sa) ==> sa.1 == self->Metal_0.albedo && v_dot_s(
                sa.0.direction,
                rec.normal,
            ) > 0),
    {
        match self {
            Material::Lambertian(m) => m.scatter(r_in, rec),
            Material::Metal(m) => m.scatter(r_in, rec),
            Material::Dielectric(m) => m.scatter(r_in, rec),
        }
    }
}

} // verus!
