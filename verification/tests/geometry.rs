//! Tests of rays, sphere intersection and the nearest-hit scan over a scene
//! list.
use raytrace::fixed::{fp_mul, fp_sub, FP_MAX, FP_ONE};
use raytrace::hittable_list::HittableList;
use raytrace::interval::Interval;
use raytrace::material::{Lambertian, Material, Metal};
use raytrace::ray::Ray;
use raytrace::sphere::Sphere;
use raytrace::vec3::Vec3;

fn gray() -> Material {
    Material::Lambertian(Lambertian::new(Vec3::new(FP_ONE / 2, FP_ONE / 2, FP_ONE / 2)))
}

fn full_range() -> Interval {
    Interval::new(66, FP_MAX)
}

#[test]
fn ray_walks_its_parameter() {
    let r = Ray::new(Vec3::new(FP_ONE, 0, 0), Vec3::new(0, 2 * FP_ONE, 0));
    assert_eq!(r.at(0), Vec3::new(FP_ONE, 0, 0));
    assert_eq!(r.at(FP_ONE / 2), Vec3::new(FP_ONE, FP_ONE, 0));
}

#[test]
fn sphere_hit_reports_the_near_root_on_the_surface() {
    let s = Sphere::new(Vec3::new(0, 0, -FP_ONE), FP_ONE / 2, gray());
    let r = Ray::new(Vec3::new(0, 0, 0), Vec3::new(0, 0, -FP_ONE));
    let rec = s.hit(&r, &full_range()).expect("center ray must hit");
    assert_eq!(rec.t, FP_ONE / 2);
    assert_eq!(rec.p, Vec3::new(0, 0, -FP_ONE / 2));
    // The hit point lies on the surface: |p - center| equals the radius.
    let offset = rec.p.sub(&s.center);
    assert_eq!(offset.length(), s.radius);
    // The oriented normal is a unit vector and fronts the ray.
    assert_eq!(rec.normal, Vec3::new(0, 0, FP_ONE));
    assert_eq!(rec.normal.length_squared(), FP_ONE);
    assert!(rec.front_face);
    assert_eq!(rec.normal.dot(&r.direction) <= 0, rec.front_face);
}

#[test]
fn sphere_hit_from_inside_flips_the_normal() {
    let s = Sphere::new(Vec3::new(0, 0, -FP_ONE), FP_ONE / 2, gray());
    let r = Ray::new(Vec3::new(0, 0, -FP_ONE), Vec3::new(0, 0, -FP_ONE));
    let rec = s.hit(&r, &full_range()).expect("inside ray must hit the shell");
    assert_eq!(rec.t, FP_ONE / 2);
    assert!(!rec.front_face);
    // The outward normal points along -z there; the stored one is flipped.
    assert_eq!(rec.normal, Vec3::new(0, 0, FP_ONE));
}

#[test]
fn sphere_miss_and_degenerate_radius() {
    let s = Sphere::new(Vec3::new(0, 0, -FP_ONE), FP_ONE / 2, gray());
    let away = Ray::new(Vec3::new(0, 0, 0), Vec3::new(0, 0, FP_ONE));
    assert!(s.hit(&away, &full_range()).is_none());

    let flat = Sphere::new(Vec3::new(0, 0, -FP_ONE), -FP_ONE, gray());
    assert_eq!(flat.radius, 0);
    let through = Ray::new(Vec3::new(0, 0, 0), Vec3::new(0, 0, -FP_ONE));
    assert!(flat.hit(&through, &full_range()).is_none());
}

#[test]
fn sphere_respects_the_range_bounds() {
    let s = Sphere::new(Vec3::new(0, 0, -FP_ONE), FP_ONE / 2, gray());
    let r = Ray::new(Vec3::new(0, 0, 0), Vec3::new(0, 0, -FP_ONE));
    // The near root is at exactly 0.5; a range ending there excludes it and
    // lets the far root at 1.5 qualify instead.
    let upto_near = Interval::new(66, FP_ONE / 2);
    assert!(s.hit(&r, &upto_near).is_none());
    let between = Interval::new(FP_ONE / 2, 2 * FP_ONE);
    let rec = s.hit(&r, &between).expect("far root lies inside");
    assert_eq!(rec.t, 3 * FP_ONE / 2);
}

#[test]
fn list_hit_matches_a_manual_scan_for_the_least_t() {
    let mut world = HittableList::new();
    let near = Sphere::new(Vec3::new(0, 0, -FP_ONE), FP_ONE / 4, gray());
    let far = Sphere::new(Vec3::new(0, 0, -4 * FP_ONE), FP_ONE / 4, gray());
    let aside = Sphere::new(Vec3::new(0, 5 * FP_ONE, 0), FP_ONE / 4, gray());
    world.add(far);
    world.add(near);
    world.add(aside);

    let r = Ray::new(Vec3::new(0, 0, 0), Vec3::new(0, 0, -FP_ONE));
    let range = full_range();
    let best = world.hit(&r, &range).expect("two spheres lie on the ray");

    // The manual scan over each child.
    let mut manual: Option<raytrace::hittable::HitRecord> = None;
    for s in [far, near, aside] {
        if let Some(rec) = s.hit(&r, &range) {
            manual = match manual {
                Some(b) if b.t <= rec.t => Some(b),
                _ => Some(rec),
            };
        }
    }
    let manual = manual.expect("manual scan agrees something was hit");
    assert_eq!(best.t, manual.t);
    assert_eq!(best.p, manual.p);
    assert_eq!(best.t, near.hit(&r, &range).unwrap().t);
}

#[test]
fn list_hit_is_none_exactly_when_every_child_misses() {
    let mut world = HittableList::new();
    assert!(world.hit(&Ray::new(Vec3::new(0, 0, 0), Vec3::new(0, 0, -FP_ONE)), &full_range())
        .is_none());
    world.add(Sphere::new(Vec3::new(0, 5 * FP_ONE, 0), FP_ONE / 4, gray()));
    let r = Ray::new(Vec3::new(0, 0, 0), Vec3::new(0, 0, -FP_ONE));
    assert!(world.hit(&r, &full_range()).is_none());
}

#[test]
fn list_hit_breaks_ties_for_the_earliest_child() {
    // Two spheres with identical geometry but different materials: the scan
    // keeps the first, as the library documents for exact ties.
    let red = Material::Metal(Metal::new(Vec3::new(FP_ONE, 0, 0), 0));
    let blue = Material::Metal(Metal::new(Vec3::new(0, 0, FP_ONE), 0));
    let mut world = HittableList::new();
    world.add(Sphere::new(Vec3::new(0, 0, -FP_ONE), FP_ONE / 2, red));
    world.add(Sphere::new(Vec3::new(0, 0, -FP_ONE), FP_ONE / 2, blue));
    let r = Ray::new(Vec3::new(0, 0, 0), Vec3::new(0, 0, -FP_ONE));
    let rec = world.hit(&r, &full_range()).expect("both spheres are hit");
    assert_eq!(rec.mat, red);
}

#[test]
fn list_clear_empties_the_scene() {
    let mut world = HittableList::new();
    world.add(Sphere::new(Vec3::new(0, 0, -FP_ONE), FP_ONE / 2, gray()));
    world.clear();
    let r = Ray::new(Vec3::new(0, 0, 0), Vec3::new(0, 0, -FP_ONE));
    assert!(world.hit(&r, &full_range()).is_none());
}

#[test]
fn quadratic_pieces_compose_exactly_on_a_round_case() {
    // For the canonical sphere the discriminant arithmetic is exact:
    // a = 1, h = 1, c = 0.75, disc = 0.25, sqrt = 0.5, t = 0.5.
    let d = Vec3::new(0, 0, -FP_ONE);
    let oc = Vec3::new(0, 0, -FP_ONE);
    let a = d.length_squared();
    let h = d.dot(&oc);
    let c = fp_sub(oc.length_squared(), fp_mul(FP_ONE / 2, FP_ONE / 2));
    assert_eq!(a, FP_ONE);
    assert_eq!(h, FP_ONE);
    assert_eq!(c, 3 * FP_ONE / 4);
    let disc = fp_sub(fp_mul(h, h), fp_mul(a, c));
    assert_eq!(disc, FP_ONE / 4);
}
