//! The camera: derives the viewport geometry from its configuration,
//! generates jittered primary rays with optional defocus blur, runs the
//! per-pixel sampling loop, and hands each resolved pixel through the color
//! pipeline into a row-major byte buffer. The recursive integrator
//! `ray_color` lives here too.
use vstd::prelude::*;

verus! {

use crate::color::write_color;
use crate::fixed::{
    fp_add, fp_add_s, fp_div, fp_div_s, fp_mul, fp_mul_s, fp_sub_s, fp_trunc_to_int, div_trunc,
    FP_MAX, FP_ONE,
};
use crate::hittable_list::HittableList;
use crate::interval::Interval;
use crate::material::Color;
use crate::ray::Ray;
use crate::rng::{random_in_unit_disk, random_unit_scalar};
use crate::sphere::sphere_hit_s;
use crate::vec3::{
    v_add_s, v_cross_s, v_div_scalar_s, v_neg_s, v_scale_s, v_sub_s, v_unit_s, Point3, Vec3,
};

/// 2.0 and 0.5 at the scalar resolution.
pub const FP_TWO: i64 = 0x2_0000;

pub const FP_HALF: i64 = 0x8000;

/// Intersections nearer than about a thousandth are discarded so that a just
/// scattered ray cannot hit its own origin.
pub const HIT_TMIN: i64 = 66;

/// The widest image the renderer accepts, a machine limit on the pixel count.
pub const MAX_IMAGE_WIDTH: i32 = 0x10_0000;

pub struct Camera {
    /// Ratio of image width over height.
    pub aspect_ratio: i64,
    /// Rendered image width in pixel count.
    pub image_width: i32,
    /// Count of random samples for each pixel.
    pub samples_per_pixel: i32,
    /// Maximum number of ray bounces into the scene.
    pub max_depth: i32,
    /// Vertical view angle, held as the tangent of half the angle
    /// (1 stands for a 90 degree field of view).
    pub tan_half_vfov: i64,
    /// Point the camera is looking from.
    pub lookfrom: Point3,
    /// Point the camera is looking at.
    pub lookat: Point3,
    /// Camera-relative "up" direction.
    pub vup: Vec3,
    /// Variation cone of rays through each pixel, held as the tangent of
    /// half its angle (0 stands for a pinhole camera).
    pub tan_half_defocus: i64,
    /// Distance from the camera to the plane of perfect focus.
    pub focus_dist: i64,
    /// Rendered image height, derived at render start.
    pub image_height: i32,
    /// Color scale factor for a sum of pixel samples.
    pub pixel_samples_scale: i64,
    /// Camera center.
    pub center: Point3,
    /// Location of the center of pixel (0, 0).
    pub pixel00_loc: Point3,
    /// Offset to the pixel to the right.
    pub pixel_delta_u: Vec3,
    /// Offset to the pixel below.
    pub pixel_delta_v: Vec3,
    /// Camera frame basis vector pointing right.
    pub u: Vec3,
    /// Camera frame basis vector pointing up.
    pub v: Vec3,
    /// Camera frame basis vector opposite the view direction.
    pub w: Vec3,
    /// Defocus disk horizontal radius vector.
    pub defocus_disk_u: Vec3,
    /// Defocus disk vertical radius vector.
    pub defocus_disk_v: Vec3,
}

/// Pixel rows per image: the width over the aspect ratio, rounded to the
/// nearest whole row, and never less than one.
pub open spec fn image_height_s(c: Camera) -> int {
    let h = div_trunc(
        fp_add_s(fp_div_s(c.image_width as int * FP_ONE, c.aspect_ratio as int), FP_HALF as int),
        FP_ONE as int,
    );
    if h < 1 {
        1
    } else {
        h
    }
}

pub open spec fn pixel_samples_scale_s(c: Camera) -> int {
    fp_div_s(FP_ONE as int, c.samples_per_pixel as int * FP_ONE)
}

pub open spec fn viewport_height_s(c: Camera) -> int {
    fp_mul_s(fp_mul_s(FP_TWO as int, c.tan_half_vfov as int), c.focus_dist as int)
}

pub open spec fn viewport_width_s(c: Camera) -> int {
    fp_mul_s(
        viewport_height_s(c),
        fp_div_s(c.image_width as int * FP_ONE, image_height_s(c) * FP_ONE),
    )
}

pub open spec fn w_basis_s(c: Camera) -> Vec3 {
    v_unit_s(v_sub_s(c.lookfrom, c.lookat))
}

pub open spec fn u_basis_s(c: Camera) -> Vec3 {
    v_unit_s(v_cross_s(c.vup, w_basis_s(c)))
}

pub open spec fn v_basis_s(c: Camera) -> Vec3 {
    v_cross_s(w_basis_s(c), u_basis_s(c))
}

pub open spec fn viewport_u_s(c: Camera) -> Vec3 {
    v_scale_s(u_basis_s(c), viewport_width_s(c))
}

pub open spec fn viewport_v_s(c: Camera) -> Vec3 {
    v_scale_s(v_neg_s(v_basis_s(c)), viewport_height_s(c))
}

pub open spec fn pixel_delta_u_s(c: Camera) -> Vec3 {
    v_div_scalar_s(viewport_u_s(c), c.image_width as int * FP_ONE)
}

pub open spec fn pixel_delta_v_s(c: Camera) -> Vec3 {
    v_div_scalar_s(viewport_v_s(c), image_height_s(c) * FP_ONE)
}

pub open spec fn pixel00_loc_s(c: Camera) -> Point3 {
    let upper_left = v_sub_s(
        v_sub_s(
            v_sub_s(c.lookfrom, v_scale_s(w_basis_s(c), c.focus_dist as int)),
            v_div_scalar_s(viewport_u_s(c), FP_TWO as int),
        ),
        v_div_scalar_s(viewport_v_s(c), FP_TWO as int),
    );
    v_add_s(
        upper_left,
        v_scale_s(v_add_s(pixel_delta_u_s(c), pixel_delta_v_s(c)), FP_HALF as int),
    )
}

pub open spec fn defocus_radius_s(c: Camera) -> int {
    fp_mul_s(c.focus_dist as int, c.tan_half_defocus as int)
}

pub open spec fn defocus_disk_u_s(c: Camera) -> Vec3 {
    v_scale_s(u_basis_s(c), defocus_radius_s(c))
}

pub open spec fn defocus_disk_v_s(c: Camera) -> Vec3 {
    v_scale_s(v_basis_s(c), defocus_radius_s(c))
}

/// `cam` is `cfg` with every derived field freshly computed.
pub open spec fn initialized_s(cfg: Camera, cam: Camera) -> bool {
    &&& cam.aspect_ratio == cfg.aspect_ratio
    &&& cam.image_width == cfg.image_width
    &&& cam.samples_per_pixel == cfg.samples_per_pixel
    &&& cam.max_depth == cfg.max_depth
    &&& cam.tan_half_vfov == cfg.tan_half_vfov
    &&& cam.lookfrom == cfg.lookfrom
    &&& cam.lookat == cfg.lookat
    &&& cam.vup == cfg.vup
    &&& cam.tan_half_defocus == cfg.tan_half_defocus
    &&& cam.focus_dist == cfg.focus_dist
    &&& cam.image_height as int == image_height_s(cfg)
    &&& cam.pixel_samples_scale as int == pixel_samples_scale_s(cfg)
    &&& cam.center == cfg.lookfrom
    &&& cam.w == w_basis_s(cfg)
    &&& cam.u == u_basis_s(cfg)
    &&& cam.v == v_basis_s(cfg)
    &&& cam.pixel_delta_u == pixel_delta_u_s(cfg)
    &&& cam.pixel_delta_v == pixel_delta_v_s(cfg)
    &&& cam.pixel00_loc == pixel00_loc_s(cfg)
    &&& cam.defocus_disk_u == defocus_disk_u_s(cfg)
    &&& cam.defocus_disk_v == defocus_disk_v_s(cfg)
}

/// The ray through pixel (i, j) for a given jitter `offset`; with defocus
/// blur on, the origin leaves the center along the disk sample `disk`.
pub open spec fn ray_through_s(cam: Camera, i: int, j: int, offset: Vec3, disk: Vec3) -> Ray {
    let pixel_sample = v_add_s(
        v_add_s(
            cam.pixel00_loc,
            v_scale_s(cam.pixel_delta_u, fp_add_s(i * FP_ONE, offset.x as int)),
        ),
        v_scale_s(cam.pixel_delta_v, fp_add_s(j * FP_ONE, offset.y as int)),
    );
    let origin = if cam.tan_half_defocus <= 0 {
        cam.center
    } else {
        v_add_s(
            v_add_s(cam.center, v_scale_s(cam.defocus_disk_u, disk.x as int)),
            v_scale_s(cam.defocus_disk_v, disk.y as int),
        )
    };
    Ray { origin, direction: v_sub_s(pixel_sample, origin) }
}

/// The implicit sky a missed ray escapes to: a vertical blend from white to
/// sky blue driven by the unit direction's height.
pub open spec fn sky_color_s(r: Ray) -> Vec3 {
    let a = fp_mul_s(FP_HALF as int, fp_add_s(v_unit_s(r.direction).y as int, FP_ONE as int));
    v_add_s(
        v_scale_s(Vec3 { x: FP_ONE, y: FP_ONE, z: FP_ONE }, fp_sub_s(FP_ONE as int, a)),
        v_scale_s(Vec3 { x: 0x8000, y: 0xB333, z: 0x1_0000 }, a),
    )
}

impl Default for Camera {
    /// A square pinhole camera at the origin looking down the negative `z`
    /// axis, 100 pixels wide, 10 samples per pixel, 10 bounces, a 90 degree
    /// field of view and a focus distance of 10.
    fn default() -> (c: Camera)
        ensures
            c.aspect_ratio == FP_ONE,
            c.image_width == 100,
            c.samples_per_pixel == 10,
            c.max_depth == 10,
            c.tan_half_vfov == FP_ONE,
            c.lookfrom == (Vec3 { x: 0i64, y: 0i64, z: 0i64 }),
            c.lookat.x == 0 && c.lookat.y == 0 && c.lookat.z == -FP_ONE,
            c.vup == (Vec3 { x: 0i64, y: FP_ONE, z: 0i64 }),
            c.tan_half_defocus == 0,
            c.focus_dist == 10 * FP_ONE,
    {
        Camera {
            aspect_ratio: FP_ONE,
            image_width: 100,
            samples_per_pixel: 10,
            max_depth: 10,
            tan_half_vfov: FP_ONE,
            lookfrom: Vec3 { x: 0, y: 0, z: 0 },
            lookat: Vec3 { x: 0, y: 0, z: -FP_ONE },
            vup: Vec3 { x: 0, y: FP_ONE, z: 0 },
            tan_half_defocus: 0,
            focus_dist: 10 * FP_ONE,
            image_height: 0,
            pixel_samples_scale: 0,
            center: Vec3 { x: 0, y: 0, z: 0 },
            pixel00_loc: Vec3 { x: 0, y: 0, z: 0 },
            pixel_delta_u: Vec3 { x: 0, y: 0, z: 0 },
            pixel_delta_v: Vec3 { x: 0, y: 0, z: 0 },
            u: Vec3 { x: 0, y: 0, z: 0 },
            v: Vec3 { x: 0, y: 0, z: 0 },
            w: Vec3 { x: 0, y: 0, z: 0 },
            defocus_disk_u: Vec3 { x: 0, y: 0, z: 0 },
            defocus_disk_v: Vec3 { x: 0, y: 0, z: 0 },
        }
    }
}

impl Camera {
    pub fn with_aspect_ratio(self, aspect_ratio: i64) -> (c: Camera)
        ensures
            c == (Camera { aspect_ratio, ..self }),
    {
        Camera { aspect_ratio, ..self }
    }

    pub fn with_image_width(self, image_width: i32) -> (c: Camera)
        ensures
            c == (Camera { image_width, ..self }),
    {
        Camera { image_width, ..self }
    }

    pub fn with_samples_per_pixel(self, samples_per_pixel: i32) -> (c: Camera)
        ensures
            c == (Camera { samples_per_pixel, ..self }),
    {
        Camera { samples_per_pixel, ..self }
    }

    pub fn with_max_depth(self, max_depth: i32) -> (c: Camera)
        ensures
            c == (Camera { max_depth, ..self }),
    {
        Camera { max_depth, ..self }
    }

    /// Set the vertical field of view by the tangent of half its angle.
    pub fn with_vfov(self, tan_half_vfov: i64) -> (c: Camera)
        ensures
            c == (Camera { tan_half_vfov, ..self }),
    {
        Camera { tan_half_vfov, ..self }
    }

    pub fn with_lookfrom(self, lookfrom: Point3) -> (c: Camera)
        ensures
            c == (Camera { lookfrom, ..self }),
    {
        Camera { lookfrom, ..self }
    }

    pub fn with_lookat(self, lookat: Point3) -> (c: Camera)
        ensures
            c == (Camera { lookat, ..self }),
    {
        Camera { lookat, ..self }
    }

    pub fn with_vup(self, vup: Vec3) -> (c: Camera)
        ensures
            c == (Camera { vup, ..self }),
    {
        Camera { vup, ..self }
    }

    /// Set the defocus cone by the tangent of half its angle; zero or less
    /// keeps a pinhole camera.
    pub fn with_defocus_angle(self, tan_half_defocus: i64) -> (c: Camera)
        ensures
            c == (Camera { tan_half_defocus, ..self }),
    {
        Camera { tan_half_defocus, ..self }
    }

    pub fn with_focus_dist(self, focus_dist: i64) -> (c: Camera)
        ensures
            c == (Camera { focus_dist, ..self }),
    {
        Camera { focus_dist, ..self }
    }

    /// Recompute every derived field from the configuration. Idempotent per
    /// render; the configuration itself is untouched.
    pub fn initialize(&mut self)
        requires
            0 <= old(self).image_width <= MAX_IMAGE_WIDTH,
        ensures
            initialized_s(*old(self), *final(self)),
            1 <= final(self).image_height <= 0x1000_0000,
    {
        let wfp: i64 = (self.image_width as i64) * FP_ONE;
        let hfp = fp_add(fp_div(wfp, self.aspect_ratio), FP_HALF);
        let ht = fp_trunc_to_int(hfp);
        proof {
            vstd::arithmetic::div_mod::lemma_div_is_ordered(
                vstd::math::abs(hfp as int) as int,
                FP_MAX as int,
                FP_ONE as int,
            );
        }
        self.image_height = if ht < 1 {
            1
        } else {
            ht as i32
        };

        self.pixel_samples_scale = fp_div(FP_ONE, (self.samples_per_pixel as i64) * FP_ONE);

        self.center = self.lookfrom;

        // Viewport dimensions from the half-angle tangent and focus distance.
        let viewport_height = fp_mul(fp_mul(FP_TWO, self.tan_half_vfov), self.focus_dist);
        let viewport_width = fp_mul(
            viewport_height,
            fp_div(wfp, (self.image_height as i64) * FP_ONE),
        );

        // The orthonormal camera frame.
        self.w = self.lookfrom.sub(&self.lookat).unit();
        self.u = self.vup.cross(&self.w).unit();
        self.v = self.w.cross(&self.u);

        // Vectors across the horizontal and down the vertical viewport edges.
        let viewport_u = self.u.scale(viewport_width);
        let viewport_v = self.v.neg().scale(viewport_height);

        // Pixel-to-pixel deltas.
        self.pixel_delta_u = viewport_u.div_scalar(wfp);
        self.pixel_delta_v = viewport_v.div_scalar((self.image_height as i64) * FP_ONE);

        // The center of the upper left pixel.
        let viewport_upper_left = self
            .center
            .sub(&self.w.scale(self.focus_dist))
            .sub(&viewport_u.div_scalar(FP_TWO))
            .sub(&viewport_v.div_scalar(FP_TWO));
        self.pixel00_loc = viewport_upper_left.add(
            &self.pixel_delta_u.add(&self.pixel_delta_v).scale(FP_HALF),
        );

        // The defocus disk basis.
        let defocus_radius = fp_mul(self.focus_dist, self.tan_half_defocus);
        self.defocus_disk_u = self.u.scale(defocus_radius);
        self.defocus_disk_v = self.v.scale(defocus_radius);
    }

    /// The primary ray for pixel (i, j), with the jitter and disk sample
    /// passed in; deterministic, and exactly what `ray_through_s` states.
    pub fn get_ray_at(&self, i: i32, j: i32, offset: Vec3, disk: Vec3) -> (r: Ray)
        ensures
            r == ray_through_s(*self, i as int, j as int, offset, disk),
    {
        let pixel_sample = self
            .pixel00_loc
            .add(&self.pixel_delta_u.scale(fp_add((i as i64) * FP_ONE, offset.x)))
            .add(&self.pixel_delta_v.scale(fp_add((j as i64) * FP_ONE, offset.y)));

        let ray_origin = if self.tan_half_defocus <= 0 {
            self.center
        } else {
            self
                .center
                .add(&self.defocus_disk_u.scale(disk.x))
                .add(&self.defocus_disk_v.scale(disk.y))
        };
        let ray_direction = pixel_sample.sub(&ray_origin);

        Ray::new(ray_origin, ray_direction)
    }

    /// A primary ray for pixel (i, j) with fresh jitter and defocus samples.
    fn get_ray(&self, i: i32, j: i32) -> (r: Ray)
        ensures
            exists|offset: Vec3, disk: Vec3|
                r == ray_through_s(*self, i as int, j as int, offset, disk),
    {
        let offset = Self::sample_square();
        let disk = random_in_unit_disk();
        let r = self.get_ray_at(i, j, offset, disk);
        proof {
            assert(r == ray_through_s(*self, i as int, j as int, offset, disk));
        }
        r
    }

    /// A jitter offset drawn uniformly from the half-open unit square
    /// centered on the origin.
    fn sample_square() -> (r: Vec3)
        ensures
            -FP_HALF <= r.x < FP_HALF,
            -FP_HALF <= r.y < FP_HALF,
            r.z == 0,
    {
        Vec3::new(
            random_unit_scalar() - FP_HALF,
            random_unit_scalar() - FP_HALF,
            0,
        )
    }

    /// The radiance a ray gathers. A spent depth budget is black; a missed
    /// scene is exactly the sky blend; a hit defers to the material, black on
    /// absorption and the attenuated recursive radiance otherwise.
    pub fn ray_color(r: &Ray, depth: i32, world: &HittableList) -> (c: Color)
        ensures
            depth <= 0 ==> c == (Vec3 { x: 0i64, y: 0i64, z: 0i64 }),
            (depth > 0 && forall|k: int|
                0 <= k < world.objects@.len() ==> sphere_hit_s(
                    world.objects@[k],
                    *r,
                    Interval { min: HIT_TMIN, max: FP_MAX },
                ) is None) ==> c == sky_color_s(*r),
        decreases depth,
    {
        if depth <= 0 {
            return Vec3::new(0, 0, 0);
        }

        let range = Interval::new(HIT_TMIN, FP_MAX);
        match world.hit(r, &range) {
            Some(rec) => {
                match rec.mat.scatter(r, &rec) {
                    Some((scattered, attenuation)) => {
                        attenuation.comp_mul(&Self::ray_color(&scattered, depth - 1, world))
                    },
                    None => Vec3::new(0, 0, 0),
                }
            },
            None => {
                let a = fp_mul(FP_HALF, fp_add(r.direction.unit().y, FP_ONE));
                Vec3::new(FP_ONE, FP_ONE, FP_ONE).scale(crate::fixed::fp_sub(FP_ONE, a)).add(
                    &Vec3::new(0x8000, 0xB333, 0x1_0000).scale(a),
                )
            },
        }
    }

    /// Render the scene: derive the viewport, then resolve every pixel in
    /// raster order, averaging `samples_per_pixel` radiance samples and
    /// quantizing through the color pipeline. The buffer holds exactly
    /// `image_height * image_width` byte triples, rows top to bottom, pixels
    /// left to right.
    pub fn render(&mut self, world: &HittableList) -> (pixels: Vec<(u8, u8, u8)>)
        requires
            0 <= old(self).image_width <= MAX_IMAGE_WIDTH,
        ensures
            initialized_s(*old(self), *final(self)),
            1 <= final(self).image_height,
            pixels@.len() == final(self).image_height * final(self).image_width,
    {
        self.initialize();

        let width = self.image_width;
        let height = self.image_height;
        let ghost cam = *self;

        let mut pixels: Vec<(u8, u8, u8)> = Vec::new();
        let mut j: i32 = 0;
        while j < height
            invariant
                *self == cam,
                width == cam.image_width,
                height == cam.image_height,
                0 <= width,
                1 <= height,
                0 <= j <= height,
                pixels@.len() == j * width,
            decreases height - j,
        {
            let mut i: i32 = 0;
            while i < width
                invariant
                    *self == cam,
                    width == cam.image_width,
                    0 <= i <= width,
                    pixels@.len() == j * width + i,
                decreases width - i,
            {
                let mut pixel_color = Vec3::new(0, 0, 0);
                let mut sample: i32 = 0;
                while sample < self.samples_per_pixel
                    invariant
                        *self == cam,
                    decreases self.samples_per_pixel - sample,
                {
                    let r = self.get_ray(i, j);
                    pixel_color = pixel_color.add(&Self::ray_color(&r, self.max_depth, world));
                    sample = sample + 1;
                }
                let resolved = pixel_color.scale(self.pixel_samples_scale);
                pixels.push(write_color(&resolved));
                i = i + 1;
            }
            proof {
                assert((j + 1) * width == j * width + width) by (nonlinear_arith);
            }
            j = j + 1;
        }
        pixels
    }
}

} // verus!
