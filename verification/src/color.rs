//! The display pipeline for one pixel: gamma-2 transform, clamp to
//! `[0, 0.999]`, and quantization of each channel to a byte as
//! `floor(256 * value)`.
use vstd::prelude::*;

verus! {

use crate::fixed::{fp_sqrt, fp_sqrt_s, FP_ONE};
use crate::interval::{clamp_s, Interval};
use crate::material::Color;

/// The largest displayable channel value, 0.999 at the scalar resolution.
pub const INTENSITY_MAX: i64 = 65470;

/// Gamma 2: the square root of a positive component; the rest map to zero.
pub open spec fn linear_to_gamma_s(c: int) -> int {
    if c > 0 {
        fp_sqrt_s(c)
    } else {
        0
    }
}

pub open spec fn intensity_s() -> Interval {
    Interval { min: 0, max: INTENSITY_MAX }
}

/// The byte a linear channel value is displayed as.
pub open spec fn byte_of_s(c: int) -> int {
    (256 * clamp_s(intensity_s(), linear_to_gamma_s(c))) / (FP_ONE as int)
}

pub fn linear_to_gamma(linear_component: i64) -> (r: i64)
    ensures
        r as int == linear_to_gamma_s(linear_component as int),
        r >= 0,
{
    if linear_component > 0 {
        fp_sqrt(linear_component)
    } else {
        0
    }
}

fn quantize(clamped: i64) -> (r: u8)
    requires
        0 <= clamped <= INTENSITY_MAX,
    ensures
        r as int == (256 * clamped) / (FP_ONE as int),
{
    proof {
        vstd::arithmetic::div_mod::lemma_div_is_ordered(
            256 * (clamped as int),
            256 * (INTENSITY_MAX as int),
            FP_ONE as int,
        );
        vstd::arithmetic::div_mod::lemma_div_pos_is_pos(256 * (clamped as int), FP_ONE as int);
    }
    (((clamped as u64) * 256) / (FP_ONE as u64)) as u8
}

/// The three bytes a pixel's averaged linear color is written as, in red,
/// green, blue order.
pub fn write_color(pixel_color: &Color) -> (rgb: (u8, u8, u8))
    ensures
        rgb.0 as int == byte_of_s(pixel_color.x as int),
        rgb.1 as int == byte_of_s(pixel_color.y as int),
        rgb.2 as int == byte_of_s(pixel_color.z as int),
{
    let r = linear_to_gamma(pixel_color.x);
    let g = linear_to_gamma(pixel_color.y);
    let b = linear_to_gamma(pixel_color.z);

    let intensity = Interval::new(0, INTENSITY_MAX);
    let rbyte = quantize(intensity.clamp(r));
    let gbyte = quantize(intensity.clamp(g));
    let bbyte = quantize(intensity.clamp(b));

    (rbyte, gbyte, bbyte)
}

} // verus!
