//! The library's one source of randomness, and the sampling helpers built on
//! it. Only the raw draw is trusted; everything shaped from it is verified.
use vstd::prelude::*;

verus! {

use crate::fixed::FP_ONE;
use crate::vec3::{v_len_sq_s, Vec3};

/// Relies on rand::random: one word from the thread-local generator. The
/// result depends on generator state, so nothing is promised of its value.
#[verifier::external_body]
fn random_u32() -> u32 {
    rand::random::<u32>()
}

/// A scalar drawn from `[0, 1)`.
pub fn random_unit_scalar() -> (r: i64)
    ensures
        0 <= r < FP_ONE,
{
    (random_u32() % 0x1_0000) as i64
}

/// A scalar drawn from `[-1, 1)`.
pub fn random_symmetric_scalar() -> (r: i64)
    ensures
        -FP_ONE <= r < FP_ONE,
{
    2 * random_unit_scalar() - FP_ONE
}

/// A direction of roughly unit length: a point sampled inside the unit ball
/// and scaled up, with a fixed axis as the fallback for rejected draws.
pub fn random_unit_vector() -> (r: Vec3)
    ensures
        !crate::vec3::v_near_zero_s(r),
{
    let mut tries: u32 = 0;
    while tries < 64
        invariant
            tries <= 64,
        decreases 64 - tries,
    {
        let p = Vec3::new(
            random_symmetric_scalar(),
            random_symmetric_scalar(),
            random_symmetric_scalar(),
        );
        let lensq = p.length_squared();
        if 0 < lensq && lensq <= FP_ONE {
            let u = p.unit();
            if !u.near_zero() {
                return u;
            }
        }
        tries = tries + 1;
    }
    Vec3::new(FP_ONE, 0, 0)
}

/// A point inside the unit disk of the `x`-`y` plane.
pub fn random_in_unit_disk() -> (r: Vec3)
    ensures
        r.z == 0,
        v_len_sq_s(r) < FP_ONE,
{
    let mut tries: u32 = 0;
    while tries < 64
        invariant
            tries <= 64,
        decreases 64 - tries,
    {
        let p = Vec3::new(random_symmetric_scalar(), random_symmetric_scalar(), 0);
        let lensq = p.length_squared();
        if lensq < FP_ONE {
            return p;
        }
        tries = tries + 1;
    }
    let origin = Vec3::new(0, 0, 0);
    assert(v_len_sq_s(origin) == 0) by {
        crate::fixed::lemma_fp_mul_unit(0, 0);
    }
    origin
}

} // verus!
