//! Saturating fixed-point scalar arithmetic.
//!
//! A scalar is an `i64` holding a real value scaled by `FP_ONE` (so `FP_ONE`
//! is 1.0 and `FP_ONE / 2` is 0.5). Every operation truncates toward zero and
//! saturates at `FP_MAX`, so all operations are total and every result stays
//! inside `[-FP_MAX, FP_MAX]`. `FP_MAX` also stands in for infinity where an
//! unbounded range is meant.
use vstd::prelude::*;

verus! {

use vstd::math::abs;

/// The representation of 1.0: values carry 16 fractional bits.
pub const FP_ONE: i64 = 0x1_0000;

/// Largest magnitude a scalar can hold; also the stand-in for infinity.
pub const FP_MAX: i64 = 0x1000_0000_0000;

/// Saturate an unbounded integer into the representable range.
pub open spec fn fp_clip(x: int) -> int {
    if x > FP_MAX {
        FP_MAX as int
    } else if x < -FP_MAX {
        -FP_MAX as int
    } else {
        x
    }
}

/// Quotient truncated toward zero, as Rust's integer division computes it.
pub open spec fn div_trunc(a: int, b: int) -> int
    recommends
        b != 0,
{
    let q = abs(a) / abs(b);
    if (a < 0) != (b < 0) {
        -(q as int)
    } else {
        q as int
    }
}

pub open spec fn fp_add_s(a: int, b: int) -> int {
    fp_clip(a + b)
}

pub open spec fn fp_sub_s(a: int, b: int) -> int {
    fp_clip(a - b)
}

pub open spec fn fp_neg_s(a: int) -> int {
    fp_clip(-a)
}

pub open spec fn fp_mul_s(a: int, b: int) -> int {
    fp_clip(div_trunc(a * b, FP_ONE as int))
}

/// Division of scalars; a zero divisor yields zero.
pub open spec fn fp_div_s(a: int, b: int) -> int {
    if b == 0 {
        0
    } else {
        fp_clip(div_trunc(a * FP_ONE, b))
    }
}

pub open spec fn fp_abs_s(a: int) -> int {
    fp_clip(abs(a) as int)
}

/// Largest natural number whose square does not exceed `n`.
pub open spec fn sqrt_floor(n: nat) -> nat
    decreases n,
{
    if n == 0 {
        0
    } else {
        let r = sqrt_floor((n - 1) as nat);
        if (r + 1) * (r + 1) <= n {
            r + 1
        } else {
            r
        }
    }
}

/// Square root of a scalar; nonpositive inputs yield zero.
pub open spec fn fp_sqrt_s(a: int) -> int {
    if a <= 0 {
        0
    } else {
        sqrt_floor((a * FP_ONE) as nat) as int
    }
}

pub open spec fn fp_in_range(x: int) -> bool {
    -FP_MAX <= x <= FP_MAX
}

proof fn lemma_sqrt_floor_bounds(n: nat)
    ensures
        sqrt_floor(n) * sqrt_floor(n) <= n,
        n < (sqrt_floor(n) + 1) * (sqrt_floor(n) + 1),
    decreases n,
{
    if n > 0 {
        lemma_sqrt_floor_bounds((n - 1) as nat);
        let r = sqrt_floor((n - 1) as nat);
        if (r + 1) * (r + 1) <= n {
            assert(sqrt_floor(n) == r + 1);
            assert(n == (r + 1) * (r + 1));
            assert((r + 2) * (r + 2) > (r + 1) * (r + 1)) by (nonlinear_arith);
            assert(sqrt_floor(n) * sqrt_floor(n) <= n);
            assert(n < (sqrt_floor(n) + 1) * (sqrt_floor(n) + 1));
        } else {
            assert(sqrt_floor(n) == r);
            assert(r * r <= n - 1);
            assert(sqrt_floor(n) * sqrt_floor(n) <= n);
            assert(n < (sqrt_floor(n) + 1) * (sqrt_floor(n) + 1));
        }
    } else {
        assert(n == 0);
        assert(sqrt_floor(n) == 0);
        assert(sqrt_floor(n) * sqrt_floor(n) <= n);
        assert((sqrt_floor(n) + 1) * (sqrt_floor(n) + 1) == 1) by (nonlinear_arith)
            requires
                sqrt_floor(n) == 0,
    ;
        assert(n < (sqrt_floor(n) + 1) * (sqrt_floor(n) + 1));
    }
}

proof fn lemma_sqrt_floor_unique(n: nat, r: nat)
    requires
        r * r <= n,
        n < (r + 1) * (r + 1),
    ensures
        r == sqrt_floor(n),
{
    lemma_sqrt_floor_bounds(n);
    let s = sqrt_floor(n);
    if r < s {
        assert((r + 1) * (r + 1) <= s * s) by (nonlinear_arith)
            requires
                r + 1 <= s,
    ;
    }
    if s < r {
        assert((s + 1) * (s + 1) <= r * r) by (nonlinear_arith)
            requires
                s + 1 <= r,
    ;
    }
}

/// Within `[0, 1]` a product stays within `[0, 1]`, never grows either
/// factor, and multiplying by 1 is exact.
pub proof fn lemma_fp_mul_unit(a: int, b: int)
    requires
        0 <= a <= FP_ONE,
        0 <= b <= FP_ONE,
    ensures
        0 <= fp_mul_s(a, b),
        fp_mul_s(a, b) <= a,
        fp_mul_s(a, b) <= b,
        b == FP_ONE ==> fp_mul_s(a, b) == a,
{
    let s = FP_ONE as int;
    vstd::arithmetic::mul::lemma_mul_nonnegative(a, b);
    assert(abs(a * b) == a * b);
    assert(div_trunc(a * b, s) == (a * b) / s);
    vstd::arithmetic::div_mod::lemma_div_pos_is_pos(a * b, s);
    vstd::arithmetic::mul::lemma_mul_inequality(b, s, a);
    assert(b * a <= s * a) by {
        vstd::arithmetic::mul::lemma_mul_is_commutative(b, a);
        vstd::arithmetic::mul::lemma_mul_is_commutative(s, a);
    }
    vstd::arithmetic::div_mod::lemma_div_is_ordered(a * b, s * a, s);
    vstd::arithmetic::div_mod::lemma_div_multiples_vanish(a, s);
    assert(a * b == b * a) by {
        vstd::arithmetic::mul::lemma_mul_is_commutative(a, b);
    }
    assert((a * b) / s <= a);
    vstd::arithmetic::mul::lemma_mul_inequality(a, s, b);
    assert(a * b <= s * b) by {
        vstd::arithmetic::mul::lemma_mul_is_commutative(s, b);
    }
    vstd::arithmetic::div_mod::lemma_div_is_ordered(a * b, s * b, s);
    vstd::arithmetic::div_mod::lemma_div_multiples_vanish(b, s);
    assert((a * b) / s <= b);
    if b == s {
        assert(a * b == s * a) by {
            vstd::arithmetic::mul::lemma_mul_is_commutative(a, b);
        }
        assert((a * b) / s == a);
    }
}

/// A square of a scalar within `[-1, 1]` lies within `[0, 1]`.
pub proof fn lemma_fp_square_unit(q: int)
    requires
        -FP_ONE <= q <= FP_ONE,
    ensures
        0 <= fp_mul_s(q, q) <= FP_ONE,
{
    let m = abs(q) as int;
    assert(q * q == m * m) by (nonlinear_arith)
        requires
            m == if q < 0 { -q } else { q },
    ;
    lemma_fp_mul_unit(m, m);
    assert(fp_mul_s(q, q) == fp_mul_s(m, m));
}

/// A quotient whose numerator does not outweigh its positive denominator
/// lies within `[-1, 1]`, and keeps the numerator's sign.
pub proof fn lemma_fp_div_ratio_unit(a: int, b: int)
    requires
        0 < b,
        abs(a) <= b,
    ensures
        -FP_ONE <= fp_div_s(a, b) <= FP_ONE,
        0 <= a ==> 0 <= fp_div_s(a, b),
{
    let s = FP_ONE as int;
    let m = abs(a) as int;
    assert(abs(a * s) == m * s) by (nonlinear_arith)
        requires
            s > 0,
            m == if a < 0 { -a } else { a },
            abs(a * s) == if a * s < 0 { -(a * s) } else { a * s },
    ;
    vstd::arithmetic::mul::lemma_mul_inequality(m, b, s);
    assert(m * s <= b * s);
    vstd::arithmetic::div_mod::lemma_div_is_ordered(m * s, b * s, b);
    vstd::arithmetic::div_mod::lemma_div_multiples_vanish(s, b);
    assert((b * s) / b == s);
    vstd::arithmetic::div_mod::lemma_div_pos_is_pos(m * s, b);
    assert(0 <= (m * s) / b <= s);
    assert(div_trunc(a * s, b) == if a < 0 {
        -((m * s) / b)
    } else {
        (m * s) / b
    });
}

proof fn lemma_mul_abs_bound(a: int, b: int, m: int, n: int)
    by (nonlinear_arith)
    requires
        abs(a) <= m,
        abs(b) <= n,
    ensures
        abs(a * b) <= m * n,
{
}

fn clip_i128(x: i128) -> (r: i64)
    ensures
        r as int == fp_clip(x as int),
{
    if x > FP_MAX as i128 {
        FP_MAX
    } else if x < -(FP_MAX as i128) {
        -FP_MAX
    } else {
        x as i64
    }
}

/// Truncating division on wide intermediates, via magnitudes so that the
/// executable quotient matches `div_trunc` for either sign of the dividend.
fn div_trunc_i128(a: i128, b: i128) -> (r: i128)
    requires
        b > 0,
        a > i128::MIN,
    ensures
        r as int == div_trunc(a as int, b as int),
        abs(r as int) <= abs(a as int),
{
    proof {
        vstd::arithmetic::div_mod::lemma_div_is_ordered_by_denominator(
            abs(a as int) as int,
            1,
            b as int,
        );
    }
    if a >= 0 {
        ((a as u128) / (b as u128)) as i128
    } else {
        let m: u128 = (-a) as u128;
        -((m / (b as u128)) as i128)
    }
}

pub fn fp_add(a: i64, b: i64) -> (r: i64)
    ensures
        r as int == fp_add_s(a as int, b as int),
{
    clip_i128(a as i128 + b as i128)
}

pub fn fp_sub(a: i64, b: i64) -> (r: i64)
    ensures
        r as int == fp_sub_s(a as int, b as int),
{
    clip_i128(a as i128 - b as i128)
}

pub fn fp_neg(a: i64) -> (r: i64)
    ensures
        r as int == fp_neg_s(a as int),
{
    clip_i128(-(a as i128))
}

pub fn fp_mul(a: i64, b: i64) -> (r: i64)
    ensures
        r as int == fp_mul_s(a as int, b as int),
{
    proof {
        lemma_mul_abs_bound(a as int, b as int, 0x8000_0000_0000_0000, 0x8000_0000_0000_0000);
    }
    let p: i128 = (a as i128) * (b as i128);
    let q = div_trunc_i128(p, FP_ONE as i128);
    clip_i128(q)
}

pub fn fp_div(a: i64, b: i64) -> (r: i64)
    ensures
        r as int == fp_div_s(a as int, b as int),
{
    if b == 0 {
        return 0;
    }
    proof {
        lemma_mul_abs_bound(a as int, FP_ONE as int, 0x8000_0000_0000_0000, 0x1_0000);
    }
    let p: i128 = (a as i128) * (FP_ONE as i128);
    if b > 0 {
        clip_i128(div_trunc_i128(p, b as i128))
    } else {
        let q = div_trunc_i128(p, -(b as i128));
        proof {
            lemma_div_trunc_neg_denom(p as int, b as int);
        }
        clip_i128(-q)
    }
}

proof fn lemma_div_trunc_neg_denom(a: int, b: int)
    requires
        b < 0,
    ensures
        div_trunc(a, b) == -div_trunc(a, -b),
{
}

/// The whole units a scalar holds, truncated toward zero.
pub fn fp_trunc_to_int(a: i64) -> (r: i64)
    requires
        a > i64::MIN,
    ensures
        r as int == div_trunc(a as int, FP_ONE as int),
        abs(r as int) as int <= abs(a as int) as int / (FP_ONE as int),
{
    if a >= 0 {
        ((a as u64) / (FP_ONE as u64)) as i64
    } else {
        -(((-a) as u64 / (FP_ONE as u64)) as i64)
    }
}

pub fn fp_abs(a: i64) -> (r: i64)
    ensures
        r as int == fp_abs_s(a as int),
        r >= 0,
{
    if a < 0 {
        clip_i128(-(a as i128))
    } else {
        clip_i128(a as i128)
    }
}

pub fn fp_sqrt(a: i64) -> (r: i64)
    ensures
        r as int == fp_sqrt_s(a as int),
        r >= 0,
{
    if a <= 0 {
        return 0;
    }
    proof {
        lemma_mul_abs_bound(a as int, FP_ONE as int, 0x8000_0000_0000_0000, 0x1_0000);
    }
    let n: u128 = (a as u128) * (FP_ONE as u128);
    let r = isqrt_u128(n);
    proof {
        lemma_sqrt_floor_unique(n as nat, r as nat);
        assert((r as int) < 0x1_0000_0000_0000) by (nonlinear_arith)
            requires
                (r as int) * (r as int) <= n as int,
                (n as int) < 0x1_0000_0000_0000_0000_0000_0000int,
                r as int >= 0,
    ;
    }
    r as i64
}

/// Floor of the square root by bisection on the answer.
fn isqrt_u128(n: u128) -> (r: u128)
    ensures
        (r as int) * (r as int) <= n as int,
        (n as int) < (r as int + 1) * (r as int + 1),
        r as int <= 0xFFFF_FFFF_FFFF_FFFF,
{
    let mut lo: u128 = 0;
    let mut hi: u128 = 0x1_0000_0000_0000_0000;
    proof {
        assert((hi as int) * (hi as int) > n as int) by (nonlinear_arith)
            requires
                hi as int == 0x1_0000_0000_0000_0000,
                (n as int) < 0x1_0000_0000_0000_0000_0000_0000_0000_0000int,
    ;
    }
    while lo + 1 < hi
        invariant
            lo < hi,
            hi <= 0x1_0000_0000_0000_0000,
            (lo as int) * (lo as int) <= n as int,
            (hi as int) * (hi as int) > n as int,
        decreases hi - lo,
    {
        let mid: u128 = lo + (hi - lo) / 2;
        proof {
            assert((mid as int) * (mid as int) < 0x1_0000_0000_0000_0000_0000_0000_0000_0000int)
                by (nonlinear_arith)
                requires
                    0 <= mid as int,
                    mid as int <= 0xFFFF_FFFF_FFFF_FFFF,
    ;

        }
        if mid * mid <= n {
            lo = mid;
        } else {
            hi = mid;
        }
    }
    lo
}

} // verus!
