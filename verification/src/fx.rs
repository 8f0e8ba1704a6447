//! Fixed-point scalars: an `i64` holds a real quantity in millionths.
//!
//! All shading arithmetic is carried out on these scalars, so every operation
//! here carries an exact contract phrased over mathematical integers.

use vstd::prelude::*;

verus! {

/// One unit: fixed-point scalars hold millionths.
pub const FX_ONE: i64 = 1_000_000;

/// Largest magnitude accepted by the scalar operations (one million units).
pub const FX_LIM: i64 = 1_000_000_000_000;

/// Magnitude bound for geometric vectors (positions, directions): one
/// thousand units, far above any unit-length direction.
pub const VEC_LIM: i64 = 1_000_000_000;

/// Magnitude of an integer.
pub open spec fn iabs(a: int) -> int {
    if a >= 0 {
        a
    } else {
        -a
    }
}

/// Quotient rounded toward zero, for a positive divisor.
pub open spec fn tdiv(n: int, d: int) -> int
    recommends
        d > 0,
{
    if n >= 0 {
        n / d
    } else {
        -((-n) / d)
    }
}

/// Product of two fixed-point scalars, scaled back to millionths.
pub open spec fn fx_mul_spec(a: int, b: int) -> int {
    tdiv(a * b, FX_ONE as int)
}

/// Quotient of two fixed-point scalars, scaled to millionths.
pub open spec fn fx_div_spec(a: int, b: int) -> int
    recommends
        b > 0,
{
    tdiv(a * (FX_ONE as int), b)
}

/// `r` is the integer square-root floor of `n`.
pub open spec fn is_sqrt_floor(n: int, r: int) -> bool {
    0 <= r && r * r <= n && n < (r + 1) * (r + 1)
}

/// The integer square-root floor of a non-negative `n`.
pub open spec fn sqrt_floor(n: int) -> int
    recommends
        n >= 0,
{
    choose|r: int| is_sqrt_floor(n, r)
}

/// Two square-root floors of the same number coincide.
pub proof fn lemma_sqrt_floor_unique(n: int, r1: int, r2: int)
    by (nonlinear_arith)
    requires
        is_sqrt_floor(n, r1),
        is_sqrt_floor(n, r2),
    ensures
        r1 == r2,
{
}

/// A witness pins down `sqrt_floor`.
pub proof fn lemma_sqrt_floor_of(n: int, r: int)
    requires
        is_sqrt_floor(n, r),
    ensures
        sqrt_floor(n) == r,
{
    let picked = choose|q: int| is_sqrt_floor(n, q);
    assert(is_sqrt_floor(n, r));
    lemma_sqrt_floor_unique(n, picked, r);
}

/// Scale a double-width product back down to millionths, rounding toward
/// zero.
pub fn fx_of_wide(p: i128) -> (r: i64)
    requires
        -4_000_000_000_000_000_000_000_000i128 <= p <= 4_000_000_000_000_000_000_000_000i128,
    ensures
        r == tdiv(p as int, FX_ONE as int),
{
    if p >= 0 {
        let q: u128 = (p as u128) / (FX_ONE as u128);
        assert(q == (p as int) / (FX_ONE as int));
        assert(q <= 4_000_000_000_000_000_000u128) by {
            assert((p as int) / (FX_ONE as int) <= 4_000_000_000_000_000_000_000_000int / (
            FX_ONE as int)) by (nonlinear_arith)
                requires
                    0 <= p as int <= 4_000_000_000_000_000_000_000_000int,
                    FX_ONE as int == 1_000_000int,
            ;
        }
        q as i64
    } else {
        let m: u128 = (-p) as u128;
        let q: u128 = m / (FX_ONE as u128);
        assert(q == (-(p as int)) / (FX_ONE as int));
        assert(q <= 4_000_000_000_000_000_000u128) by {
            assert((-(p as int)) / (FX_ONE as int) <= 4_000_000_000_000_000_000_000_000int / (
            FX_ONE as int)) by (nonlinear_arith)
                requires
                    0 <= -(p as int) <= 4_000_000_000_000_000_000_000_000int,
                    FX_ONE as int == 1_000_000int,
            ;
        }
        -(q as i64)
    }
}

/// Fixed-point product: `fx_mul(a, b)` is `a * b` in millionths, truncated
/// toward zero.
pub fn fx_mul(a: i64, b: i64) -> (r: i64)
    requires
        -FX_LIM <= a <= FX_LIM,
        -FX_LIM <= b <= FX_LIM,
    ensures
        r == fx_mul_spec(a as int, b as int),
{
    proof {
        assert(-1_000_000_000_000_000_000_000_000int <= (a as int) * (b as int)
            <= 1_000_000_000_000_000_000_000_000int) by (nonlinear_arith)
            requires
                -1_000_000_000_000int <= a as int <= 1_000_000_000_000int,
                -1_000_000_000_000int <= b as int <= 1_000_000_000_000int,
        ;
    }
    let p: i128 = (a as i128) * (b as i128);
    fx_of_wide(p)
}

/// Fixed-point quotient: `fx_div(a, b)` is `a / b` in millionths, truncated
/// toward zero; the divisor must be positive.
pub fn fx_div(a: i64, b: i64) -> (r: i64)
    requires
        b > 0,
        -FX_LIM <= a <= FX_LIM,
    ensures
        r == fx_div_spec(a as int, b as int),
{
    let p: i128 = (a as i128) * 1_000_000i128;
    assert(p == (a as int) * (FX_ONE as int));
    if p >= 0 {
        let q: u128 = (p as u128) / (b as u128);
        assert(q == (p as int) / (b as int));
        assert(q <= p as u128) by {
            assert((p as int) / (b as int) <= p as int) by (nonlinear_arith)
                requires
                    0 <= p as int,
                    1 <= b as int,
            ;
        }
        q as i64
    } else {
        let m: u128 = (-p) as u128;
        let q: u128 = m / (b as u128);
        assert(q == (-(p as int)) / (b as int));
        assert(q <= m) by {
            assert((-(p as int)) / (b as int) <= -(p as int)) by (nonlinear_arith)
                requires
                    0 <= -(p as int),
                    1 <= b as int,
            ;
        }
        -(q as i64)
    }
}

/// The larger of two scalars.
pub fn fx_max(a: i64, b: i64) -> (r: i64)
    ensures
        r == if a >= b {
            a as int
        } else {
            b as int
        },
        r >= a,
        r >= b,
{
    if a >= b {
        a
    } else {
        b
    }
}

/// Clamp a scalar into `[lo, hi]`.
pub fn fx_clamp(a: i64, lo: i64, hi: i64) -> (r: i64)
    requires
        lo <= hi,
    ensures
        r == clamp_spec(a as int, lo as int, hi as int),
        lo <= r <= hi,
{
    if a < lo {
        lo
    } else if a > hi {
        hi
    } else {
        a
    }
}

/// Clamp into `[lo, hi]`.
pub open spec fn clamp_spec(a: int, lo: int, hi: int) -> int
    recommends
        lo <= hi,
{
    if a < lo {
        lo
    } else if a > hi {
        hi
    } else {
        a
    }
}

/// Integer square-root floor of a machine word, by bisection.
pub fn isqrt_u64(n: u64) -> (r: u64)
    ensures
        is_sqrt_floor(n as int, r as int),
        r == sqrt_floor(n as int),
        r < 0x1_0000_0000u64,
{
    let mut lo: u64 = 0;
    let mut hi: u64 = 0x1_0000_0000;
    assert((n as int) < 0x1_0000_0000int * 0x1_0000_0000int);
    while lo + 1 < hi
        invariant
            lo < hi <= 0x1_0000_0000u64,
            (lo as int) * (lo as int) <= n as int,
            (n as int) < (hi as int) * (hi as int),
        decreases hi - lo,
    {
        let mid: u64 = lo + (hi - lo) / 2;
        proof {
            assert((mid as int) * (mid as int) <= 0x1_0000_0000int * 0x1_0000_0000int)
                by (nonlinear_arith)
                requires
                    0 <= mid as int <= 0x1_0000_0000int,
            ;
        }
        let sq: u128 = (mid as u128) * (mid as u128);
        if sq <= n as u128 {
            lo = mid;
        } else {
            hi = mid;
        }
    }
    proof {
        assert(hi == lo + 1);
        lemma_sqrt_floor_of(n as int, lo as int);
    }
    lo
}

/// A product of magnitudes bounded by `ba` and `bb` stays within `ba * bb`
/// after rescaling by `tdiv`.
pub proof fn lemma_fx_mul_bound(a: int, b: int, ba: int, bb: int)
    by (nonlinear_arith)
    requires
        0 <= ba,
        0 <= bb,
        iabs(a) <= ba,
        iabs(b) <= bb,
    ensures
        iabs(fx_mul_spec(a, b)) * (FX_ONE as int) <= ba * bb,
        iabs(fx_mul_spec(a, b)) <= ba * bb,
{
}

/// Multiplying by a factor in `[0, FX_ONE]` does not increase a non-negative
/// scalar, and keeps it non-negative.
pub proof fn lemma_fx_mul_shrinks(a: int, f: int)
    by (nonlinear_arith)
    requires
        0 <= a,
        0 <= f <= FX_ONE as int,
    ensures
        0 <= fx_mul_spec(a, f) <= a,
{
}

/// Scaling by zero gives zero, and scaling by one unit is the identity.
pub proof fn lemma_fx_mul_zero_one(a: int)
    by (nonlinear_arith)
    requires
        iabs(a) <= FX_LIM as int,
    ensures
        fx_mul_spec(a, 0) == 0,
        fx_mul_spec(0, a) == 0,
        fx_mul_spec(a, FX_ONE as int) == a,
        fx_mul_spec(FX_ONE as int, a) == a,
{
}

/// A square-root floor of a positive number is positive.
pub proof fn lemma_sqrt_floor_pos(n: int, r: int)
    by (nonlinear_arith)
    requires
        is_sqrt_floor(n, r),
        n >= 1,
    ensures
        r >= 1,
{
}

/// A product of non-negative scalars is non-negative.
pub proof fn lemma_fx_mul_nonneg(a: int, b: int)
    by (nonlinear_arith)
    requires
        0 <= a,
        0 <= b,
    ensures
        0 <= fx_mul_spec(a, b),
{
}

/// A truncating quotient of a bounded numerator is bounded.
pub proof fn lemma_tdiv_bound(n: int, d: int, b: int)
    by (nonlinear_arith)
    requires
        0 < d,
        0 <= b,
        iabs(n) <= b * d,
    ensures
        iabs(tdiv(n, d)) <= b,
{
}

/// Dividing a magnitude no larger than the positive divisor yields at most
/// one unit in magnitude.
pub proof fn lemma_fx_div_unit(a: int, b: int)
    by (nonlinear_arith)
    requires
        0 < b,
        iabs(a) <= b,
    ensures
        iabs(fx_div_spec(a, b)) <= FX_ONE as int,
        a >= 0 ==> 0 <= fx_div_spec(a, b) <= FX_ONE as int,
{
}

} // verus!
