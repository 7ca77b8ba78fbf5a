//! Fixed-point arithmetic for the control loops.
//!
//! Continuous quantities — metres, metres per second, gains, force counts —
//! are carried as signed 64-bit integers in millionths of their unit
//! ("micro-units").  Division truncates toward zero, so the arithmetic is
//! exact and every rounding step is stated.

use vstd::prelude::*;

verus! {

/// Micro-units per unit.
pub const MICRO: i64 = 1_000_000;

/// Magnitude bound on the fixed-point values the controller accepts:
/// one million whole units.
pub const FIX_LIMIT: i64 = 1_000_000_000_000;

/// Quotient of `a` by `d`, truncated toward zero; `d` must be positive.
pub open spec fn div_pos(a: int, d: int) -> int {
    if a >= 0 {
        a / d
    } else {
        -((-a) / d)
    }
}

/// Quotient of `a` by `b`, truncated toward zero; `b` must be nonzero.
pub open spec fn div_q(a: int, b: int) -> int {
    if b > 0 {
        div_pos(a, b)
    } else {
        -div_pos(a, -b)
    }
}

/// The fixed-point product `a * b`, scaled back down by one micro factor.
pub open spec fn fix_mul_spec(a: int, b: int) -> int {
    div_pos(a * b, MICRO as int)
}

/// The fixed-point quotient `a / b`.
pub open spec fn fix_div_spec(a: int, b: int) -> int {
    div_q(a * MICRO, b)
}

/// Truncation toward zero never grows the magnitude of the true quotient.
pub proof fn lemma_div_pos_mag(a: int, d: int, m: int)
    requires
        d > 0,
        0 <= m,
        -(m * d) <= a <= m * d,
    ensures
        -m <= div_pos(a, d) <= m,
{
    if a >= 0 {
        assert(a / d <= m) by (nonlinear_arith)
            requires
                d > 0,
                0 <= a <= m * d,
                0 <= m,
        ;
        assert(a / d >= 0) by (nonlinear_arith)
            requires
                d > 0,
                a >= 0,
        ;
    } else {
        assert((-a) / d <= m) by (nonlinear_arith)
            requires
                d > 0,
                0 <= -a,
                -a <= m * d,
                0 <= m,
        ;
        assert((-a) / d >= 0) by (nonlinear_arith)
            requires
                d > 0,
                -a >= 0,
        ;
    }
}

/// Truncating signed division, computed over 128-bit intermediates.
pub fn i128_div_trunc(p: i128, d: i128) -> (r: i128)
    requires
        d > 0,
        -0x7fff_ffff_ffff_ffff_ffff_ffff_ffff_ffff <= p,
    ensures
        r as int == div_pos(p as int, d as int),
{
    if p >= 0 {
        p / d
    } else {
        -((-p) / d)
    }
}

/// Fixed-point multiplication: `(a * b) / MICRO`, truncated toward zero.
pub fn fix_mul(a: i64, b: i64) -> (r: i64)
    requires
        -FIX_LIMIT <= a <= FIX_LIMIT,
        -FIX_LIMIT <= b <= FIX_LIMIT,
    ensures
        r as int == fix_mul_spec(a as int, b as int),
        -1_000_000_000_000_000_000 <= r <= 1_000_000_000_000_000_000,
{
    proof {
        assert(-1_000_000_000_000_000_000_000_000 <= a as int * b as int
            <= 1_000_000_000_000_000_000_000_000) by (nonlinear_arith)
            requires
                -FIX_LIMIT <= a <= FIX_LIMIT,
                -FIX_LIMIT <= b <= FIX_LIMIT,
                FIX_LIMIT == 1_000_000_000_000,
        ;
    }
    let p: i128 = (a as i128) * (b as i128);
    proof {
        lemma_div_pos_mag(p as int, MICRO as int, 1_000_000_000_000_000_000int);
    }
    let q = i128_div_trunc(p, MICRO as i128);
    q as i64
}

/// Fixed-point division: `(a * MICRO) / b`, truncated toward zero.
pub fn fix_div(a: i64, b: i64) -> (r: i64)
    requires
        b != 0,
        -FIX_LIMIT <= a <= FIX_LIMIT,
        -FIX_LIMIT <= b <= FIX_LIMIT,
    ensures
        r as int == fix_div_spec(a as int, b as int),
        -1_000_000_000_000_000_000 <= r <= 1_000_000_000_000_000_000,
{
    let p: i128 = (a as i128) * (MICRO as i128);
    let babs: i128 = if b > 0 {
        b as i128
    } else {
        -(b as i128)
    };
    proof {
        assert(-1_000_000_000_000_000_000 <= p as int <= 1_000_000_000_000_000_000) by (
        nonlinear_arith)
            requires
                p == a as int * (MICRO as int),
                -FIX_LIMIT <= a <= FIX_LIMIT,
                MICRO == 1_000_000,
                FIX_LIMIT == 1_000_000_000_000,
        ;
        lemma_div_pos_mag(p as int, babs as int, 1_000_000_000_000_000_000int);
    }
    let q = i128_div_trunc(p, babs);
    let r = if b > 0 {
        q as i64
    } else {
        -(q as i64)
    };
    proof {
        lemma_div_pos_mag(p as int, babs as int, 1_000_000_000_000_000_000int);
    }
    r
}

/// Clamp `v` into `[lo, hi]`.
pub fn clamp_i64(v: i64, lo: i64, hi: i64) -> (r: i64)
    requires
        lo <= hi,
    ensures
        r == if v < lo {
            lo
        } else if v > hi {
            hi
        } else {
            v
        },
        lo <= r <= hi,
{
    if v < lo {
        lo
    } else if v > hi {
        hi
    } else {
        v
    }
}

/// The integer square root of a non-negative number: the greatest `r` with
/// `r * r <= n`.
pub open spec fn sqrt_floor(n: int) -> int {
    choose|r: int| 0 <= r && #[trigger] (r * r) <= n && n < (r + 1) * (r + 1)
}

/// A witness pins the integer square root down.
pub proof fn lemma_sqrt_floor_is(n: int, r: int)
    requires
        0 <= r,
        r * r <= n,
        n < (r + 1) * (r + 1),
    ensures
        sqrt_floor(n) == r,
{
    assert(exists|c: int| 0 <= c && #[trigger] (c * c) <= n && n < (c + 1) * (c + 1)) by {
        assert(0 <= r && r * r <= n && n < (r + 1) * (r + 1));
    }
    let c = choose|c: int| 0 <= c && #[trigger] (c * c) <= n && n < (c + 1) * (c + 1);
    if c < r {
        assert((c + 1) * (c + 1) <= r * r) by (nonlinear_arith)
            requires
                0 <= c,
                c < r,
        ;
    }
    if r < c {
        assert((r + 1) * (r + 1) <= c * c) by (nonlinear_arith)
            requires
                0 <= r,
                r < c,
        ;
    }
}

/// Integer square root: the greatest `r` with `r * r <= n`.
pub fn isqrt_u128(n: u128) -> (r: u128)
    ensures
        r * r <= n,
        n < (r + 1) * (r + 1),
        r <= 0xffff_ffff_ffff_ffff,
        r == sqrt_floor(n as int),
{
    let mut lo: u128 = 0;
    let mut hi: u128 = if n < 0xffff_ffff_ffff_ffff {
        n + 1
    } else {
        0xffff_ffff_ffff_ffff + 1
    };
    // Invariant: lo*lo <= n < hi*hi.
    proof {
        assert((n + 1) * (n + 1) > n) by (nonlinear_arith);
        assert(n <= 0xffff_ffff_ffff_ffff ==> (n as int + 1) * (n as int + 1) > n) by (
        nonlinear_arith);
        assert(n > 0xffff_ffff_ffff_ffff ==> (0x1_0000_0000_0000_0000int)
            * (0x1_0000_0000_0000_0000int) > n);
    }
    while lo + 1 < hi
        invariant
            lo < hi,
            hi <= 0x1_0000_0000_0000_0000,
            lo * lo <= n,
            (hi as int) * (hi as int) > n,
        decreases hi - lo,
    {
        let mid = lo + (hi - lo) / 2;
        proof {
            assert(lo < mid < hi);
        }
        if mid <= n / mid {
            proof {
                assert(mid * mid <= n) by (nonlinear_arith)
                    requires
                        mid > 0,
                        mid <= n / mid,
                ;
            }
            lo = mid;
        } else {
            proof {
                assert((mid as int) * (mid as int) > n) by (nonlinear_arith)
                    requires
                        mid > 0,
                        mid > n / mid,
                ;
            }
            hi = mid;
        }
    }
    proof {
        lemma_sqrt_floor_is(n as int, lo as int);
    }
    lo
}

} // verus!
