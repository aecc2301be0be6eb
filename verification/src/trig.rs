//! Fixed-point circular functions.
//!
//! Sine and cosine use argument reduction into [-pi/2, pi/2] followed by a
//! ninth-order Taylor polynomial in Horner form; the inverse functions are
//! computed by bisection against the same polynomial, so every function is
//! a total, deterministic map on micro-radians.

use vstd::prelude::*;

use crate::fp::ONE;
use crate::fp::PI_FP;
use crate::fp::TWO_PI_FP;
use crate::fp::HALF_PI_FP;
use crate::fp::in_range;
use crate::fp::fmul_s;
use crate::fp::fsub_s;
use crate::fp::fadd_s;
use crate::fp::fdivi_s;
use crate::fp::fclamp_s;
use crate::fp::emod_s;
use crate::fp::fmul;
use crate::fp::fsub;
use crate::fp::fadd;
use crate::fp::fdivi;
use crate::fp::fclamp;
use crate::fp::emod;

verus! {

/// Taylor polynomial for sine on the reduced interval, micro-radians in,
/// micro-units out.
pub open spec fn sin_core_s(x: int) -> int {
    let x2 = fmul_s(x, x);
    let t4 = fsub_s(ONE as int, fdivi_s(x2, 72));
    let t3 = fsub_s(ONE as int, fdivi_s(fmul_s(x2, t4), 42));
    let t2 = fsub_s(ONE as int, fdivi_s(fmul_s(x2, t3), 20));
    let t1 = fsub_s(ONE as int, fdivi_s(fmul_s(x2, t2), 6));
    fmul_s(x, t1)
}

/// Reduce an angle into (-pi, pi].
pub open spec fn reduce_angle_s(x: int) -> int {
    let r = emod_s(x, TWO_PI_FP as int);
    if r > PI_FP as int {
        r - TWO_PI_FP as int
    } else {
        r
    }
}

pub open spec fn sin_s(x: int) -> int {
    let r = reduce_angle_s(x);
    let f = if r > HALF_PI_FP as int {
        PI_FP as int - r
    } else if r < -(HALF_PI_FP as int) {
        -(PI_FP as int) - r
    } else {
        r
    };
    sin_core_s(f)
}

pub open spec fn cos_s(x: int) -> int {
    sin_s(clamp_add_half_pi_s(x))
}

/// Shift by pi/2 without leaving the fixed-point range.
pub open spec fn clamp_add_half_pi_s(x: int) -> int {
    fadd_s(x, HALF_PI_FP as int)
}

/// Bisection refinement for the inverse sine: after n steps the bracket
/// [lo, hi] has been narrowed around the preimage of s.
pub open spec fn asin_search_s(s: int, lo: int, hi: int, n: nat) -> (int, int)
    decreases n,
{
    if n == 0 {
        (lo, hi)
    } else {
        let mid = lo + (hi - lo) / 2;
        if sin_core_s(mid) < s {
            asin_search_s(s, mid, hi, (n - 1) as nat)
        } else {
            asin_search_s(s, lo, mid, (n - 1) as nat)
        }
    }
}

pub open spec fn asin_s(s: int) -> int {
    let c = fclamp_s(s, -(ONE as int), ONE as int);
    let pr = asin_search_s(c, -(HALF_PI_FP as int), HALF_PI_FP as int, 22);
    pr.0 + (pr.1 - pr.0) / 2
}

pub open spec fn acos_s(s: int) -> int {
    HALF_PI_FP as int - asin_s(s)
}

/// Sine of an angle in micro-radians.
pub fn sin_core(x: i64) -> (r: i64)
    requires
        in_range(x as int),
    ensures
        r == sin_core_s(x as int),
        in_range(r as int),
{
    let x2 = fmul(x, x);
    let t4 = fsub(ONE, fdivi(x2, 72));
    let t3 = fsub(ONE, fdivi(fmul(x2, t4), 42));
    let t2 = fsub(ONE, fdivi(fmul(x2, t3), 20));
    let t1 = fsub(ONE, fdivi(fmul(x2, t2), 6));
    fmul(x, t1)
}

pub fn sin_fp(x: i64) -> (r: i64)
    requires
        in_range(x as int),
    ensures
        r == sin_s(x as int),
        in_range(r as int),
{
    let m = emod(x, TWO_PI_FP);
    let red = if m > PI_FP {
        m - TWO_PI_FP
    } else {
        m
    };
    let folded = if red > HALF_PI_FP {
        PI_FP - red
    } else if red < -HALF_PI_FP {
        -PI_FP - red
    } else {
        red
    };
    sin_core(folded)
}

pub fn cos_fp(x: i64) -> (r: i64)
    requires
        in_range(x as int),
    ensures
        r == cos_s(x as int),
        in_range(r as int),
{
    sin_fp(fadd(x, HALF_PI_FP))
}

/// Inverse sine in micro-radians, by 22 bisection steps on `sin_core`.
pub fn asin_fp(s: i64) -> (r: i64)
    requires
        in_range(s as int),
    ensures
        r == asin_s(s as int),
        -(HALF_PI_FP as int) <= r as int <= HALF_PI_FP as int,
{
    let c = fclamp(s, -ONE, ONE);
    let mut lo: i64 = -HALF_PI_FP;
    let mut hi: i64 = HALF_PI_FP;
    let mut i: usize = 0;
    while i < 22
        invariant
            0 <= i <= 22,
            -(HALF_PI_FP as int) <= lo as int <= hi as int <= HALF_PI_FP as int,
            c == fclamp_s(s as int, -(ONE as int), ONE as int),
            asin_search_s(c as int, lo as int, hi as int, (22 - i) as nat) == asin_search_s(
                c as int,
                -(HALF_PI_FP as int),
                HALF_PI_FP as int,
                22,
            ),
        decreases 22 - i,
    {
        let mid = lo + (hi - lo) / 2;
        if sin_core(mid) < c {
            lo = mid;
        } else {
            hi = mid;
        }
        i = i + 1;
    }
    lo + (hi - lo) / 2
}

pub fn acos_fp(s: i64) -> (r: i64)
    requires
        in_range(s as int),
    ensures
        r == acos_s(s as int),
        0 <= r as int <= TWO_PI_FP as int,
{
    HALF_PI_FP - asin_fp(s)
}

} // verus!
