//! Saturating fixed-point arithmetic in micro-units.
//!
//! A fixed-point value stores one millionth of an engineering unit in an
//! `i64` (`ONE` = 1.0).  Every operation clamps its result to
//! `[-FP_MAX, FP_MAX]`, so all values stay in range and no operation can
//! overflow; the clamp never binds for the physical magnitudes the
//! simulator works with.  Division truncates toward zero, matching Rust's
//! native integer division.

use vstd::prelude::*;

verus! {

/// One engineering unit in micro-units.
pub const ONE: i64 = 1_000_000;

/// Saturation bound for every fixed-point value (one billion units).
pub const FP_MAX: i64 = 1_000_000_000_000_000;

/// pi in micro-radians.
pub const PI_FP: i64 = 3_141_593;

/// 2*pi in micro-radians.
pub const TWO_PI_FP: i64 = 6_283_185;

/// pi/2 in micro-radians.
pub const HALF_PI_FP: i64 = 1_570_796;

/// ln(2) in micro-units.
pub const LN2_FP: i64 = 693_147;

/// A value the arithmetic keeps within the saturation bound.
pub open spec fn in_range(x: int) -> bool {
    -(FP_MAX as int) <= x <= FP_MAX as int
}

/// Saturate an arbitrary integer into the fixed-point range.
pub open spec fn clamp_s(x: int) -> int {
    if x > FP_MAX as int {
        FP_MAX as int
    } else if x < -(FP_MAX as int) {
        -(FP_MAX as int)
    } else {
        x
    }
}

/// Division truncating toward zero (Rust `/` on integers), for d > 0.
pub open spec fn tdiv_s(a: int, d: int) -> int {
    if a >= 0 {
        a / d
    } else {
        -((-a) / d)
    }
}

/// Division truncating toward zero for any non-zero divisor; zero divisor
/// yields zero, so the operation is total.
pub open spec fn tdiv_any_s(a: int, b: int) -> int {
    if b == 0 {
        0
    } else if b > 0 {
        tdiv_s(a, b)
    } else {
        -tdiv_s(a, -b)
    }
}

pub open spec fn fadd_s(a: int, b: int) -> int {
    clamp_s(a + b)
}

pub open spec fn fsub_s(a: int, b: int) -> int {
    clamp_s(a - b)
}

/// Fixed-point product: (a * b) / ONE, truncated, saturated.
pub open spec fn fmul_s(a: int, b: int) -> int {
    clamp_s(tdiv_s(a * b, ONE as int))
}

/// Scale by a plain integer factor, saturated.
pub open spec fn fscale_s(k: int, x: int) -> int {
    clamp_s(k * x)
}

/// Fixed-point quotient: (a * ONE) / b, truncated, saturated; 0 when b == 0.
pub open spec fn fdiv_s(a: int, b: int) -> int {
    clamp_s(tdiv_any_s(a * ONE as int, b))
}

/// Exact truncating division by a positive plain integer.
pub open spec fn fdivi_s(x: int, d: int) -> int {
    tdiv_s(x, d)
}

pub open spec fn fmin_s(a: int, b: int) -> int {
    if a < b {
        a
    } else {
        b
    }
}

pub open spec fn fmax_s(a: int, b: int) -> int {
    if a > b {
        a
    } else {
        b
    }
}

pub open spec fn fabs_s(a: int) -> int {
    if a < 0 {
        -a
    } else {
        a
    }
}

pub open spec fn fclamp_s(x: int, lo: int, hi: int) -> int {
    if x < lo {
        lo
    } else if x > hi {
        hi
    } else {
        x
    }
}

/// Rounding division, half away from zero (Rust `f64::round` composed with
/// an exact quotient), for d > 0.
pub open spec fn round_div_s(a: int, d: int) -> int {
    if a >= 0 {
        (a + d / 2) / d
    } else {
        -(((-a) + d / 2) / d)
    }
}

/// Euclidean remainder in [0, m) for m > 0.
pub open spec fn emod_s(a: int, m: int) -> int {
    let r = a - tdiv_s(a, m) * m;
    if r < 0 {
        r + m
    } else {
        r
    }
}

/// Combined scale-and-divide: (k * v) / d, truncated, saturated.
pub open spec fn fmuldiv_s(k: int, v: int, d: int) -> int {
    clamp_s(tdiv_s(k * v, d))
}

/// Integer square root by bisection: the greatest r with r * r <= n,
/// searched below 2^43.
pub open spec fn isqrt_search_s(n: int, lo: int, hi: int) -> int
    decreases hi - lo,
{
    if hi - lo <= 1 {
        lo
    } else {
        let mid = lo + (hi - lo) / 2;
        if mid * mid <= n {
            isqrt_search_s(n, mid, hi)
        } else {
            isqrt_search_s(n, lo, mid)
        }
    }
}

pub open spec fn isqrt_s(n: int) -> int {
    isqrt_search_s(n, 0, 0x80000000000)
}

/// A zero factor annihilates a fixed-point product.
pub proof fn lemma_fmul_zero(x: int)
    ensures
        fmul_s(0, x) == 0,
        fmul_s(x, 0) == 0,
{
    vstd::arithmetic::div_mod::lemma_div_of0(ONE as int);
    vstd::arithmetic::mul::lemma_mul_by_zero_is_zero(x);
}

/// Zero divided by any positive integer is zero.
pub proof fn lemma_fdivi_zero(d: int)
    requires
        d > 0,
    ensures
        fdivi_s(0, d) == 0,
{
    vstd::arithmetic::div_mod::lemma_div_of0(d);
}

/// Truncating division of an `i128` by a positive divisor, the executable
/// form of `tdiv_s`.
pub fn tdiv128(a: i128, d: i128) -> (r: i128)
    requires
        d > 0,
        -0x40000000000000000000000000000000 < a < 0x40000000000000000000000000000000,
    ensures
        r == tdiv_s(a as int, d as int),
        fabs_s(r as int) <= fabs_s(a as int),
{
    if a >= 0 {
        proof {
            vstd::arithmetic::div_mod::lemma_div_nonincreasing(a as int, d as int);
            vstd::arithmetic::div_mod::lemma_div_pos_is_pos(a as int, d as int);
        }
        ((a as u128) / (d as u128)) as i128
    } else {
        proof {
            vstd::arithmetic::div_mod::lemma_div_nonincreasing(-(a as int), d as int);
            vstd::arithmetic::div_mod::lemma_div_pos_is_pos(-(a as int), d as int);
        }
        -((((-a) as u128) / (d as u128)) as i128)
    }
}

/// Saturate an `i128` into the fixed-point range.
pub fn clamp128(x: i128) -> (r: i64)
    ensures
        r == clamp_s(x as int),
        in_range(r as int),
{
    if x > FP_MAX as i128 {
        FP_MAX
    } else if x < -(FP_MAX as i128) {
        -FP_MAX
    } else {
        x as i64
    }
}

/// Saturating fixed-point addition.
pub fn fadd(a: i64, b: i64) -> (r: i64)
    requires
        in_range(a as int),
        in_range(b as int),
    ensures
        r == fadd_s(a as int, b as int),
        in_range(r as int),
{
    clamp128(a as i128 + b as i128)
}

/// Saturating fixed-point subtraction.
pub fn fsub(a: i64, b: i64) -> (r: i64)
    requires
        in_range(a as int),
        in_range(b as int),
    ensures
        r == fsub_s(a as int, b as int),
        in_range(r as int),
{
    clamp128(a as i128 - b as i128)
}

/// Saturating fixed-point multiplication.
pub fn fmul(a: i64, b: i64) -> (r: i64)
    requires
        in_range(a as int),
        in_range(b as int),
    ensures
        r == fmul_s(a as int, b as int),
        in_range(r as int),
{
    proof {
        vstd::arithmetic::mul::lemma_mul_upper_bound(
            fabs_s(a as int),
            FP_MAX as int,
            fabs_s(b as int),
            FP_MAX as int,
        );
        assert(fabs_s((a as int) * (b as int)) == fabs_s(a as int) * fabs_s(b as int))
            by (nonlinear_arith);
    }
    let p: i128 = (a as i128) * (b as i128);
    clamp128(tdiv128(p, ONE as i128))
}

/// Saturating multiplication by a plain integer factor.
pub fn fscale(k: i64, x: i64) -> (r: i64)
    requires
        -1_000_000_000 <= k <= 1_000_000_000,
        in_range(x as int),
    ensures
        r == fscale_s(k as int, x as int),
        in_range(r as int),
{
    proof {
        vstd::arithmetic::mul::lemma_mul_upper_bound(
            fabs_s(k as int),
            1_000_000_000,
            fabs_s(x as int),
            FP_MAX as int,
        );
        assert(fabs_s((k as int) * (x as int)) == fabs_s(k as int) * fabs_s(x as int))
            by (nonlinear_arith);
    }
    clamp128((k as i128) * (x as i128))
}

/// Saturating fixed-point division; a zero divisor yields zero.
pub fn fdiv(a: i64, b: i64) -> (r: i64)
    requires
        in_range(a as int),
        in_range(b as int),
    ensures
        r == fdiv_s(a as int, b as int),
        in_range(r as int),
{
    if b == 0 {
        return 0;
    }
    proof {
        vstd::arithmetic::mul::lemma_mul_upper_bound(
            fabs_s(a as int),
            FP_MAX as int,
            ONE as int,
            ONE as int,
        );
        assert(fabs_s((a as int) * (ONE as int)) == fabs_s(a as int) * (ONE as int))
            by (nonlinear_arith);
    }
    let n: i128 = (a as i128) * (ONE as i128);
    if b > 0 {
        clamp128(tdiv128(n, b as i128))
    } else {
        let q = tdiv128(n, -(b as i128));
        proof {
            assert(-q == -tdiv_s(n as int, -(b as int)));
        }
        clamp128(-q)
    }
}

/// Exact truncating division by a positive plain integer divisor.
pub fn fdivi(x: i64, d: i64) -> (r: i64)
    requires
        in_range(x as int),
        d > 0,
    ensures
        r == fdivi_s(x as int, d as int),
        in_range(r as int),
{
    tdiv128(x as i128, d as i128) as i64
}

pub fn fmin(a: i64, b: i64) -> (r: i64)
    ensures
        r == fmin_s(a as int, b as int),
{
    if a < b {
        a
    } else {
        b
    }
}

pub fn fmax(a: i64, b: i64) -> (r: i64)
    ensures
        r == fmax_s(a as int, b as int),
{
    if a > b {
        a
    } else {
        b
    }
}

pub fn fabs(a: i64) -> (r: i64)
    requires
        in_range(a as int),
    ensures
        r == fabs_s(a as int),
        in_range(r as int),
{
    if a < 0 {
        -a
    } else {
        a
    }
}

pub fn fclamp(x: i64, lo: i64, hi: i64) -> (r: i64)
    requires
        lo <= hi,
    ensures
        r == fclamp_s(x as int, lo as int, hi as int),
        lo <= r <= hi,
{
    if x < lo {
        lo
    } else if x > hi {
        hi
    } else {
        x
    }
}

/// Rounding division, half away from zero, by a positive divisor.
pub fn round_div(a: i64, d: i64) -> (r: i64)
    requires
        fabs_s(a as int) <= 1_000_000_000_000,
        0 < d <= 1_000_000_000,
    ensures
        r == round_div_s(a as int, d as int),
        in_range(r as int),
{
    if a >= 0 {
        proof {
            vstd::arithmetic::div_mod::lemma_div_nonincreasing(
                (a as int) + (d as int) / 2,
                d as int,
            );
            vstd::arithmetic::div_mod::lemma_div_pos_is_pos((a as int) + (d as int) / 2, d as int);
        }
        (((a as u128) + (d as u128) / 2) / (d as u128)) as i64
    } else {
        proof {
            vstd::arithmetic::div_mod::lemma_div_nonincreasing(
                -(a as int) + (d as int) / 2,
                d as int,
            );
            vstd::arithmetic::div_mod::lemma_div_pos_is_pos(
                -(a as int) + (d as int) / 2,
                d as int,
            );
        }
        -(((((-a) as u128) + (d as u128) / 2) / (d as u128)) as i64)
    }
}

/// Combined scale-and-divide for formula coefficients: (k * v) / d with
/// truncation, saturated into the fixed-point range.
pub fn fmuldiv(k: i64, v: i64, d: i64) -> (r: i64)
    requires
        -2_000_000_000 <= k <= 2_000_000_000,
        in_range(v as int),
        0 < d,
    ensures
        r == fmuldiv_s(k as int, v as int, d as int),
        in_range(r as int),
{
    proof {
        vstd::arithmetic::mul::lemma_mul_upper_bound(
            fabs_s(k as int),
            2_000_000_000,
            fabs_s(v as int),
            FP_MAX as int,
        );
        assert(fabs_s((k as int) * (v as int)) == fabs_s(k as int) * fabs_s(v as int))
            by (nonlinear_arith);
    }
    let p: i128 = (k as i128) * (v as i128);
    clamp128(tdiv128(p, d as i128))
}

/// Integer square root: the greatest r with r * r <= n, for n below 2^86.
pub fn isqrt(n: u128) -> (r: u64)
    requires
        (n as int) < 0x4000000000000000000000,
    ensures
        r == isqrt_s(n as int),
        (r as int) * (r as int) <= n as int,
        (n as int) < ((r as int) + 1) * ((r as int) + 1),
        r < 0x80000000000,
{
    let mut lo: u64 = 0;
    let mut hi: u64 = 0x80000000000;
    proof {
        assert((0x80000000000 as int) * (0x80000000000 as int) == 0x4000000000000000000000);
    }
    while hi - lo > 1
        invariant
            lo < hi <= 0x80000000000,
            (lo as int) * (lo as int) <= n as int,
            (n as int) < (hi as int) * (hi as int),
            isqrt_search_s(n as int, lo as int, hi as int) == isqrt_s(n as int),
        decreases hi - lo,
    {
        let mid = lo + (hi - lo) / 2;
        proof {
            assert((mid as int) * (mid as int) < 0x40000000000000000000000000000000)
                by (nonlinear_arith)
                requires
                    0 <= mid as int <= 0x80000000000,
            ;
        }
        let sq: u128 = (mid as u128) * (mid as u128);
        if sq <= n {
            lo = mid;
        } else {
            hi = mid;
        }
    }
    lo
}

/// Euclidean remainder in [0, m) for a positive modulus.
pub fn emod(a: i64, m: i64) -> (r: i64)
    requires
        in_range(a as int),
        0 < m <= FP_MAX,
    ensures
        r == emod_s(a as int, m as int),
        0 <= r < m,
{
    let q = tdiv128(a as i128, m as i128);
    proof {
        vstd::arithmetic::div_mod::lemma_fundamental_div_mod(a as int, m as int);
        vstd::arithmetic::div_mod::lemma_fundamental_div_mod(-(a as int), m as int);
        assert(q * (m as int) == tdiv_s(a as int, m as int) * (m as int));
        assert(fabs_s(tdiv_s(a as int, m as int) * (m as int)) <= fabs_s(a as int) + (m as int))
            by (nonlinear_arith)
            requires
                m > 0,
                fabs_s(tdiv_s(a as int, m as int)) <= fabs_s(a as int),
                tdiv_s(a as int, m as int) == (if a as int >= 0 {
                    (a as int) / (m as int)
                } else {
                    -((-(a as int)) / (m as int))
                }),
                fabs_s(a as int) <= FP_MAX as int,
        ;
        assert(0 <= (a as int) - tdiv_s(a as int, m as int) * (m as int) + (if (a as int)
            - tdiv_s(a as int, m as int) * (m as int) < 0 {
            m as int
        } else {
            0
        }) < m as int) by (nonlinear_arith)
            requires
                m > 0,
                tdiv_s(a as int, m as int) == (if a as int >= 0 {
                    (a as int) / (m as int)
                } else {
                    -((-(a as int)) / (m as int))
                }),
        ;
    }
    let prod: i128 = q * (m as i128);
    let rem: i128 = (a as i128) - prod;
    if rem < 0 {
        (rem + m as i128) as i64
    } else {
        rem as i64
    }
}

} // verus!
