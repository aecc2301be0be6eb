//! Fixed-point exponential, logarithm and real power.
//!
//! `exp` splits off a power of two (x = k ln2 + r) and evaluates a Taylor
//! polynomial on the small remainder; `ln` normalises the argument into
//! [1, 2) and sums the atanh series; a real power a^b is exp(b ln a).
//! Arguments outside each function's useful domain are clamped (exp) or
//! mapped to zero (ln, pow of a non-positive base), keeping every function
//! total and deterministic.

use vstd::prelude::*;

use crate::fp::ONE;
use crate::fp::LN2_FP;
use crate::fp::in_range;
use crate::fp::fmul_s;
use crate::fp::fadd_s;
use crate::fp::fdivi_s;
use crate::fp::fdiv_s;
use crate::fp::fscale_s;
use crate::fp::fclamp_s;
use crate::fp::round_div_s;
use crate::fp::fmul;
use crate::fp::fadd;
use crate::fp::fdivi;
use crate::fp::fdiv;
use crate::fp::fscale;
use crate::fp::fclamp;
use crate::fp::round_div;

verus! {

/// Repeated saturating doubling: e * 2^n.
pub open spec fn scale_up_s(e: int, n: nat) -> int
    decreases n,
{
    if n == 0 {
        e
    } else {
        scale_up_s(fadd_s(e, e), (n - 1) as nat)
    }
}

/// Repeated truncating halving: e / 2^n.
pub open spec fn scale_down_s(e: int, n: nat) -> int
    decreases n,
{
    if n == 0 {
        e
    } else {
        scale_down_s(fdivi_s(e, 2), (n - 1) as nat)
    }
}

/// Taylor polynomial of the exponential on the reduced remainder.
pub open spec fn exp_core_s(r: int) -> int {
    let t8 = fadd_s(ONE as int, fdivi_s(r, 8));
    let t7 = fadd_s(ONE as int, fdivi_s(fmul_s(r, t8), 7));
    let t6 = fadd_s(ONE as int, fdivi_s(fmul_s(r, t7), 6));
    let t5 = fadd_s(ONE as int, fdivi_s(fmul_s(r, t6), 5));
    let t4 = fadd_s(ONE as int, fdivi_s(fmul_s(r, t5), 4));
    let t3 = fadd_s(ONE as int, fdivi_s(fmul_s(r, t4), 3));
    let t2 = fadd_s(ONE as int, fdivi_s(fmul_s(r, t3), 2));
    fadd_s(ONE as int, fmul_s(r, t2))
}

pub open spec fn exp_s(x0: int) -> int {
    let x = fclamp_s(x0, -20_000_000, 20_500_000);
    let k = fclamp_s(round_div_s(x, LN2_FP as int), -31, 31);
    let r = x - k * LN2_FP as int;
    let e = exp_core_s(r);
    if k >= 0 {
        scale_up_s(e, k as nat)
    } else {
        scale_down_s(e, (-k) as nat)
    }
}

/// One conditional halving step of the logarithm normalisation.
pub open spec fn norm_down_s(m: int, k: int, n: nat) -> (int, int)
    decreases n,
{
    if n == 0 {
        (m, k)
    } else if m >= 2 * ONE as int {
        norm_down_s(fdivi_s(m, 2), k + 1, (n - 1) as nat)
    } else {
        norm_down_s(m, k, (n - 1) as nat)
    }
}

/// One conditional doubling step of the logarithm normalisation.
pub open spec fn norm_up_s(m: int, k: int, n: nat) -> (int, int)
    decreases n,
{
    if n == 0 {
        (m, k)
    } else if m < ONE as int {
        norm_up_s(2 * m, k - 1, (n - 1) as nat)
    } else {
        norm_up_s(m, k, (n - 1) as nat)
    }
}

/// atanh series for ln on the normalised mantissa in [1, 2).
pub open spec fn ln_core_s(m: int) -> int {
    let z = fdiv_s(m - ONE as int, m + ONE as int);
    let z2 = fmul_s(z, z);
    let t3 = fmul_s(z, z2);
    let t5 = fmul_s(t3, z2);
    let t7 = fmul_s(t5, z2);
    let t9 = fmul_s(t7, z2);
    let t11 = fmul_s(t9, z2);
    let series = fadd_s(
        fadd_s(fadd_s(z, fdivi_s(t3, 3)), fadd_s(fdivi_s(t5, 5), fdivi_s(t7, 7))),
        fadd_s(fdivi_s(t9, 9), fdivi_s(t11, 11)),
    );
    fscale_s(2, series)
}

pub open spec fn ln_s(x: int) -> int {
    if x < 1 {
        0
    } else {
        let down = norm_down_s(x, 0, 60);
        let up = norm_up_s(down.0, down.1, 21);
        fadd_s(ln_core_s(up.0), fscale_s(up.1, LN2_FP as int))
    }
}

/// a^b for a positive base, as exp(b ln a); zero otherwise.
pub open spec fn powf_s(a: int, b: int) -> int {
    if a <= 0 {
        0
    } else {
        exp_s(fmul_s(b, ln_s(a)))
    }
}

/// Exponential of a micro-unit argument.
pub fn exp_fp(x0: i64) -> (res: i64)
    requires
        in_range(x0 as int),
    ensures
        res == exp_s(x0 as int),
        in_range(res as int),
{
    let x = fclamp(x0, -20_000_000, 20_500_000);
    let k = fclamp(round_div(x, LN2_FP), -31, 31);
    let r = x - k * LN2_FP;
    let t8 = fadd(ONE, fdivi(r, 8));
    let t7 = fadd(ONE, fdivi(fmul(r, t8), 7));
    let t6 = fadd(ONE, fdivi(fmul(r, t7), 6));
    let t5 = fadd(ONE, fdivi(fmul(r, t6), 5));
    let t4 = fadd(ONE, fdivi(fmul(r, t5), 4));
    let t3 = fadd(ONE, fdivi(fmul(r, t4), 3));
    let t2 = fadd(ONE, fdivi(fmul(r, t3), 2));
    let mut e = fadd(ONE, fmul(r, t2));
    if k >= 0 {
        let steps: usize = k as usize;
        let mut j: usize = 0;
        while j < steps
            invariant
                0 <= j <= steps,
                in_range(e as int),
                scale_up_s(e as int, (steps - j) as nat) == exp_s(x0 as int),
            decreases steps - j,
        {
            e = fadd(e, e);
            j = j + 1;
        }
        e
    } else {
        let steps: usize = (-k) as usize;
        let mut j: usize = 0;
        while j < steps
            invariant
                0 <= j <= steps,
                in_range(e as int),
                scale_down_s(e as int, (steps - j) as nat) == exp_s(x0 as int),
            decreases steps - j,
        {
            e = fdivi(e, 2);
            j = j + 1;
        }
        e
    }
}

/// Natural logarithm of a positive micro-unit argument; zero below one
/// micro-unit.
pub fn ln_fp(x: i64) -> (res: i64)
    requires
        in_range(x as int),
    ensures
        res == ln_s(x as int),
        in_range(res as int),
{
    if x < 1 {
        return 0;
    }
    let mut m: i64 = x;
    let mut k: i64 = 0;
    let mut j: usize = 0;
    proof {
        vstd::arithmetic::power2::lemma2_to64();
    }
    while j < 60
        invariant
            0 <= j <= 60,
            1 <= m as int <= crate::fp::FP_MAX as int,
            0 <= k as int <= j as int,
            (m as int) < 2 * (ONE as int) || (m as int) * (vstd::arithmetic::power2::pow2(
                j as nat,
            ) as int) <= crate::fp::FP_MAX as int,
            norm_down_s(m as int, k as int, (60 - j) as nat) == norm_down_s(x as int, 0, 60),
        decreases 60 - j,
    {
        if m >= 2 * ONE {
            let mold: Ghost<int> = Ghost(m as int);
            m = fdivi(m, 2);
            k = k + 1;
            proof {
                vstd::arithmetic::power2::lemma_pow2_unfold((j + 1) as nat);
                vstd::arithmetic::power2::lemma_pow2_pos(j as nat);
                assert((m as int) * (vstd::arithmetic::power2::pow2((j + 1) as nat) as int)
                    <= (mold@) * (vstd::arithmetic::power2::pow2(j as nat) as int))
                    by (nonlinear_arith)
                    requires
                        2 * (m as int) <= mold@,
                        vstd::arithmetic::power2::pow2((j + 1) as nat) == 2
                            * vstd::arithmetic::power2::pow2(j as nat),
                        vstd::arithmetic::power2::pow2(j as nat) >= 1,
                ;
            }
        } else {
            proof {
                vstd::arithmetic::power2::lemma_pow2_pos((j + 1) as nat);
            }
        }
        j = j + 1;
    }
    proof {
        vstd::arithmetic::power2::lemma2_to64();
        vstd::arithmetic::power2::lemma2_to64_rest();
        if m as int >= 2 * ONE as int {
            assert((m as int) * (vstd::arithmetic::power2::pow2(60) as int) > crate::fp::FP_MAX
                as int) by (nonlinear_arith)
                requires
                    m as int >= 2 * ONE as int,
                    vstd::arithmetic::power2::pow2(60) == 0x1000000000000000,
            ;
        }
    }
    proof {
        assert((m as int) * (vstd::arithmetic::power2::pow2(21) as int) >= ONE as int)
            by (nonlinear_arith)
            requires
                m as int >= 1,
                vstd::arithmetic::power2::pow2(21) == 0x200000,
        ;
    }
    let mut j2: usize = 0;
    while j2 < 21
        invariant
            0 <= j2 <= 21,
            1 <= m as int,
            (m as int) < 2 * (ONE as int),
            -(j2 as int) <= k as int <= 60,
            (m as int) >= (ONE as int) || (m as int) * (vstd::arithmetic::power2::pow2(
                (21 - j2) as nat,
            ) as int) >= ONE as int,
            norm_up_s(m as int, k as int, (21 - j2) as nat) == norm_up_s(
                norm_down_s(x as int, 0, 60).0,
                norm_down_s(x as int, 0, 60).1,
                21,
            ),
        decreases 21 - j2,
    {
        if m < ONE {
            let mold: Ghost<int> = Ghost(m as int);
            m = m * 2;
            k = k - 1;
            proof {
                vstd::arithmetic::power2::lemma_pow2_unfold((21 - j2) as nat);
                vstd::arithmetic::power2::lemma_pow2_pos((20 - j2) as nat);
                if mold@ < ONE as int {
                    assert((m as int) * (vstd::arithmetic::power2::pow2((20 - j2) as nat) as int)
                        == (mold@) * (vstd::arithmetic::power2::pow2((21 - j2) as nat) as int))
                        by (nonlinear_arith)
                        requires
                            m as int == 2 * mold@,
                            vstd::arithmetic::power2::pow2((21 - j2) as nat) == 2
                                * vstd::arithmetic::power2::pow2((20 - j2) as nat),
                    ;
                }
            }
        }
        j2 = j2 + 1;
    }
    proof {
        vstd::arithmetic::power2::lemma2_to64();
    }
    let z = fdiv(m - ONE, m + ONE);
    let z2 = fmul(z, z);
    let t3 = fmul(z, z2);
    let t5 = fmul(t3, z2);
    let t7 = fmul(t5, z2);
    let t9 = fmul(t7, z2);
    let t11 = fmul(t9, z2);
    let series = fadd(
        fadd(fadd(z, fdivi(t3, 3)), fadd(fdivi(t5, 5), fdivi(t7, 7))),
        fadd(fdivi(t9, 9), fdivi(t11, 11)),
    );
    fadd(fscale(2, series), fscale(k, LN2_FP))
}

/// a^b for micro-unit base and exponent.
pub fn powf_fp(a: i64, b: i64) -> (res: i64)
    requires
        in_range(a as int),
        in_range(b as int),
    ensures
        res == powf_s(a as int, b as int),
        in_range(res as int),
{
    if a <= 0 {
        0
    } else {
        exp_fp(fmul(b, ln_fp(a)))
    }
}

} // verus!
