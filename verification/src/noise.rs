//! Deterministic pseudo-random signals.
//!
//! Every stochastic-looking quantity in the simulator is a hash of integer
//! inputs (scaled coordinates, day numbers, time-window indices) mixed by
//! wrapping multiplication and exclusive or, exactly as a real data logger
//! would replay them: the same inputs give the same value on any machine.

use vstd::prelude::*;

use crate::fp::tdiv_s;
use crate::fp::tdiv128;

verus! {

/// Two's-complement bit pattern of a signed 64-bit value.
pub open spec fn bits_of_s(x: int) -> int {
    if x >= 0 {
        x
    } else {
        x + 0x10000000000000000
    }
}

/// Signed value of a 64-bit two's-complement bit pattern.
pub open spec fn signed_of_s(u: int) -> int {
    if u < 0x8000000000000000 {
        u
    } else {
        u - 0x10000000000000000
    }
}

/// Product modulo 2^64 (wrapping multiplication on bit patterns).
pub open spec fn wmul_s(a: int, b: int) -> int {
    (a * b) % 0x10000000000000000
}

/// Arithmetic right shift by eleven bits: floor division by 2048 on the
/// signed value.
pub open spec fn sar11_s(x: int) -> int {
    if x >= 0 {
        x / 2048
    } else {
        -(((-x) + 2047) / 2048)
    }
}

/// Mix a signed seed with a multiplier and map the top bits to a signed
/// micro-unit value in [-0.5, 0.5).
pub open spec fn noise_unit_s(seed_bits: int, mult_bits: int) -> int {
    let v = sar11_s(signed_of_s(wmul_s(seed_bits, mult_bits)));
    tdiv_s(v * 1_000_000, 0x20000000000000)
}

/// Three-term seed: each component is multiplied (wrapping) by its own
/// prime and the products are combined with exclusive or.
pub open spec fn seed3_s(a: int, c1: int, b: int, c2: int, c: int, c3: int) -> int {
    (((wmul_s(bits_of_s(a), c1) as u64) ^ (wmul_s(bits_of_s(b), c2) as u64)) ^ (wmul_s(
        bits_of_s(c),
        c3,
    ) as u64)) as int
}

pub fn bits_of(x: i64) -> (u: u64)
    ensures
        u == bits_of_s(x as int),
{
    if x >= 0 {
        x as u64
    } else {
        ((x as i128) + 0x10000000000000000) as u64
    }
}

pub fn signed_of(u: u64) -> (x: i64)
    ensures
        x == signed_of_s(u as int),
{
    if u < 0x8000000000000000 {
        u as i64
    } else {
        ((u as i128) - 0x10000000000000000) as i64
    }
}

pub fn wmul64(a: u64, b: u64) -> (r: u64)
    ensures
        r == wmul_s(a as int, b as int),
{
    proof {
        assert((a as int) * (b as int) < 0x100000000000000000000000000000000)
            by (nonlinear_arith)
            requires
                0 <= a as int,
                (a as int) < 0x10000000000000000,
                0 <= b as int,
                (b as int) < 0x10000000000000000,
        ;
        assert((a as int) * (b as int) >= 0) by (nonlinear_arith)
            requires
                a as int >= 0,
                b as int >= 0,
        ;
    }
    let p: u128 = (a as u128) * (b as u128);
    (p % 0x10000000000000000) as u64
}

/// Arithmetic right shift by eleven bits of a signed 64-bit value.
pub fn sar11(x: i64) -> (r: i64)
    ensures
        r == sar11_s(x as int),
        -0x10000000000000 <= r <= 0x10000000000000,
{
    if x >= 0 {
        proof {
            vstd::arithmetic::div_mod::lemma_div_nonincreasing(x as int, 2048);
            vstd::arithmetic::div_mod::lemma_div_is_ordered(
                x as int,
                0x8000000000000000,
                2048,
            );
            vstd::arithmetic::div_mod::lemma_div_pos_is_pos(x as int, 2048);
        }
        ((x as u64) / 2048) as i64
    } else {
        proof {
            vstd::arithmetic::div_mod::lemma_div_is_ordered(
                -(x as int) + 2047,
                0x8000000000000000int + 2047,
                2048,
            );
            vstd::arithmetic::div_mod::lemma_div_pos_is_pos(-(x as int) + 2047, 2048);
        }
        let mag: u64 = ((-(x as i128) + 2047) as u64) / 2048;
        -(mag as i64)
    }
}

/// Signed micro-unit noise in [-0.5, 0.5) derived from a seed and a fixed
/// multiplier.
pub fn noise_unit(seed_bits: u64, mult_bits: u64) -> (r: i64)
    ensures
        r == noise_unit_s(seed_bits as int, mult_bits as int),
        -500_000 <= r <= 500_000,
{
    let v = sar11(signed_of(wmul64(seed_bits, mult_bits)));
    let q = tdiv128((v as i128) * 1_000_000, 0x20000000000000);
    proof {
        if v as int >= 0 {
            vstd::arithmetic::div_mod::lemma_div_is_ordered(
                (v as int) * 1_000_000,
                0x10000000000000int * 1_000_000,
                0x20000000000000,
            );
            vstd::arithmetic::mul::lemma_mul_inequality(v as int, 0x10000000000000, 1_000_000);
        } else {
            vstd::arithmetic::div_mod::lemma_div_is_ordered(
                -((v as int) * 1_000_000),
                0x10000000000000int * 1_000_000,
                0x20000000000000,
            );
            vstd::arithmetic::mul::lemma_mul_inequality(-(v as int), 0x10000000000000, 1_000_000);
        }
    }
    q as i64
}

/// Build a three-term seed out of scaled integer inputs.
pub fn seed3(a: i64, c1: u64, b: i64, c2: u64, c: i64, c3: u64) -> (s: u64)
    ensures
        s == seed3_s(a as int, c1 as int, b as int, c2 as int, c as int, c3 as int),
{
    wmul64(bits_of(a), c1) ^ wmul64(bits_of(b), c2) ^ wmul64(bits_of(c), c3)
}

} // verus!
