//! Modbus register projection.
//!
//! Each plant occupies a 100-register block.  Analogue fields are IEEE 754
//! single-precision values split big-endian across two registers (high
//! word first); status, fault code and alarm flags are raw words.  The
//! float encoding is computed here in integer arithmetic: normalise the
//! micro-unit magnitude to a binary mantissa in [1, 2), round to 24 bits
//! and assemble sign, biased exponent and fraction arithmetically, so the
//! whole wire image is a verified function of the telemetry record.

use vstd::prelude::*;

use crate::fp::fabs_s;
use crate::plant::PlantData;

verus! {

/// One halving step of the mantissa normalisation: double the denominator
/// while the ratio is 2 or more, raising the exponent.
pub open spec fn fnorm_down_s(num: int, den: int, e: int, n: nat) -> (int, int, int)
    decreases n,
{
    if n == 0 {
        (num, den, e)
    } else if num >= 2 * den {
        fnorm_down_s(num, 2 * den, e + 1, (n - 1) as nat)
    } else {
        fnorm_down_s(num, den, e, (n - 1) as nat)
    }
}

/// One doubling step of the mantissa normalisation: double the numerator
/// while the ratio is below 1, lowering the exponent.
pub open spec fn fnorm_up_s(num: int, den: int, e: int, n: nat) -> (int, int, int)
    decreases n,
{
    if n == 0 {
        (num, den, e)
    } else if num < den {
        fnorm_up_s(2 * num, den, e - 1, (n - 1) as nat)
    } else {
        fnorm_up_s(num, den, e, (n - 1) as nat)
    }
}

/// IEEE 754 single-precision bit pattern of a micro-unit value, rounded
/// half away from zero.
pub open spec fn f32_bits_s(v: int) -> int {
    if v == 0 {
        0
    } else {
        let sign = if v < 0 {
            0x80000000int
        } else {
            0int
        };
        let down = fnorm_down_s(fabs_s(v), 1_000_000, 0, 40);
        let up = fnorm_up_s(down.0, down.1, down.2, 21);
        let m = (up.0 * 0x800000 + up.1 / 2) / up.1;
        if m == 0x1000000 {
            sign + (up.2 + 1 + 127) * 0x800000
        } else {
            sign + (up.2 + 127) * 0x800000 + (m - 0x800000)
        }
    }
}

/// High register of a 32-bit pattern (big-endian word order).
pub open spec fn word_hi_s(bits: int) -> int {
    bits / 65536
}

/// Low register of a 32-bit pattern.
pub open spec fn word_lo_s(bits: int) -> int {
    bits % 65536
}

/// Reassembling the two registers of a float field gives back exactly the
/// encoded bit pattern.
pub proof fn lemma_word_round_trip(bits: int)
    requires
        0 <= bits < 0x100000000,
    ensures
        word_hi_s(bits) * 65536 + word_lo_s(bits) == bits,
        0 <= word_hi_s(bits) < 65536,
        0 <= word_lo_s(bits) < 65536,
{
    vstd::arithmetic::div_mod::lemma_fundamental_div_mod(bits, 65536);
}

/// Encode a micro-unit value as IEEE 754 single-precision bits.
pub fn f32_bits_from_micro(v: i64) -> (bits: u32)
    requires
        crate::fp::in_range(v as int),
    ensures
        bits == f32_bits_s(v as int),
{
    if v == 0 {
        return 0;
    }
    let sign: u32 = if v < 0 {
        0x80000000
    } else {
        0
    };
    let a: u64 = if v < 0 {
        (-(v as i128)) as u64
    } else {
        v as u64
    };
    let mut num: u64 = a;
    let mut den: u64 = 1_000_000;
    let mut e: i32 = 0;
    let mut j: usize = 0;
    proof {
        vstd::arithmetic::power2::lemma2_to64();
        vstd::arithmetic::power2::lemma2_to64_rest();
    }
    while j < 40
        invariant
            0 <= j <= 40,
            1 <= num as int <= crate::fp::FP_MAX as int,
            num == a,
            1_000_000 <= den as int,
            den as int <= 0x4000000000000000,
            0 <= e as int <= j as int,
            (den as int) > 1_000_000 ==> num as int >= den as int,
            num as int >= 2 * (den as int) ==> den as int == 1_000_000 * (
            vstd::arithmetic::power2::pow2(j as nat) as int),
            fnorm_down_s(num as int, den as int, e as int, (40 - j) as nat) == fnorm_down_s(
                a as int,
                1_000_000,
                0,
                40,
            ),
        decreases 40 - j,
    {
        if num >= 2 * den {
            proof {
                vstd::arithmetic::power2::lemma_pow2_unfold((j + 1) as nat);
                assert(1_000_000 * (vstd::arithmetic::power2::pow2((j + 1) as nat) as int) == 2 * (
                1_000_000 * (vstd::arithmetic::power2::pow2(j as nat) as int)))
                    by (nonlinear_arith)
                    requires
                        vstd::arithmetic::power2::pow2((j + 1) as nat) == 2
                            * vstd::arithmetic::power2::pow2(j as nat),
                ;
                if j + 1 < 40 {
                    vstd::arithmetic::power2::lemma_pow2_strictly_increases((j + 1) as nat, 40);
                }
                assert(1_000_000 * (vstd::arithmetic::power2::pow2((j + 1) as nat) as int)
                    <= 1_000_000 * (vstd::arithmetic::power2::pow2(40) as int))
                    by (nonlinear_arith)
                    requires
                        vstd::arithmetic::power2::pow2((j + 1) as nat)
                            <= vstd::arithmetic::power2::pow2(40),
                ;
            }
            den = den * 2;
            e = e + 1;
        } else {
            proof {
                vstd::arithmetic::power2::lemma_pow2_pos((j + 1) as nat);
            }
        }
        j = j + 1;
    }
    proof {
        if num as int >= 2 * (den as int) {
            assert(1_000_000 * (vstd::arithmetic::power2::pow2(40) as int) > crate::fp::FP_MAX
                as int) by (nonlinear_arith)
                requires
                    vstd::arithmetic::power2::pow2(40) == 0x10000000000,
            ;
        }
    }
    proof {
        assert((num as int) * (vstd::arithmetic::power2::pow2(21) as int) >= 2_000_000)
            by (nonlinear_arith)
            requires
                num as int >= 1,
                vstd::arithmetic::power2::pow2(21) == 0x200000,
        ;
    }
    let mut j2: usize = 0;
    while j2 < 21
        invariant
            0 <= j2 <= 21,
            1 <= num as int,
            (num as int) < 2 * (den as int),
            1_000_000 <= den as int,
            den as int <= 0x4000000000000000,
            -(j2 as int) <= e as int <= 40,
            (den as int) > 1_000_000 ==> num as int >= den as int,
            (num as int) < (den as int) ==> (num as int) * (vstd::arithmetic::power2::pow2(
                (21 - j2) as nat,
            ) as int) >= 2_000_000,
            fnorm_up_s(num as int, den as int, e as int, (21 - j2) as nat) == fnorm_up_s(
                fnorm_down_s(a as int, 1_000_000, 0, 40).0,
                fnorm_down_s(a as int, 1_000_000, 0, 40).1,
                fnorm_down_s(a as int, 1_000_000, 0, 40).2,
                21,
            ),
        decreases 21 - j2,
    {
        if num < den {
            proof {
                vstd::arithmetic::power2::lemma_pow2_unfold((21 - j2) as nat);
                vstd::arithmetic::power2::lemma_pow2_pos((20 - j2) as nat);
                assert((2 * (num as int)) * (vstd::arithmetic::power2::pow2((20 - j2) as nat)
                    as int) == (num as int) * (vstd::arithmetic::power2::pow2((21 - j2) as nat)
                    as int)) by (nonlinear_arith)
                    requires
                        vstd::arithmetic::power2::pow2((21 - j2) as nat) == 2
                            * vstd::arithmetic::power2::pow2((20 - j2) as nat),
                ;
            }
            num = num * 2;
            e = e - 1;
        }
        j2 = j2 + 1;
    }
    proof {
        vstd::arithmetic::power2::lemma2_to64();
        if (num as int) < den as int {
            assert(false) by (nonlinear_arith)
                requires
                    num as int >= 1,
                    den as int == 1_000_000,
                    (num as int) * (vstd::arithmetic::power2::pow2(0) as int) >= 2_000_000,
                    vstd::arithmetic::power2::pow2(0) == 1,
                    (num as int) < den as int,
            ;
        }
    }
    let numw: u128 = (num as u128) * 0x800000 + (den as u128) / 2;
    let m: u128 = numw / (den as u128);
    proof {
        let numn = num as int;
        let denn = den as int;
        vstd::arithmetic::div_mod::lemma_div_is_ordered(
            denn * 0x800000,
            numn * 0x800000 + denn / 2,
            denn,
        );
        vstd::arithmetic::div_mod::lemma_div_by_multiple(0x800000, denn);
        assert(denn * 0x800000 <= numn * 0x800000 + denn / 2) by (nonlinear_arith)
            requires
                denn <= numn,
                denn >= 1,
        ;
        assert(numn * 0x800000 + denn / 2 < denn * 0x1000001) by (nonlinear_arith)
            requires
                numn < 2 * denn,
                denn >= 1,
        ;
        vstd::arithmetic::div_mod::lemma_multiply_divide_lt(
            numn * 0x800000 + denn / 2,
            denn,
            0x1000001,
        );
    }
    let ebiased: u32 = (e + 127) as u32;
    if m == 0x1000000 {
        sign + (ebiased + 1) * 0x800000
    } else {
        sign + ebiased * 0x800000 + (m as u32 - 0x800000)
    }
}

/// Split a 32-bit pattern into its big-endian register pair.
pub fn split_words(bits: u32) -> (w: (u16, u16))
    ensures
        w.0 as int == word_hi_s(bits as int),
        w.1 as int == word_lo_s(bits as int),
        (w.0 as int) * 65536 + w.1 as int == bits as int,
{
    proof {
        lemma_word_round_trip(bits as int);
    }
    ((bits / 65536) as u16, (bits % 65536) as u16)
}


/// Register offsets of one plant block (big-endian float pairs; status,
/// fault code and alarm flags are raw words).
pub const REG_POWER_KW: u16 = 0;

pub const REG_VOLTAGE_L1_V: u16 = 2;

pub const REG_CURRENT_L1_A: u16 = 4;

pub const REG_FREQUENCY_HZ: u16 = 6;

pub const REG_TEMPERATURE_C: u16 = 8;

pub const REG_STATUS: u16 = 10;

pub const REG_VOLTAGE_L2_V: u16 = 11;

pub const REG_VOLTAGE_L3_V: u16 = 13;

pub const REG_CURRENT_L2_A: u16 = 15;

pub const REG_CURRENT_L3_A: u16 = 17;

pub const REG_REACTIVE_POWER_KVAR: u16 = 19;

pub const REG_APPARENT_POWER_KVA: u16 = 21;

pub const REG_POWER_FACTOR: u16 = 23;

pub const REG_ROCOF_HZ_S: u16 = 25;

pub const REG_DC_VOLTAGE_V: u16 = 27;

pub const REG_DC_CURRENT_A: u16 = 29;

pub const REG_DC_POWER_KW: u16 = 31;

pub const REG_MPPT_VOLTAGE_V: u16 = 33;

pub const REG_MPPT_CURRENT_A: u16 = 35;

pub const REG_INVERTER_TEMP_C: u16 = 37;

pub const REG_AMBIENT_TEMP_C: u16 = 39;

pub const REG_EFFICIENCY_PCT: u16 = 41;

pub const REG_POA_IRRADIANCE: u16 = 43;

pub const REG_SOLAR_ELEVATION: u16 = 45;

pub const REG_PERF_RATIO: u16 = 47;

pub const REG_SPECIFIC_YIELD: u16 = 49;

pub const REG_CAPACITY_FACTOR: u16 = 51;

pub const REG_ISOLATION_MOHM: u16 = 53;

pub const REG_FAULT_CODE: u16 = 55;

pub const REG_ALARM_FLAGS: u16 = 56;

pub const REG_DAILY_ENERGY_KWH: u16 = 57;

pub const REG_MONTHLY_ENERGY_KWH: u16 = 59;

pub const REG_TOTAL_ENERGY_KWH: u16 = 61;

/// Registers a plant block occupies.
pub const PLANT_BLOCK_SIZE: u16 = 100;

/// The word a plant block holds at a given offset: the high or low half
/// of the field's IEEE 754 encoding, a raw word, or zero where the layout
/// leaves a gap.
pub open spec fn block_word_s(d: PlantData, i: int) -> int {
    if i == 10 {
        d.status as int
    } else if i == 55 {
        d.fault_code as int
    } else if i == 56 {
        (d.alarm_flags as int) % 65536
    } else if i == 0 {
        word_hi_s(f32_bits_s(d.power_kw as int))
    } else if i == 1 {
        word_lo_s(f32_bits_s(d.power_kw as int))
    } else if i == 2 {
        word_hi_s(f32_bits_s(d.voltage_l1_v as int))
    } else if i == 3 {
        word_lo_s(f32_bits_s(d.voltage_l1_v as int))
    } else if i == 4 {
        word_hi_s(f32_bits_s(d.current_l1_a as int))
    } else if i == 5 {
        word_lo_s(f32_bits_s(d.current_l1_a as int))
    } else if i == 6 {
        word_hi_s(f32_bits_s(d.frequency_hz as int))
    } else if i == 7 {
        word_lo_s(f32_bits_s(d.frequency_hz as int))
    } else if i == 8 {
        word_hi_s(f32_bits_s(d.temperature_c as int))
    } else if i == 9 {
        word_lo_s(f32_bits_s(d.temperature_c as int))
    } else if i == 11 {
        word_hi_s(f32_bits_s(d.voltage_l2_v as int))
    } else if i == 12 {
        word_lo_s(f32_bits_s(d.voltage_l2_v as int))
    } else if i == 13 {
        word_hi_s(f32_bits_s(d.voltage_l3_v as int))
    } else if i == 14 {
        word_lo_s(f32_bits_s(d.voltage_l3_v as int))
    } else if i == 15 {
        word_hi_s(f32_bits_s(d.current_l2_a as int))
    } else if i == 16 {
        word_lo_s(f32_bits_s(d.current_l2_a as int))
    } else if i == 17 {
        word_hi_s(f32_bits_s(d.current_l3_a as int))
    } else if i == 18 {
        word_lo_s(f32_bits_s(d.current_l3_a as int))
    } else if i == 19 {
        word_hi_s(f32_bits_s(d.reactive_power_kvar as int))
    } else if i == 20 {
        word_lo_s(f32_bits_s(d.reactive_power_kvar as int))
    } else if i == 21 {
        word_hi_s(f32_bits_s(d.apparent_power_kva as int))
    } else if i == 22 {
        word_lo_s(f32_bits_s(d.apparent_power_kva as int))
    } else if i == 23 {
        word_hi_s(f32_bits_s(d.power_factor as int))
    } else if i == 24 {
        word_lo_s(f32_bits_s(d.power_factor as int))
    } else if i == 25 {
        word_hi_s(f32_bits_s(d.rocof_hz_s as int))
    } else if i == 26 {
        word_lo_s(f32_bits_s(d.rocof_hz_s as int))
    } else if i == 27 {
        word_hi_s(f32_bits_s(d.dc_voltage_v as int))
    } else if i == 28 {
        word_lo_s(f32_bits_s(d.dc_voltage_v as int))
    } else if i == 29 {
        word_hi_s(f32_bits_s(d.dc_current_a as int))
    } else if i == 30 {
        word_lo_s(f32_bits_s(d.dc_current_a as int))
    } else if i == 31 {
        word_hi_s(f32_bits_s(d.dc_power_kw as int))
    } else if i == 32 {
        word_lo_s(f32_bits_s(d.dc_power_kw as int))
    } else if i == 33 {
        word_hi_s(f32_bits_s(d.mppt_voltage_v as int))
    } else if i == 34 {
        word_lo_s(f32_bits_s(d.mppt_voltage_v as int))
    } else if i == 35 {
        word_hi_s(f32_bits_s(d.mppt_current_a as int))
    } else if i == 36 {
        word_lo_s(f32_bits_s(d.mppt_current_a as int))
    } else if i == 37 {
        word_hi_s(f32_bits_s(d.inverter_temp_c as int))
    } else if i == 38 {
        word_lo_s(f32_bits_s(d.inverter_temp_c as int))
    } else if i == 39 {
        word_hi_s(f32_bits_s(d.ambient_temp_c as int))
    } else if i == 40 {
        word_lo_s(f32_bits_s(d.ambient_temp_c as int))
    } else if i == 41 {
        word_hi_s(f32_bits_s(d.efficiency_percent as int))
    } else if i == 42 {
        word_lo_s(f32_bits_s(d.efficiency_percent as int))
    } else if i == 43 {
        word_hi_s(f32_bits_s(d.poa_irradiance_w_m2 as int))
    } else if i == 44 {
        word_lo_s(f32_bits_s(d.poa_irradiance_w_m2 as int))
    } else if i == 45 {
        word_hi_s(f32_bits_s(d.solar_elevation_deg as int))
    } else if i == 46 {
        word_lo_s(f32_bits_s(d.solar_elevation_deg as int))
    } else if i == 47 {
        word_hi_s(f32_bits_s(d.performance_ratio as int))
    } else if i == 48 {
        word_lo_s(f32_bits_s(d.performance_ratio as int))
    } else if i == 49 {
        word_hi_s(f32_bits_s(d.specific_yield_kwh_kwp as int))
    } else if i == 50 {
        word_lo_s(f32_bits_s(d.specific_yield_kwh_kwp as int))
    } else if i == 51 {
        word_hi_s(f32_bits_s(d.capacity_factor_percent as int))
    } else if i == 52 {
        word_lo_s(f32_bits_s(d.capacity_factor_percent as int))
    } else if i == 53 {
        word_hi_s(f32_bits_s(d.isolation_resistance_mohm as int))
    } else if i == 54 {
        word_lo_s(f32_bits_s(d.isolation_resistance_mohm as int))
    } else if i == 57 {
        word_hi_s(f32_bits_s(d.daily_energy_kwh as int))
    } else if i == 58 {
        word_lo_s(f32_bits_s(d.daily_energy_kwh as int))
    } else if i == 59 {
        word_hi_s(f32_bits_s(d.monthly_energy_kwh as int))
    } else if i == 60 {
        word_lo_s(f32_bits_s(d.monthly_energy_kwh as int))
    } else if i == 61 {
        word_hi_s(f32_bits_s(d.total_energy_kwh as int))
    } else if i == 62 {
        word_lo_s(f32_bits_s(d.total_energy_kwh as int))
    } else {
        0
    }
}

/// The word at one offset of a plant's block.
pub fn block_word(d: &PlantData, i: usize) -> (w: u16)
    requires
        wf_block_fields(*d),
    ensures
        w as int == block_word_s(*d, i as int),
{
    if i == 10 {
        d.status
    } else if i == 55 {
        d.fault_code
    } else if i == 56 {
        (d.alarm_flags % 65536) as u16
    } else if i == 0 {
        split_words(f32_bits_from_micro(d.power_kw)).0
    } else if i == 1 {
        split_words(f32_bits_from_micro(d.power_kw)).1
    } else if i == 2 {
        split_words(f32_bits_from_micro(d.voltage_l1_v)).0
    } else if i == 3 {
        split_words(f32_bits_from_micro(d.voltage_l1_v)).1
    } else if i == 4 {
        split_words(f32_bits_from_micro(d.current_l1_a)).0
    } else if i == 5 {
        split_words(f32_bits_from_micro(d.current_l1_a)).1
    } else if i == 6 {
        split_words(f32_bits_from_micro(d.frequency_hz)).0
    } else if i == 7 {
        split_words(f32_bits_from_micro(d.frequency_hz)).1
    } else if i == 8 {
        split_words(f32_bits_from_micro(d.temperature_c)).0
    } else if i == 9 {
        split_words(f32_bits_from_micro(d.temperature_c)).1
    } else if i == 11 {
        split_words(f32_bits_from_micro(d.voltage_l2_v)).0
    } else if i == 12 {
        split_words(f32_bits_from_micro(d.voltage_l2_v)).1
    } else if i == 13 {
        split_words(f32_bits_from_micro(d.voltage_l3_v)).0
    } else if i == 14 {
        split_words(f32_bits_from_micro(d.voltage_l3_v)).1
    } else if i == 15 {
        split_words(f32_bits_from_micro(d.current_l2_a)).0
    } else if i == 16 {
        split_words(f32_bits_from_micro(d.current_l2_a)).1
    } else if i == 17 {
        split_words(f32_bits_from_micro(d.current_l3_a)).0
    } else if i == 18 {
        split_words(f32_bits_from_micro(d.current_l3_a)).1
    } else if i == 19 {
        split_words(f32_bits_from_micro(d.reactive_power_kvar)).0
    } else if i == 20 {
        split_words(f32_bits_from_micro(d.reactive_power_kvar)).1
    } else if i == 21 {
        split_words(f32_bits_from_micro(d.apparent_power_kva)).0
    } else if i == 22 {
        split_words(f32_bits_from_micro(d.apparent_power_kva)).1
    } else if i == 23 {
        split_words(f32_bits_from_micro(d.power_factor)).0
    } else if i == 24 {
        split_words(f32_bits_from_micro(d.power_factor)).1
    } else if i == 25 {
        split_words(f32_bits_from_micro(d.rocof_hz_s)).0
    } else if i == 26 {
        split_words(f32_bits_from_micro(d.rocof_hz_s)).1
    } else if i == 27 {
        split_words(f32_bits_from_micro(d.dc_voltage_v)).0
    } else if i == 28 {
        split_words(f32_bits_from_micro(d.dc_voltage_v)).1
    } else if i == 29 {
        split_words(f32_bits_from_micro(d.dc_current_a)).0
    } else if i == 30 {
        split_words(f32_bits_from_micro(d.dc_current_a)).1
    } else if i == 31 {
        split_words(f32_bits_from_micro(d.dc_power_kw)).0
    } else if i == 32 {
        split_words(f32_bits_from_micro(d.dc_power_kw)).1
    } else if i == 33 {
        split_words(f32_bits_from_micro(d.mppt_voltage_v)).0
    } else if i == 34 {
        split_words(f32_bits_from_micro(d.mppt_voltage_v)).1
    } else if i == 35 {
        split_words(f32_bits_from_micro(d.mppt_current_a)).0
    } else if i == 36 {
        split_words(f32_bits_from_micro(d.mppt_current_a)).1
    } else if i == 37 {
        split_words(f32_bits_from_micro(d.inverter_temp_c)).0
    } else if i == 38 {
        split_words(f32_bits_from_micro(d.inverter_temp_c)).1
    } else if i == 39 {
        split_words(f32_bits_from_micro(d.ambient_temp_c)).0
    } else if i == 40 {
        split_words(f32_bits_from_micro(d.ambient_temp_c)).1
    } else if i == 41 {
        split_words(f32_bits_from_micro(d.efficiency_percent)).0
    } else if i == 42 {
        split_words(f32_bits_from_micro(d.efficiency_percent)).1
    } else if i == 43 {
        split_words(f32_bits_from_micro(d.poa_irradiance_w_m2)).0
    } else if i == 44 {
        split_words(f32_bits_from_micro(d.poa_irradiance_w_m2)).1
    } else if i == 45 {
        split_words(f32_bits_from_micro(d.solar_elevation_deg)).0
    } else if i == 46 {
        split_words(f32_bits_from_micro(d.solar_elevation_deg)).1
    } else if i == 47 {
        split_words(f32_bits_from_micro(d.performance_ratio)).0
    } else if i == 48 {
        split_words(f32_bits_from_micro(d.performance_ratio)).1
    } else if i == 49 {
        split_words(f32_bits_from_micro(d.specific_yield_kwh_kwp)).0
    } else if i == 50 {
        split_words(f32_bits_from_micro(d.specific_yield_kwh_kwp)).1
    } else if i == 51 {
        split_words(f32_bits_from_micro(d.capacity_factor_percent)).0
    } else if i == 52 {
        split_words(f32_bits_from_micro(d.capacity_factor_percent)).1
    } else if i == 53 {
        split_words(f32_bits_from_micro(d.isolation_resistance_mohm)).0
    } else if i == 54 {
        split_words(f32_bits_from_micro(d.isolation_resistance_mohm)).1
    } else if i == 57 {
        split_words(f32_bits_from_micro(d.daily_energy_kwh)).0
    } else if i == 58 {
        split_words(f32_bits_from_micro(d.daily_energy_kwh)).1
    } else if i == 59 {
        split_words(f32_bits_from_micro(d.monthly_energy_kwh)).0
    } else if i == 60 {
        split_words(f32_bits_from_micro(d.monthly_energy_kwh)).1
    } else if i == 61 {
        split_words(f32_bits_from_micro(d.total_energy_kwh)).0
    } else if i == 62 {
        split_words(f32_bits_from_micro(d.total_energy_kwh)).1
    } else {
        0
    }
}

/// The fields the register map reads must be in the arithmetic range so
/// their float encoding is defined.
pub open spec fn wf_block_fields(d: PlantData) -> bool {
    &&& crate::fp::in_range(d.power_kw as int)
    &&& crate::fp::in_range(d.voltage_l1_v as int)
    &&& crate::fp::in_range(d.current_l1_a as int)
    &&& crate::fp::in_range(d.frequency_hz as int)
    &&& crate::fp::in_range(d.temperature_c as int)
    &&& crate::fp::in_range(d.voltage_l2_v as int)
    &&& crate::fp::in_range(d.voltage_l3_v as int)
    &&& crate::fp::in_range(d.current_l2_a as int)
    &&& crate::fp::in_range(d.current_l3_a as int)
    &&& crate::fp::in_range(d.reactive_power_kvar as int)
    &&& crate::fp::in_range(d.apparent_power_kva as int)
    &&& crate::fp::in_range(d.power_factor as int)
    &&& crate::fp::in_range(d.rocof_hz_s as int)
    &&& crate::fp::in_range(d.dc_voltage_v as int)
    &&& crate::fp::in_range(d.dc_current_a as int)
    &&& crate::fp::in_range(d.dc_power_kw as int)
    &&& crate::fp::in_range(d.mppt_voltage_v as int)
    &&& crate::fp::in_range(d.mppt_current_a as int)
    &&& crate::fp::in_range(d.inverter_temp_c as int)
    &&& crate::fp::in_range(d.ambient_temp_c as int)
    &&& crate::fp::in_range(d.efficiency_percent as int)
    &&& crate::fp::in_range(d.poa_irradiance_w_m2 as int)
    &&& crate::fp::in_range(d.solar_elevation_deg as int)
    &&& crate::fp::in_range(d.performance_ratio as int)
    &&& crate::fp::in_range(d.specific_yield_kwh_kwp as int)
    &&& crate::fp::in_range(d.capacity_factor_percent as int)
    &&& crate::fp::in_range(d.isolation_resistance_mohm as int)
    &&& crate::fp::in_range(d.daily_energy_kwh as int)
    &&& crate::fp::in_range(d.monthly_energy_kwh as int)
    &&& crate::fp::in_range(d.total_energy_kwh as int)
}

/// Build the 100-register image of one plant record.
pub fn encode_block(d: &PlantData) -> (regs: Vec<u16>)
    requires
        wf_block_fields(*d),
    ensures
        regs@.len() == PLANT_BLOCK_SIZE as int,
        forall |i: int| 0 <= i < regs@.len() ==> (#[trigger] regs@[i]) as int == block_word_s(*d, i),
{
    let mut regs: Vec<u16> = Vec::new();
    let mut i: usize = 0;
    while i < 100
        invariant
            0 <= i <= 100,
            regs@.len() == i as int,
            wf_block_fields(*d),
            forall |m: int| 0 <= m < i ==> (#[trigger] regs@[m]) as int == block_word_s(*d, m),
        decreases 100 - i,
    {
        let w = block_word(d, i);
        regs.push(w);
        i = i + 1;
    }
    regs
}

/// One plant's register block at its configured base address.
pub struct PlantBlock {
    pub base: u16,
    pub regs: Vec<u16>,
}

/// Whether a block covers an absolute register address.
pub open spec fn covers_s(b: PlantBlock, a: int) -> bool {
    b.base as int <= a < b.base as int + b.regs@.len()
}

/// The word served at an absolute address: the first covering block's
/// word, or zero when no block is mapped there.
pub open spec fn served_word_s(blocks: Seq<PlantBlock>, a: int) -> int
    decreases blocks.len(),
{
    if blocks.len() == 0 {
        0
    } else if covers_s(blocks[0], a) {
        blocks[0].regs@[a - blocks[0].base as int] as int
    } else {
        served_word_s(blocks.drop_first(), a)
    }
}

/// An address no block covers is served as zero.
pub proof fn lemma_unmapped_reads_zero(blocks: Seq<PlantBlock>, a: int)
    requires
        forall |j: int| 0 <= j < blocks.len() ==> !covers_s(#[trigger] blocks[j], a),
    ensures
        served_word_s(blocks, a) == 0,
    decreases blocks.len(),
{
    if blocks.len() > 0 {
        assert(!covers_s(blocks[0], a));
        assert(forall |j: int|
            0 <= j < blocks.drop_first().len() ==> blocks.drop_first()[j] == blocks[j + 1]);
        lemma_unmapped_reads_zero(blocks.drop_first(), a);
    }
}

/// Serve a contiguous register read: each word comes from the covering
/// block, and out-of-map addresses read as zero.
pub fn read_registers(blocks: &Vec<PlantBlock>, addr: u16, count: u16) -> (out: Vec<u16>)
    ensures
        out@.len() == count as int,
        forall |i: int|
            0 <= i < count as int ==> (#[trigger] out@[i]) as int == served_word_s(
                blocks@,
                addr as int + i,
            ),
{
    let mut out: Vec<u16> = Vec::new();
    let mut i: usize = 0;
    let n = count as usize;
    while i < n
        invariant
            0 <= i <= n,
            n == count as int,
            out@.len() == i as int,
            forall |m: int|
                0 <= m < i ==> (#[trigger] out@[m]) as int == served_word_s(
                    blocks@,
                    addr as int + m,
                ),
        decreases n - i,
    {
        let a: u32 = addr as u32 + i as u32;
        let mut w: u16 = 0;
        let mut k: usize = 0;
        let nb = blocks.len();
        let mut found: bool = false;
        proof {
            assert(blocks@.skip(0) =~= blocks@);
        }
        while k < nb
            invariant
                0 <= k <= nb,
                nb == blocks@.len(),
                a as int == addr as int + i as int,
                !found ==> served_word_s(blocks@.skip(k as int), a as int) == served_word_s(
                    blocks@,
                    a as int,
                ),
                found ==> w as int == served_word_s(blocks@, a as int),
                !found ==> w == 0,
            decreases nb - k,
        {
            if !found {
                let b = &blocks[k];
                let blen = b.regs.len();
                if (b.base as u128) <= (a as u128) && (a as u128) < b.base as u128 + blen as u128 {
                    w = b.regs[(a - b.base as u32) as usize];
                    proof {
                        assert(blocks@.skip(k as int)[0] == blocks@[k as int]);
                        assert(covers_s(blocks@[k as int], a as int));
                        assert(served_word_s(blocks@.skip(k as int), a as int) == blocks@[
                        k as int].regs@[a as int - blocks@[k as int].base as int] as int);
                    }
                    found = true;
                } else {
                    proof {
                        assert(blocks@.skip(k as int)[0] == blocks@[k as int]);
                        assert(!covers_s(blocks@[k as int], a as int));
                        assert(blocks@.skip(k as int).drop_first() =~= blocks@.skip(k as int + 1));
                        assert(served_word_s(blocks@.skip(k as int), a as int) == served_word_s(
                            blocks@.skip(k as int + 1),
                            a as int,
                        ));
                    }
                }
            }
            k = k + 1;
        }
        if !found {
            proof {
                assert(blocks@.skip(nb as int) =~= Seq::<PlantBlock>::empty());
            }
        }
        out.push(w);
        i = i + 1;
    }
    out
}

/// Modbus exception for anything but the two read functions.
pub const EXC_ILLEGAL_FUNCTION: u8 = 1;

/// Decide one Modbus request: function codes 3 (read holding) and 4
/// (read input) serve the register image; everything else is refused
/// with an illegal-function exception.
pub fn handle_read(blocks: &Vec<PlantBlock>, function_code: u8, addr: u16, count: u16) -> (r:
    Result<Vec<u16>, u8>)
    ensures
        (function_code == 3 || function_code == 4) <==> r is Ok,
        r is Ok ==> r.unwrap()@.len() == count as int && (forall |i: int|
            0 <= i < count as int ==> (#[trigger] r.unwrap()@[i]) as int == served_word_s(
                blocks@,
                addr as int + i,
            )),
        r is Err ==> r.unwrap_err() == EXC_ILLEGAL_FUNCTION,
{
    if function_code == 3 || function_code == 4 {
        Ok(read_registers(blocks, addr, count))
    } else {
        Err(EXC_ILLEGAL_FUNCTION)
    }
}

} // verus!
