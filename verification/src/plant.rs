//! Per-plant inverter state engine.
//!
//! One tick consumes an estimator output and the previous record and
//! derives the full electrical, thermal and protection telemetry: MPPT
//! ramp with hysteresis, DC bus and string quantities, CEC-style inverter
//! efficiency, power factor and the apparent-power triangle, three-phase
//! voltage and grid frequency with epoch-keyed excursions, ROCOF against
//! the previous frequency sample, a first-order heatsink filter, isolation
//! and leakage, fan, THD and DC-injection models, the protection
//! conditions with their priority-ordered fault code and flag bits, and
//! the energy counters with their midnight reset.

use vstd::prelude::*;

use crate::fp::ONE;
use crate::fp::in_range;
use crate::fp::fadd_s;
use crate::fp::fsub_s;
use crate::fp::fmul_s;
use crate::fp::fdiv_s;
use crate::fp::fdivi_s;
use crate::fp::fscale_s;
use crate::fp::fmuldiv_s;
use crate::fp::fmax_s;
use crate::fp::fabs_s;
use crate::fp::fclamp_s;
use crate::fp::isqrt_s;
use crate::fp::fadd;
use crate::fp::fsub;
use crate::fp::fmul;
use crate::fp::fdiv;
use crate::fp::fdivi;
use crate::fp::fscale;
use crate::fp::fmuldiv;
use crate::fp::fmax;
use crate::fp::fabs;
use crate::fp::fclamp;
use crate::fp::isqrt;

verus! {

/// Inverter status words.
pub const STATUS_STOPPED: u16 = 0;

pub const STATUS_RUNNING: u16 = 1;

pub const STATUS_FAULT: u16 = 2;

pub const STATUS_CURTAILED: u16 = 3;

pub const STATUS_STARTING: u16 = 4;

pub const STATUS_MPPT: u16 = 5;

/// Protection thresholds, micro-units (EN 50160-style voltage and
/// frequency windows, IEC 62109 isolation floor).
pub const AC_OVERVOLT_LIMIT: i64 = 253_000_000;

pub const AC_UNDERVOLT_LIMIT: i64 = 207_000_000;

pub const OVERFREQ_LIMIT: i64 = 50_500_000;

pub const UNDERFREQ_LIMIT: i64 = 49_500_000;

pub const ISOLATION_LIMIT: i64 = 1_000_000;

pub const LEAKAGE_LIMIT: i64 = 30_000_000;

pub const OVERTEMP_LIMIT: i64 = 80_000_000;

pub const DC_OVERVOLT_LIMIT: i64 = 900_000_000;

pub const ROCOF_LIMIT: i64 = 150_000;

/// Complete inverter telemetry, micro-units throughout.
#[derive(Clone, Copy, Debug)]
pub struct PlantData {
    pub power_kw: i64,
    pub voltage_l1_v: i64,
    pub voltage_l2_v: i64,
    pub voltage_l3_v: i64,
    pub current_l1_a: i64,
    pub current_l2_a: i64,
    pub current_l3_a: i64,
    pub frequency_hz: i64,
    pub rocof_hz_s: i64,
    pub power_factor: i64,
    pub reactive_power_kvar: i64,
    pub apparent_power_kva: i64,
    pub ac_thd_percent: i64,
    pub dc_injection_ma: i64,
    pub dc_voltage_v: i64,
    pub dc_current_a: i64,
    pub dc_power_kw: i64,
    pub mppt_voltage_v: i64,
    pub mppt_current_a: i64,
    pub string1_voltage_v: i64,
    pub string1_current_a: i64,
    pub string2_voltage_v: i64,
    pub string2_current_a: i64,
    pub temperature_c: i64,
    pub inverter_temp_c: i64,
    pub ambient_temp_c: i64,
    pub inverter_fan_speed_rpm: i64,
    pub fan_fault_active: bool,
    pub efficiency_percent: i64,
    pub poa_irradiance_w_m2: i64,
    pub solar_elevation_deg: i64,
    pub cloud_factor: i64,
    pub wind_speed_m_s: i64,
    pub relative_humidity_pct: i64,
    pub soiling_factor: i64,
    pub isolation_resistance_mohm: i64,
    pub leakage_current_ma: i64,
    pub status: u16,
    pub fault_code: u16,
    pub alarm_flags: u32,
    pub weather_code: u16,
    pub is_day: bool,
    pub daily_energy_kwh: i64,
    pub monthly_energy_kwh: i64,
    pub total_energy_kwh: i64,
    pub co2_avoided_kg: i64,
    pub daily_peak_power_kw: i64,
    pub last_day_reset: u32,
    pub performance_ratio: i64,
    pub specific_yield_kwh_kwp: i64,
    pub capacity_factor_percent: i64,
    pub ramp_factor: i64,
}

/// A record the engine maintains: every analogue field in the arithmetic
/// range, the ramp in [0, 1], counters non-negative, the apparent power at
/// least the active power.
pub open spec fn wf_plant_s(d: PlantData) -> bool {
    &&& in_range(d.power_kw as int)
    &&& in_range(d.frequency_hz as int)
    &&& in_range(d.voltage_l1_v as int)
    &&& in_range(d.voltage_l2_v as int)
    &&& in_range(d.voltage_l3_v as int)
    &&& in_range(d.rocof_hz_s as int)
    &&& in_range(d.current_l1_a as int)
    &&& in_range(d.current_l2_a as int)
    &&& in_range(d.current_l3_a as int)
    &&& in_range(d.power_factor as int)
    &&& in_range(d.reactive_power_kvar as int)
    &&& in_range(d.apparent_power_kva as int)
    &&& in_range(d.ac_thd_percent as int)
    &&& in_range(d.dc_injection_ma as int)
    &&& in_range(d.dc_voltage_v as int)
    &&& in_range(d.dc_current_a as int)
    &&& in_range(d.dc_power_kw as int)
    &&& in_range(d.mppt_voltage_v as int)
    &&& in_range(d.mppt_current_a as int)
    &&& in_range(d.string1_voltage_v as int)
    &&& in_range(d.string1_current_a as int)
    &&& in_range(d.string2_voltage_v as int)
    &&& in_range(d.string2_current_a as int)
    &&& in_range(d.temperature_c as int)
    &&& in_range(d.inverter_temp_c as int)
    &&& in_range(d.ambient_temp_c as int)
    &&& in_range(d.inverter_fan_speed_rpm as int)
    &&& in_range(d.efficiency_percent as int)
    &&& in_range(d.poa_irradiance_w_m2 as int)
    &&& in_range(d.solar_elevation_deg as int)
    &&& in_range(d.cloud_factor as int)
    &&& in_range(d.wind_speed_m_s as int)
    &&& in_range(d.relative_humidity_pct as int)
    &&& in_range(d.soiling_factor as int)
    &&& in_range(d.isolation_resistance_mohm as int)
    &&& in_range(d.leakage_current_ma as int)
    &&& in_range(d.daily_energy_kwh as int)
    &&& in_range(d.monthly_energy_kwh as int)
    &&& in_range(d.total_energy_kwh as int)
    &&& in_range(d.co2_avoided_kg as int)
    &&& in_range(d.daily_peak_power_kw as int)
    &&& in_range(d.performance_ratio as int)
    &&& in_range(d.specific_yield_kwh_kwp as int)
    &&& in_range(d.capacity_factor_percent as int)
    &&& in_range(d.ramp_factor as int)
    &&& 0 <= d.ramp_factor <= ONE
    &&& 0 <= d.power_kw
    &&& 0 <= d.daily_energy_kwh
    &&& 0 <= d.monthly_energy_kwh
    &&& 0 <= d.total_energy_kwh
    &&& 0 <= d.co2_avoided_kg
    &&& 0 <= d.daily_peak_power_kw
    &&& d.power_kw <= d.apparent_power_kva
    &&& 0 <= d.reactive_power_kvar <= d.apparent_power_kva
    &&& in_range(d.apparent_power_kva as int)
    &&& d.last_day_reset <= 366
    &&& d.status <= 5
}

/// The freshly created record, field by field: no production, grid-nominal
/// 230 V phases at 50 Hz, unity power factor, 600 V DC bus and trackers,
/// 25 C cell and 20 C ambient, 10 MOhm isolation, zeroed currents,
/// counters and KPIs.
pub open spec fn default_plant_s() -> PlantData {
    PlantData {
        power_kw: 0i64,
        voltage_l1_v: 230_000_000i64,
        voltage_l2_v: 230_000_000i64,
        voltage_l3_v: 230_000_000i64,
        current_l1_a: 0i64,
        current_l2_a: 0i64,
        current_l3_a: 0i64,
        frequency_hz: 50_000_000i64,
        rocof_hz_s: 0i64,
        power_factor: 1_000_000i64,
        reactive_power_kvar: 0i64,
        apparent_power_kva: 0i64,
        ac_thd_percent: 0i64,
        dc_injection_ma: 0i64,
        dc_voltage_v: 600_000_000i64,
        dc_current_a: 0i64,
        dc_power_kw: 0i64,
        mppt_voltage_v: 600_000_000i64,
        mppt_current_a: 0i64,
        string1_voltage_v: 600_000_000i64,
        string1_current_a: 0i64,
        string2_voltage_v: 600_000_000i64,
        string2_current_a: 0i64,
        temperature_c: 25_000_000i64,
        inverter_temp_c: 35_000_000i64,
        ambient_temp_c: 20_000_000i64,
        inverter_fan_speed_rpm: 0i64,
        fan_fault_active: false,
        efficiency_percent: 0i64,
        poa_irradiance_w_m2: 0i64,
        solar_elevation_deg: 0i64,
        cloud_factor: 1_000_000i64,
        wind_speed_m_s: 0i64,
        relative_humidity_pct: 50_000_000i64,
        soiling_factor: 1_000_000i64,
        isolation_resistance_mohm: 10_000_000i64,
        leakage_current_ma: 50_000i64,
        status: 0u16,
        fault_code: 0u16,
        alarm_flags: 0u32,
        weather_code: 0u16,
        is_day: false,
        daily_energy_kwh: 0i64,
        monthly_energy_kwh: 0i64,
        total_energy_kwh: 0i64,
        co2_avoided_kg: 0i64,
        daily_peak_power_kw: 0i64,
        last_day_reset: 0u32,
        performance_ratio: 0i64,
        specific_yield_kwh_kwp: 0i64,
        capacity_factor_percent: 0i64,
        ramp_factor: 0i64,
    }
}

impl Default for PlantData {
    /// A freshly created record, exactly the documented defaults.
    fn default() -> (d: PlantData)
        ensures
            d == default_plant_s(),
            wf_plant_s(d),
            d.ramp_factor == 0,
            d.daily_energy_kwh == 0,
            d.monthly_energy_kwh == 0,
            d.total_energy_kwh == 0,
            d.daily_peak_power_kw == 0,
            d.last_day_reset == 0,
            d.status == STATUS_STOPPED,
            d.fault_code == 0,
            d.alarm_flags == 0,
            d.power_kw == 0,
    {
        PlantData {
            power_kw: 0,
            voltage_l1_v: 230_000_000,
            voltage_l2_v: 230_000_000,
            voltage_l3_v: 230_000_000,
            current_l1_a: 0,
            current_l2_a: 0,
            current_l3_a: 0,
            frequency_hz: 50_000_000,
            rocof_hz_s: 0,
            power_factor: ONE,
            reactive_power_kvar: 0,
            apparent_power_kva: 0,
            ac_thd_percent: 0,
            dc_injection_ma: 0,
            dc_voltage_v: 600_000_000,
            dc_current_a: 0,
            dc_power_kw: 0,
            mppt_voltage_v: 600_000_000,
            mppt_current_a: 0,
            string1_voltage_v: 600_000_000,
            string1_current_a: 0,
            string2_voltage_v: 600_000_000,
            string2_current_a: 0,
            temperature_c: 25_000_000,
            inverter_temp_c: 35_000_000,
            ambient_temp_c: 20_000_000,
            inverter_fan_speed_rpm: 0,
            fan_fault_active: false,
            efficiency_percent: 0,
            poa_irradiance_w_m2: 0,
            solar_elevation_deg: 0,
            cloud_factor: ONE,
            wind_speed_m_s: 0,
            relative_humidity_pct: 50_000_000,
            soiling_factor: ONE,
            isolation_resistance_mohm: 10_000_000,
            leakage_current_ma: 50_000,
            status: STATUS_STOPPED,
            fault_code: 0,
            alarm_flags: 0,
            weather_code: 0,
            is_day: false,
            daily_energy_kwh: 0,
            monthly_energy_kwh: 0,
            total_energy_kwh: 0,
            co2_avoided_kg: 0,
            daily_peak_power_kw: 0,
            last_day_reset: 0,
            performance_ratio: 0,
            specific_yield_kwh_kwp: 0,
            capacity_factor_percent: 0,
            ramp_factor: 0,
        }
    }
}

/// MPPT ramp with hysteresis: full target above 30 W/m2 in daylight, zero
/// target below 15 W/m2, hold in between; the ramp moves 8 percent of the
/// remaining distance per tick.
pub open spec fn ramp_next_s(prev_ramp: int, poa: int, is_day: bool) -> int {
    let target = if poa >= 30_000_000 && is_day {
        ONE as int
    } else if poa < 15_000_000 {
        0int
    } else {
        prev_ramp
    };
    fclamp_s(fadd_s(prev_ramp, fmuldiv_s(8, fsub_s(target, prev_ramp), 100)), 0, ONE as int)
}

/// One ramp step; the ramp stays in [0, 1] and never moves more than 0.08
/// in a single tick.
pub fn ramp_next(prev_ramp: i64, poa: i64, is_day: bool) -> (r: i64)
    requires
        0 <= prev_ramp <= ONE,
        in_range(poa as int),
    ensures
        r == ramp_next_s(prev_ramp as int, poa as int, is_day),
        0 <= r <= ONE,
        fabs_s(r as int - prev_ramp as int) <= 80_000,
{
    let target: i64 = if poa >= 30_000_000 && is_day {
        ONE
    } else if poa < 15_000_000 {
        0
    } else {
        prev_ramp
    };
    let step = fmuldiv(8, fsub(target, prev_ramp), 100);
    proof {
        let d = fsub_s(target as int, prev_ramp as int);
        if 8 * d >= 0 {
            vstd::arithmetic::div_mod::lemma_div_is_ordered(8 * d, 8_000_000, 100);
        } else {
            vstd::arithmetic::div_mod::lemma_div_is_ordered(-(8 * d), 8_000_000, 100);
        }
    }
    fclamp(fadd(prev_ramp, step), 0, ONE)
}

/// CEC-style piecewise inverter efficiency on the load factor, derated by
/// cell temperature above 25 C and clamped to [0, 0.999].
pub open spec fn efficiency_s(load: int, cell: int) -> int {
    let base = if load < 10_000 {
        0int
    } else if load < 100_000 {
        fadd_s(800_000, fmuldiv_s(155, load, 100))
    } else if load < 500_000 {
        fadd_s(955_000, fmuldiv_s(625, fsub_s(load, 100_000), 10_000))
    } else {
        fsub_s(980_000, fmuldiv_s(16, fsub_s(load, 500_000), 1_000))
    };
    fclamp_s(fsub_s(base, fmuldiv_s(4, fmax_s(fsub_s(cell, 25_000_000), 0), 10_000)), 0, 999_000)
}

pub fn efficiency(load: i64, cell: i64) -> (e: i64)
    requires
        in_range(load as int),
        in_range(cell as int),
    ensures
        e == efficiency_s(load as int, cell as int),
        0 <= e <= 999_000,
{
    let base: i64 = if load < 10_000 {
        0
    } else if load < 100_000 {
        fadd(800_000, fmuldiv(155, load, 100))
    } else if load < 500_000 {
        fadd(955_000, fmuldiv(625, fsub(load, 100_000), 10_000))
    } else {
        fsub(980_000, fmuldiv(16, fsub(load, 500_000), 1_000))
    };
    fclamp(fsub(base, fmuldiv(4, fmax(fsub(cell, 25_000_000), 0), 10_000)), 0, 999_000)
}

/// Power factor: 0.96 + 0.04 (1 - e^(-12 L)) + 0.004 sin(11.7 P), clamped
/// to [0.8, 1]; unity below 0.01 kW.
pub open spec fn power_factor_s(p_ac: int, load: int) -> int {
    if p_ac < 10_000 {
        ONE as int
    } else {
        let settle = fmuldiv_s(
            40_000,
            fsub_s(ONE as int, crate::explog::exp_s(fscale_s(-12, load))),
            ONE as int,
        );
        let jitter = fmuldiv_s(4, crate::trig::sin_s(fmuldiv_s(117, p_ac, 10)), 1_000);
        fclamp_s(fadd_s(fadd_s(960_000, settle), jitter), 800_000, ONE as int)
    }
}

pub fn power_factor_of(p_ac: i64, load: i64) -> (pf: i64)
    requires
        in_range(p_ac as int),
        in_range(load as int),
    ensures
        pf == power_factor_s(p_ac as int, load as int),
        800_000 <= pf <= ONE,
{
    if p_ac < 10_000 {
        ONE
    } else {
        let settle = fmuldiv(
            40_000,
            fsub(ONE, crate::explog::exp_fp(fscale(-12, load))),
            ONE,
        );
        let jitter = fmuldiv(4, crate::trig::sin_fp(fmuldiv(117, p_ac, 10)), 1_000);
        fclamp(fadd(fadd(960_000, settle), jitter), 800_000, ONE)
    }
}

/// Nearest-integer square root.
pub open spec fn isqrt_near_s(n: int) -> int {
    let r0 = isqrt_s(n);
    if n - r0 * r0 > r0 {
        r0 + 1
    } else {
        r0
    }
}

/// Apparent power S = P / pf and reactive power Q = sqrt(S^2 - P^2).
pub open spec fn apparent_reactive_s(p_ac: int, pf: int) -> (int, int) {
    let s = fdiv_s(p_ac, pf);
    let q = if s > p_ac {
        isqrt_near_s(s * s - p_ac * p_ac)
    } else {
        0int
    };
    (s, q)
}

/// Apparent and reactive power from active power and power factor.  The
/// triangle closes to within one least-significant unit: the gap between
/// S^2 and P^2 + Q^2 is at most S micro-units squared.
pub fn apparent_reactive(p_ac: i64, pf: i64) -> (r: (i64, i64))
    requires
        0 <= p_ac <= 200_000_000_000,
        800_000 <= pf <= ONE,
    ensures
        (r.0 as int, r.1 as int) == apparent_reactive_s(p_ac as int, pf as int),
        p_ac <= r.0,
        0 <= r.1 <= r.0,
        r.0 <= 250_000_000_000,
        fabs_s((r.0 as int) * (r.0 as int) - ((p_ac as int) * (p_ac as int) + (r.1 as int) * (
        r.1 as int))) <= r.0 as int,
{
    let s = fdiv(p_ac, pf);
    proof {
        vstd::arithmetic::div_mod::lemma_div_is_ordered_by_denominator(
            (p_ac as int) * (ONE as int),
            pf as int,
            ONE as int,
        );
        vstd::arithmetic::div_mod::lemma_div_is_ordered_by_denominator(
            (p_ac as int) * (ONE as int),
            800_000,
            pf as int,
        );
        vstd::arithmetic::div_mod::lemma_div_multiples_vanish(p_ac as int, ONE as int);
        assert((p_ac as int) * (ONE as int) == (ONE as int) * (p_ac as int))
            by (nonlinear_arith);
        vstd::arithmetic::div_mod::lemma_div_is_ordered(
            (p_ac as int) * (ONE as int),
            200_000_000_000int * 1_000_000,
            800_000,
        );
        assert((p_ac as int) * (ONE as int) <= 200_000_000_000int * 1_000_000)
            by (nonlinear_arith)
            requires
                0 <= p_ac as int,
                p_ac as int <= 200_000_000_000,
        ;
        vstd::arithmetic::div_mod::lemma_div_pos_is_pos((p_ac as int) * (ONE as int), pf as int);
        assert((p_ac as int) * (ONE as int) >= 0) by (nonlinear_arith)
            requires
                0 <= p_ac as int,
        ;
    }
    if s > p_ac {
        proof {
            assert((s as int) * (s as int) - (p_ac as int) * (p_ac as int) >= 0)
                by (nonlinear_arith)
                requires
                    0 <= p_ac as int,
                    (p_ac as int) < (s as int),
            ;
            assert((s as int) * (s as int) < 0x4000000000000000000000) by (nonlinear_arith)
                requires
                    0 <= s as int,
                    s as int <= 250_000_000_000,
            ;
        }
        let ss: i128 = (s as i128) * (s as i128);
        let pp: i128 = (p_ac as i128) * (p_ac as i128);
        let diff: u128 = (ss - pp) as u128;
        let r0 = isqrt(diff);
        let rr: u128 = (r0 as u128) * (r0 as u128);
        let q64: u64 = if diff - rr > r0 as u128 {
            r0 + 1
        } else {
            r0
        };
        proof {
            let sn = s as int;
            let pn = p_ac as int;
            let d = sn * sn - pn * pn;
            let r0n = r0 as int;
            let qn = q64 as int;
            assert(r0n * r0n <= d < (r0n + 1) * (r0n + 1));
            if d - r0n * r0n > r0n {
                assert(qn == r0n + 1);
                assert(fabs_s(d - qn * qn) <= qn) by (nonlinear_arith)
                    requires
                        qn == r0n + 1,
                        r0n >= 0,
                        d - r0n * r0n > r0n,
                        d < (r0n + 1) * (r0n + 1),
                ;
            } else {
                assert(fabs_s(d - qn * qn) <= qn) by (nonlinear_arith)
                    requires
                        qn == r0n,
                        r0n >= 0,
                        d - r0n * r0n <= r0n,
                        r0n * r0n <= d,
                ;
            }
            assert(qn <= sn) by (nonlinear_arith)
                requires
                    0 <= r0n,
                    0 <= pn,
                    pn < sn,
                    r0n * r0n <= sn * sn - pn * pn,
                    d == sn * sn - pn * pn,
                    qn == (if d - r0n * r0n > r0n {
                        r0n + 1
                    } else {
                        r0n
                    }),
                    d < (r0n + 1) * (r0n + 1),
            ;
        }
        let q: i64 = q64 as i64;
        (s, q)
    } else {
        proof {
            assert(s == p_ac);
            assert((s as int) * (s as int) == (p_ac as int) * (p_ac as int));
        }
        (s, 0)
    }
}

/// Mixing multiplier for every engine noise channel.
pub const GRID_MIX: u64 = 0x2545f4914f6cdd1d;

/// One deterministic noise draw keyed to the plant's coordinates and a
/// time-window index.
pub open spec fn grid_noise_s(lat: int, lon: int, c1: int, c2: int, key: int, c3: int) -> int {
    crate::noise::noise_unit_s(
        crate::noise::seed3_s(lat, c1, lon, c2, key, c3),
        GRID_MIX as int,
    )
}

pub fn grid_noise(lat: i64, lon: i64, c1: u64, c2: u64, key: i64, c3: u64) -> (r: i64)
    ensures
        r == grid_noise_s(lat as int, lon as int, c1 as int, c2 as int, key as int, c3 as int),
        -500_000 <= r <= 500_000,
{
    crate::noise::noise_unit(crate::noise::seed3(lat, c1, lon, c2, key, c3), GRID_MIX)
}

/// A noise draw shifted into [0, 1), used as a per-epoch event dice.
pub open spec fn event_dice_s(lat: int, lon: int, c1: int, c2: int, key: int, c3: int) -> int {
    fadd_s(grid_noise_s(lat, lon, c1, c2, key, c3), 500_000)
}

pub fn event_dice(lat: i64, lon: i64, c1: u64, c2: u64, key: i64, c3: u64) -> (r: i64)
    ensures
        r == event_dice_s(lat as int, lon as int, c1 as int, c2 as int, key as int, c3 as int),
        0 <= r <= 1_000_000,
{
    fadd(grid_noise(lat, lon, c1, c2, key, c3), 500_000)
}

/// Time-window index: whole windows of d seconds since the epoch.
pub fn epoch_of(unix: i64, d: u64) -> (r: i64)
    requires
        0 <= unix,
        0 < d,
    ensures
        r == (unix as int) / (d as int),
        0 <= r <= unix,
{
    proof {
        vstd::arithmetic::div_mod::lemma_div_nonincreasing(unix as int, d as int);
        vstd::arithmetic::div_mod::lemma_div_pos_is_pos(unix as int, d as int);
    }
    ((unix as u64) / d) as i64
}

/// First protection code that fires, in the documented priority order:
/// AC voltage, frequency, isolation, ground leakage, overtemperature,
/// fan, DC overvoltage, ROCOF; zero when the grid is healthy.
pub open spec fn fault_code_s(
    v_avg: int,
    freq: int,
    rocof: int,
    iso: int,
    leak: int,
    t_hs: int,
    fan_fault: bool,
    dc_v: int,
) -> int {
    if v_avg > AC_OVERVOLT_LIMIT as int {
        101
    } else if v_avg < AC_UNDERVOLT_LIMIT as int {
        102
    } else if freq > OVERFREQ_LIMIT as int {
        103
    } else if freq < UNDERFREQ_LIMIT as int {
        104
    } else if iso < ISOLATION_LIMIT as int {
        301
    } else if leak > LEAKAGE_LIMIT as int {
        302
    } else if t_hs > OVERTEMP_LIMIT as int {
        401
    } else if fan_fault {
        402
    } else if dc_v > DC_OVERVOLT_LIMIT as int {
        201
    } else if fabs_s(rocof) > ROCOF_LIMIT as int {
        105
    } else {
        0
    }
}

/// Alarm flag word: one bit per flagged condition (overvoltage,
/// undervoltage, frequency, isolation, overtemperature).
pub open spec fn alarm_flags_s(
    v_avg: int,
    freq: int,
    iso: int,
    t_hs: int,
) -> int {
    (if v_avg > AC_OVERVOLT_LIMIT as int {
        1int
    } else {
        0int
    }) + (if v_avg < AC_UNDERVOLT_LIMIT as int {
        2int
    } else {
        0int
    }) + (if freq > OVERFREQ_LIMIT as int || freq < UNDERFREQ_LIMIT as int {
        4int
    } else {
        0int
    }) + (if iso < ISOLATION_LIMIT as int {
        8int
    } else {
        0int
    }) + (if t_hs > OVERTEMP_LIMIT as int {
        16int
    } else {
        0int
    })
}

/// The protection codes that fire, in priority order.
pub open spec fn conditions_s(
    v_avg: int,
    freq: int,
    rocof: int,
    iso: int,
    leak: int,
    t_hs: int,
    fan_fault: bool,
    dc_v: int,
) -> Seq<u16> {
    let s0 = Seq::<u16>::empty();
    let s1 = if v_avg > AC_OVERVOLT_LIMIT as int {
        s0.push(101)
    } else {
        s0
    };
    let s2 = if v_avg < AC_UNDERVOLT_LIMIT as int {
        s1.push(102)
    } else {
        s1
    };
    let s3 = if freq > OVERFREQ_LIMIT as int {
        s2.push(103)
    } else {
        s2
    };
    let s4 = if freq < UNDERFREQ_LIMIT as int {
        s3.push(104)
    } else {
        s3
    };
    let s5 = if iso < ISOLATION_LIMIT as int {
        s4.push(301)
    } else {
        s4
    };
    let s6 = if leak > LEAKAGE_LIMIT as int {
        s5.push(302)
    } else {
        s5
    };
    let s7 = if t_hs > OVERTEMP_LIMIT as int {
        s6.push(401)
    } else {
        s6
    };
    let s8 = if fan_fault {
        s7.push(402)
    } else {
        s7
    };
    let s9 = if dc_v > DC_OVERVOLT_LIMIT as int {
        s8.push(201)
    } else {
        s8
    };
    if fabs_s(rocof) > ROCOF_LIMIT as int {
        s9.push(105)
    } else {
        s9
    }
}

/// A non-zero flag word always comes with a non-zero fault code, and the
/// fault code is zero exactly when no condition fires.
pub proof fn lemma_fault_flag_coherence(
    v_avg: int,
    freq: int,
    rocof: int,
    iso: int,
    leak: int,
    t_hs: int,
    fan_fault: bool,
    dc_v: int,
)
    ensures
        alarm_flags_s(v_avg, freq, iso, t_hs) != 0 ==> fault_code_s(
            v_avg,
            freq,
            rocof,
            iso,
            leak,
            t_hs,
            fan_fault,
            dc_v,
        ) != 0,
        fault_code_s(v_avg, freq, rocof, iso, leak, t_hs, fan_fault, dc_v) == 0
            <==> conditions_s(v_avg, freq, rocof, iso, leak, t_hs, fan_fault, dc_v).len() == 0,
{
}

/// Evaluate the protection conditions.
pub fn alarm_conditions(
    v_avg: i64,
    freq: i64,
    rocof: i64,
    iso: i64,
    leak: i64,
    t_hs: i64,
    fan_fault: bool,
    dc_v: i64,
) -> (v: Vec<u16>)
    requires
        in_range(rocof as int),
    ensures
        v@ == conditions_s(
            v_avg as int,
            freq as int,
            rocof as int,
            iso as int,
            leak as int,
            t_hs as int,
            fan_fault,
            dc_v as int,
        ),
{
    let mut v: Vec<u16> = Vec::new();
    if v_avg > AC_OVERVOLT_LIMIT {
        v.push(101);
    }
    if v_avg < AC_UNDERVOLT_LIMIT {
        v.push(102);
    }
    if freq > OVERFREQ_LIMIT {
        v.push(103);
    }
    if freq < UNDERFREQ_LIMIT {
        v.push(104);
    }
    if iso < ISOLATION_LIMIT {
        v.push(301);
    }
    if leak > LEAKAGE_LIMIT {
        v.push(302);
    }
    if t_hs > OVERTEMP_LIMIT {
        v.push(401);
    }
    if fan_fault {
        v.push(402);
    }
    if dc_v > DC_OVERVOLT_LIMIT {
        v.push(201);
    }
    if fabs(rocof) > ROCOF_LIMIT {
        v.push(105);
    }
    v
}

pub fn fault_code_of(
    v_avg: i64,
    freq: i64,
    rocof: i64,
    iso: i64,
    leak: i64,
    t_hs: i64,
    fan_fault: bool,
    dc_v: i64,
) -> (c: u16)
    requires
        in_range(rocof as int),
    ensures
        c as int == fault_code_s(
            v_avg as int,
            freq as int,
            rocof as int,
            iso as int,
            leak as int,
            t_hs as int,
            fan_fault,
            dc_v as int,
        ),
{
    if v_avg > AC_OVERVOLT_LIMIT {
        101
    } else if v_avg < AC_UNDERVOLT_LIMIT {
        102
    } else if freq > OVERFREQ_LIMIT {
        103
    } else if freq < UNDERFREQ_LIMIT {
        104
    } else if iso < ISOLATION_LIMIT {
        301
    } else if leak > LEAKAGE_LIMIT {
        302
    } else if t_hs > OVERTEMP_LIMIT {
        401
    } else if fan_fault {
        402
    } else if dc_v > DC_OVERVOLT_LIMIT {
        201
    } else if fabs(rocof) > ROCOF_LIMIT {
        105
    } else {
        0
    }
}

pub fn alarm_flags_of(v_avg: i64, freq: i64, iso: i64, t_hs: i64) -> (f: u32)
    ensures
        f as int == alarm_flags_s(v_avg as int, freq as int, iso as int, t_hs as int),
{
    let b0: u32 = if v_avg > AC_OVERVOLT_LIMIT {
        1
    } else {
        0
    };
    let b1: u32 = if v_avg < AC_UNDERVOLT_LIMIT {
        2
    } else {
        0
    };
    let b2: u32 = if freq > OVERFREQ_LIMIT || freq < UNDERFREQ_LIMIT {
        4
    } else {
        0
    };
    let b3: u32 = if iso < ISOLATION_LIMIT {
        8
    } else {
        0
    };
    let b4: u32 = if t_hs > OVERTEMP_LIMIT {
        16
    } else {
        0
    };
    b0 + b1 + b2 + b3 + b4
}

/// Average of a record's three phase voltages.
pub open spec fn record_v_avg_s(d: PlantData) -> int {
    fdivi_s(
        fadd_s(fadd_s(d.voltage_l1_v as int, d.voltage_l2_v as int), d.voltage_l3_v as int),
        3,
    )
}

/// The protection codes a record shows, in priority order.
pub open spec fn record_conditions_s(d: PlantData) -> Seq<u16> {
    conditions_s(
        record_v_avg_s(d),
        d.frequency_hz as int,
        d.rocof_hz_s as int,
        d.isolation_resistance_mohm as int,
        d.leakage_current_ma as int,
        d.inverter_temp_c as int,
        d.fan_fault_active,
        d.dc_voltage_v as int,
    )
}

/// The ten codes the protection conditions can produce.
pub open spec fn is_monitored_code_s(c: u16) -> bool {
    ||| c == 101
    ||| c == 102
    ||| c == 103
    ||| c == 104
    ||| c == 301
    ||| c == 302
    ||| c == 401
    ||| c == 402
    ||| c == 201
    ||| c == 105
}

/// Every code the condition evaluation produces is one of the ten
/// monitored codes.
pub proof fn lemma_conditions_monitored(
    v_avg: int,
    freq: int,
    rocof: int,
    iso: int,
    leak: int,
    t_hs: int,
    fan_fault: bool,
    dc_v: int,
)
    ensures
        forall |k: int|
            0 <= k < conditions_s(v_avg, freq, rocof, iso, leak, t_hs, fan_fault, dc_v).len()
                ==> is_monitored_code_s(
                #[trigger] conditions_s(v_avg, freq, rocof, iso, leak, t_hs, fan_fault, dc_v)[k],
            ),
{
}

/// Status selection, in order: fault, stopped, starting, curtailed,
/// running, tracking, dawn start, stopped.
pub open spec fn status_s(
    fault: int,
    ramp: int,
    poa: int,
    load: int,
    p_ac: int,
    is_day: bool,
    alpha: int,
) -> int {
    if fault != 0 {
        STATUS_FAULT as int
    } else if ramp < 50_000 && poa < 30_000_000 {
        STATUS_STOPPED as int
    } else if ramp < 990_000 && poa >= 30_000_000 {
        STATUS_STARTING as int
    } else if 0 < ramp < ONE as int && poa < 30_000_000 {
        STATUS_CURTAILED as int
    } else if load >= 999_000 {
        STATUS_RUNNING as int
    } else if p_ac > 1_000 {
        STATUS_MPPT as int
    } else if is_day && alpha > 1_000_000 {
        STATUS_STARTING as int
    } else {
        STATUS_STOPPED as int
    }
}

pub fn status_of(
    fault: u16,
    ramp: i64,
    poa: i64,
    load: i64,
    p_ac: i64,
    is_day: bool,
    alpha: i64,
) -> (st: u16)
    ensures
        st as int == status_s(
            fault as int,
            ramp as int,
            poa as int,
            load as int,
            p_ac as int,
            is_day,
            alpha as int,
        ),
        st <= 5,
        (st == STATUS_FAULT) <==> fault != 0,
{
    if fault != 0 {
        STATUS_FAULT
    } else if ramp < 50_000 && poa < 30_000_000 {
        STATUS_STOPPED
    } else if ramp < 990_000 && poa >= 30_000_000 {
        STATUS_STARTING
    } else if 0 < ramp && ramp < ONE && poa < 30_000_000 {
        STATUS_CURTAILED
    } else if load >= 999_000 {
        STATUS_RUNNING
    } else if p_ac > 1_000 {
        STATUS_MPPT
    } else if is_day && alpha > 1_000_000 {
        STATUS_STARTING
    } else {
        STATUS_STOPPED
    }
}

/// Ramped DC power: the estimator's DC power throttled by the MPPT ramp.
pub open spec fn p_dc_s(prev: PlantData, est: crate::estimator::OfflineEstimate) -> int {
    fmul_s(
        est.power_kw as int,
        ramp_next_s(prev.ramp_factor as int, est.ghi_w_m2 as int, est.is_day),
    )
}

/// Load factor of the inverter.
pub open spec fn load_s(prev: PlantData, est: crate::estimator::OfflineEstimate, pnom: int) -> int {
    fdiv_s(p_dc_s(prev, est), pnom)
}

/// AC active power: DC power times efficiency, held inside the 110
/// percent nameplate window.
pub open spec fn p_ac_s(prev: PlantData, est: crate::estimator::OfflineEstimate, pnom: int) -> int {
    fclamp_s(
        fmul_s(p_dc_s(prev, est), efficiency_s(load_s(prev, est, pnom), est.cell_temp_c as int)),
        0,
        fmuldiv_s(11, pnom, 10),
    )
}

/// Power factor of the tick.
pub open spec fn pf_of_s(prev: PlantData, est: crate::estimator::OfflineEstimate, pnom: int) -> int {
    power_factor_s(p_ac_s(prev, est, pnom), load_s(prev, est, pnom))
}

/// Apparent and reactive power of the tick.
pub open spec fn sq_of_s(prev: PlantData, est: crate::estimator::OfflineEstimate, pnom: int) -> (
    int,
    int,
) {
    apparent_reactive_s(p_ac_s(prev, est, pnom), pf_of_s(prev, est, pnom))
}

/// Average of the three phase voltages of the tick.
pub open spec fn v_avg_of_s(
    prev: PlantData,
    est: crate::estimator::OfflineEstimate,
    pnom: int,
    lat: int,
    lon: int,
    tick5: int,
    e10: int,
) -> int {
    let p_ac = p_ac_s(prev, est, pnom);
    fdivi_s(
        fadd_s(
            fadd_s(
                volt_phase_s(lat, lon, tick5, e10, p_ac, pnom, 569, 571, 577),
                volt_phase_s(lat, lon, tick5, e10, p_ac, pnom, 587, 593, 599),
            ),
            volt_phase_s(lat, lon, tick5, e10, p_ac, pnom, 601, 607, 613),
        ),
        3,
    )
}

/// Per-epoch voltage excursion: one percent of ten-minute windows sit at
/// 260 V, another percent at 195 V.
pub open spec fn volt_excursion_s(lat: int, lon: int, e10: int) -> int {
    let h = event_dice_s(lat, lon, 617, 619, e10, 631);
    if h < 10_000 {
        30_000_000int
    } else if h < 20_000 {
        -35_000_000int
    } else {
        0int
    }
}

/// One phase voltage: 230 V plus a load-proportional rise, a small phase
/// noise and the common excursion.
pub open spec fn volt_phase_s(
    lat: int,
    lon: int,
    tick5: int,
    e10: int,
    p_ac: int,
    pnom: int,
    c1: int,
    c2: int,
    c3: int,
) -> int {
    let ac_load = fdiv_s(p_ac, pnom);
    fadd_s(
        fadd_s(230_000_000, fscale_s(5, ac_load)),
        fadd_s(
            fscale_s(3, grid_noise_s(lat, lon, c1, c2, tick5, c3)),
            volt_excursion_s(lat, lon, e10),
        ),
    )
}

/// Grid frequency: 50 Hz, 0.05 Hz of tick noise, and rare 0.8 Hz
/// excursions per ten-minute window.
pub open spec fn freq_of_s(lat: int, lon: int, tick5: int, e10: int) -> int {
    let base = fadd_s(50_000_000, fdivi_s(grid_noise_s(lat, lon, 641, 643, tick5, 647), 10));
    let h = event_dice_s(lat, lon, 653, 659, e10, 661);
    if h < 8_000 {
        fadd_s(base, 800_000)
    } else if h < 16_000 {
        fsub_s(base, 800_000)
    } else {
        base
    }
}

/// Heatsink target: ambient plus twenty degrees plus a loss-proportional
/// rise, with a rare per-quarter-hour overtemperature event.
pub open spec fn heatsink_target_s(
    amb: int,
    p_dc: int,
    p_ac: int,
    pnom: int,
    lat: int,
    lon: int,
    e15: int,
) -> int {
    let ratio = fclamp_s(fdiv_s(fmax_s(fsub_s(p_dc, p_ac), 0), pnom), 0, ONE as int);
    let base = fadd_s(fadd_s(amb, 20_000_000), fmul_s(ratio, 65_000_000));
    let h = event_dice_s(lat, lon, 673, 677, e15, 683);
    if h < 5_000 {
        fadd_s(85_000_000, fscale_s(2_000, h))
    } else {
        base
    }
}

/// First-order heatsink filter: move a fifth of the way to the target.
pub open spec fn heatsink_next_s(prev_t: int, target: int) -> int {
    fadd_s(prev_t, fmuldiv_s(2, fsub_s(target, prev_t), 10))
}

/// Isolation resistance: irradiance-dependent baseline, rare hourly
/// daytime collapse, and a dew derating at low sun.
pub open spec fn isolation_of_s(
    ghi: int,
    is_day: bool,
    alpha: int,
    lat: int,
    lon: int,
    e1h: int,
) -> int {
    let rbase = fadd_s(10_000_000, fmuldiv_s(30, ghi, 1_000));
    let h = event_dice_s(lat, lon, 691, 701, e1h, 709);
    let chosen = if is_day && h < 15_000 {
        fadd_s(50_000, fmuldiv_s(350_000, h, 15_000))
    } else {
        rbase
    };
    let dew = fadd_s(
        300_000,
        fmuldiv_s(700_000, fclamp_s(fdiv_s(alpha, 20_000_000), 0, ONE as int), ONE as int),
    );
    fmul_s(chosen, dew)
}

/// Ground leakage current, inverse to the isolation resistance and
/// humidity-scaled, clamped to [0.05, 350] mA.
pub open spec fn leakage_of_s(iso: int, rh: int) -> int {
    let inv = if iso > 0 {
        fdiv_s(3_300_000, iso)
    } else {
        350_000_000int
    };
    let scale = fadd_s(ONE as int, fmuldiv_s(12, fmax_s(fsub_s(rh, 50_000_000), 0), 1_000));
    fclamp_s(fmul_s(inv, scale), 50_000, 350_000_000)
}

/// Fan failure dice per four-hour window while the fan should run.
pub open spec fn fan_fail_s(t_hs: int, lat: int, lon: int, e4h: int) -> bool {
    t_hs >= 40_000_000 && event_dice_s(lat, lon, 719, 727, e4h, 733) < 8_000
}

/// Fan speed: off below 40 C, else 1500 to 3600 RPM across 40 to 80 C;
/// zero when the fan has failed.
pub open spec fn fan_rpm_s(t_hs: int, failed: bool) -> int {
    if t_hs < 40_000_000 || failed {
        0
    } else {
        fadd_s(
            1_500_000_000,
            fmuldiv_s(2_100, fclamp_s(fsub_s(t_hs, 40_000_000), 0, 40_000_000), 40),
        )
    }
}

/// Total harmonic distortion by load band, with noise.
pub open spec fn thd_of_s(load: int, lat: int, lon: int, tick5: int) -> int {
    let base = if load < 50_000 {
        12_000_000int
    } else if load < 500_000 {
        fsub_s(12_000_000, fmuldiv_s(10_200_000, fsub_s(load, 50_000), 450_000))
    } else {
        fadd_s(1_800_000, fmuldiv_s(800_000, fsub_s(load, 500_000), 600_000))
    };
    fmax_s(fadd_s(base, fmuldiv_s(4, grid_noise_s(lat, lon, 739, 743, tick5, 751), 10)), 0)
}

/// Rated AC phase current of the inverter in amperes (micro):
/// I = P_nom / (3 x 230 V).
pub open spec fn rated_current_s(pnom: int) -> int {
    fmuldiv_s(1_000, pnom, 690)
}

/// DC injection into the grid while producing: the rated current times a
/// minute-keyed fraction between 0.05 and 0.5, read in milliamperes.
pub open spec fn injection_of_s(p_ac: int, pnom: int, lat: int, lon: int, min_e: int) -> int {
    if p_ac > 10_000 {
        fmul_s(
            rated_current_s(pnom),
            fadd_s(50_000, fmuldiv_s(450, event_dice_s(lat, lon, 757, 761, min_e, 769), 1_000)),
        )
    } else {
        0
    }
}

/// MPPT operating voltage from the cell temperature.
pub open spec fn vmpp_s(cell: int) -> int {
    fmul_s(560_000_000, fsub_s(ONE as int, fmuldiv_s(3_500, fsub_s(cell, 25_000_000), ONE as int)))
}

/// Energy produced in one five-second tick, micro-kWh.
pub open spec fn energy_delta_s(p_ac: int) -> int {
    fmuldiv_s(5, p_ac, 3_600)
}

/// One full engine tick: the next telemetry record for one plant.
///
/// The ramp never moves more than 0.08 per tick; the active power stays
/// inside [0, 1.1 x nameplate]; the apparent-power triangle closes to one
/// least-significant unit; the status is Fault exactly when a protection
/// code or flag is raised; the lifetime counters never decrease, and the
/// daily counters restart when the day of year changes.
pub fn tick(
    prev: &PlantData,
    est: &crate::estimator::OfflineEstimate,
    lat: i64,
    lon: i64,
    pnom: i64,
    t: &crate::clock::UtcTime,
) -> (r: PlantData)
    requires
        wf_plant_s(*prev),
        crate::clock::valid_time_s(*t),
        0 < pnom <= 100_000_000_000,
        crate::estimator::valid_lat_s(lat as int),
        crate::estimator::valid_lon_s(lon as int),
        0 <= est.power_kw,
        in_range(est.power_kw as int),
        in_range(est.ghi_w_m2 as int),
        in_range(est.cell_temp_c as int),
        in_range(est.ambient_temp_c as int),
        in_range(est.solar_elevation_deg as int),
        0 <= est.ghi_w_m2,
        50_000 <= est.cloud_factor <= ONE,
        300_000 <= est.wind_speed_m_s <= 18_000_000,
        15_000_000 <= est.relative_humidity_pct <= 98_000_000,
        850_000 <= est.soiling_factor <= ONE,
    ensures
        wf_plant_s(r),
        r.ramp_factor == ramp_next_s(prev.ramp_factor as int, est.ghi_w_m2 as int, est.is_day),
        fabs_s(r.ramp_factor as int - prev.ramp_factor as int) <= 80_000,
        0 <= r.power_kw as int <= fmuldiv_s(11, pnom as int, 10),
        r.power_kw == p_ac_s(*prev, *est, pnom as int),
        r.power_kw <= r.apparent_power_kva,
        fabs_s(
            (r.apparent_power_kva as int) * (r.apparent_power_kva as int) - ((r.power_kw as int)
                * (r.power_kw as int) + (r.reactive_power_kvar as int) * (
            r.reactive_power_kvar as int)),
        ) <= r.apparent_power_kva as int,
        (r.status == STATUS_FAULT) <==> (r.alarm_flags != 0 || r.fault_code != 0),
        r.frequency_hz == freq_of_s(
            lat as int,
            lon as int,
            crate::clock::unix_seconds_s(*t) / 5,
            crate::clock::unix_seconds_s(*t) / 600,
        ),
        r.rocof_hz_s == fdivi_s(fsub_s(r.frequency_hz as int, prev.frequency_hz as int), 5),
        r.last_day_reset == crate::clock::day_of_year_s(*t),
        r.total_energy_kwh >= prev.total_energy_kwh,
        r.monthly_energy_kwh >= prev.monthly_energy_kwh,
        r.co2_avoided_kg >= prev.co2_avoided_kg,
        r.total_energy_kwh as int == fadd_s(
            prev.total_energy_kwh as int,
            energy_delta_s(r.power_kw as int),
        ),
        r.monthly_energy_kwh as int == fadd_s(
            prev.monthly_energy_kwh as int,
            energy_delta_s(r.power_kw as int),
        ),
        r.co2_avoided_kg as int == fadd_s(
            prev.co2_avoided_kg as int,
            fmuldiv_s(233, energy_delta_s(r.power_kw as int), 1_000),
        ),
        (prev.last_day_reset != 0 && prev.last_day_reset as int != crate::clock::day_of_year_s(
            *t,
        )) ==> r.daily_energy_kwh == energy_delta_s(r.power_kw as int)
            && r.daily_peak_power_kw == r.power_kw,
        (prev.last_day_reset as int == crate::clock::day_of_year_s(*t) || prev.last_day_reset
            == 0) ==> r.daily_energy_kwh == fadd_s(
            prev.daily_energy_kwh as int,
            energy_delta_s(r.power_kw as int),
        ) && r.daily_peak_power_kw as int == fmax_s(
            prev.daily_peak_power_kw as int,
            r.power_kw as int,
        ),
        r.temperature_c == est.cell_temp_c,
        r.poa_irradiance_w_m2 == est.ghi_w_m2,
        r.cloud_factor == est.cloud_factor,
        r.solar_elevation_deg == est.solar_elevation_deg,
        r.wind_speed_m_s == est.wind_speed_m_s,
        r.relative_humidity_pct == est.relative_humidity_pct,
        r.soiling_factor == est.soiling_factor,
        r.weather_code == est.weather_code,
        r.is_day == est.is_day,
        r.ambient_temp_c == est.ambient_temp_c,
        r.power_factor == pf_of_s(*prev, *est, pnom as int),
        (r.apparent_power_kva as int, r.reactive_power_kvar as int) == sq_of_s(
            *prev,
            *est,
            pnom as int,
        ),
        r.dc_power_kw == p_dc_s(*prev, *est),
        r.mppt_voltage_v as int == vmpp_s(est.cell_temp_c as int),
        r.dc_voltage_v as int == fmuldiv_s(105, vmpp_s(est.cell_temp_c as int), 100),
        r.efficiency_percent as int == fscale_s(
            100,
            efficiency_s(load_s(*prev, *est, pnom as int), est.cell_temp_c as int),
        ),
        r.voltage_l1_v as int == volt_phase_s(
            lat as int,
            lon as int,
            crate::clock::unix_seconds_s(*t) / 5,
            crate::clock::unix_seconds_s(*t) / 600,
            p_ac_s(*prev, *est, pnom as int),
            pnom as int,
            569,
            571,
            577,
        ),
        r.voltage_l2_v as int == volt_phase_s(
            lat as int,
            lon as int,
            crate::clock::unix_seconds_s(*t) / 5,
            crate::clock::unix_seconds_s(*t) / 600,
            p_ac_s(*prev, *est, pnom as int),
            pnom as int,
            587,
            593,
            599,
        ),
        r.voltage_l3_v as int == volt_phase_s(
            lat as int,
            lon as int,
            crate::clock::unix_seconds_s(*t) / 5,
            crate::clock::unix_seconds_s(*t) / 600,
            p_ac_s(*prev, *est, pnom as int),
            pnom as int,
            601,
            607,
            613,
        ),
        r.isolation_resistance_mohm as int == isolation_of_s(
            est.ghi_w_m2 as int,
            est.is_day,
            est.solar_elevation_deg as int,
            lat as int,
            lon as int,
            crate::clock::unix_seconds_s(*t) / 3600,
        ),
        r.leakage_current_ma as int == leakage_of_s(
            r.isolation_resistance_mohm as int,
            est.relative_humidity_pct as int,
        ),
        r.ac_thd_percent as int == thd_of_s(
            load_s(*prev, *est, pnom as int),
            lat as int,
            lon as int,
            crate::clock::unix_seconds_s(*t) / 5,
        ),
        r.dc_injection_ma as int == injection_of_s(
            p_ac_s(*prev, *est, pnom as int),
            pnom as int,
            lat as int,
            lon as int,
            crate::clock::unix_seconds_s(*t) / 60,
        ),
        r.fan_fault_active == fan_fail_s(
            r.inverter_temp_c as int,
            lat as int,
            lon as int,
            crate::clock::unix_seconds_s(*t) / 14400,
        ),
        r.inverter_fan_speed_rpm as int == fan_rpm_s(
            r.inverter_temp_c as int,
            r.fan_fault_active,
        ),
        r.fault_code as int == fault_code_s(
            v_avg_of_s(
                *prev,
                *est,
                pnom as int,
                lat as int,
                lon as int,
                crate::clock::unix_seconds_s(*t) / 5,
                crate::clock::unix_seconds_s(*t) / 600,
            ),
            r.frequency_hz as int,
            r.rocof_hz_s as int,
            r.isolation_resistance_mohm as int,
            r.leakage_current_ma as int,
            r.inverter_temp_c as int,
            r.fan_fault_active,
            r.dc_voltage_v as int,
        ),
        r.alarm_flags as int == alarm_flags_s(
            v_avg_of_s(
                *prev,
                *est,
                pnom as int,
                lat as int,
                lon as int,
                crate::clock::unix_seconds_s(*t) / 5,
                crate::clock::unix_seconds_s(*t) / 600,
            ),
            r.frequency_hz as int,
            r.isolation_resistance_mohm as int,
            r.inverter_temp_c as int,
        ),
        r.performance_ratio as int == (if fmul_s(
            pnom as int,
            fdivi_s(est.ghi_w_m2 as int, 1_000),
        ) > 100_000 {
            fclamp_s(
                fdiv_s(
                    p_ac_s(*prev, *est, pnom as int),
                    fmul_s(pnom as int, fdivi_s(est.ghi_w_m2 as int, 1_000)),
                ),
                0,
                ONE as int,
            )
        } else {
            0int
        }),
        r.specific_yield_kwh_kwp as int == fdiv_s(r.daily_energy_kwh as int, pnom as int),
        r.capacity_factor_percent as int == fclamp_s(
            fscale_s(100, fdiv_s(p_ac_s(*prev, *est, pnom as int), pnom as int)),
            0,
            110_000_000,
        ),
        r.inverter_temp_c as int == heatsink_next_s(
            prev.inverter_temp_c as int,
            heatsink_target_s(
                est.ambient_temp_c as int,
                p_dc_s(*prev, *est),
                p_ac_s(*prev, *est, pnom as int),
                pnom as int,
                lat as int,
                lon as int,
                crate::clock::unix_seconds_s(*t) / 900,
            ),
        ),
        r.status as int == status_s(
            r.fault_code as int,
            r.ramp_factor as int,
            est.ghi_w_m2 as int,
            load_s(*prev, *est, pnom as int),
            r.power_kw as int,
            est.is_day,
            est.solar_elevation_deg as int,
        ),
{
    let unix = crate::clock::unix_seconds(t);
    let doy = crate::clock::day_of_year(t);
    let tick5 = epoch_of(unix, 5);
    let min_e = epoch_of(unix, 60);
    let e10 = epoch_of(unix, 600);
    let e15 = epoch_of(unix, 900);
    let e1h = epoch_of(unix, 3600);
    let e4h = epoch_of(unix, 14400);

    let day_changed = prev.last_day_reset != 0 && prev.last_day_reset != doy;
    let daily_base: i64 = if day_changed {
        0
    } else {
        prev.daily_energy_kwh
    };
    let peak_base: i64 = if day_changed {
        0
    } else {
        prev.daily_peak_power_kw
    };

    let ramp = ramp_next(prev.ramp_factor, est.ghi_w_m2, est.is_day);
    let p_dc = fmul(est.power_kw, ramp);
    let load = fdiv(p_dc, pnom);
    let eff = efficiency(load, est.cell_temp_c);
    let p_cap = fmuldiv(11, pnom, 10);
    let p_ac = fclamp(fmul(p_dc, eff), 0, p_cap);
    proof {
        vstd::arithmetic::div_mod::lemma_div_is_ordered(
            11 * (pnom as int),
            11int * 100_000_000_000,
            10,
        );
    }
    let pf = power_factor_of(p_ac, load);
    let sq = apparent_reactive(p_ac, pf);
    let s = sq.0;
    let q = sq.1;

    let v1 = volt_phase(lat, lon, tick5, e10, p_ac, pnom, 569, 571, 577);
    let v2 = volt_phase(lat, lon, tick5, e10, p_ac, pnom, 587, 593, 599);
    let v3 = volt_phase(lat, lon, tick5, e10, p_ac, pnom, 601, 607, 613);
    let v_avg = fdivi(fadd(fadd(v1, v2), v3), 3);
    let freq = freq_of(lat, lon, tick5, e10);
    let rocof = fdivi(fsub(freq, prev.frequency_hz), 5);

    let s_third = fdivi(fscale(1_000, s), 3);
    let i1 = if v1 > 0 {
        fdiv(s_third, v1)
    } else {
        0
    };
    let i2 = if v2 > 0 {
        fdiv(s_third, v2)
    } else {
        0
    };
    let i3 = if v3 > 0 {
        fdiv(s_third, v3)
    } else {
        0
    };

    let vmpp = fmul(560_000_000, fsub(ONE, fmuldiv(3_500, fsub(est.cell_temp_c, 25_000_000), ONE)));
    let vdc = fmuldiv(105, vmpp, 100);
    let idc = if vdc > 0 {
        fdiv(fscale(1_000, p_dc), vdc)
    } else {
        0
    };
    let mppt_i = if vmpp > 0 {
        fdiv(fscale(1_000, p_dc), vmpp)
    } else {
        0
    };
    let imb = fmuldiv(8, fscale(2, grid_noise(lat, lon, 541, 547, e1h, 557)), 100);
    let half = fdivi(idc, 2);
    let s1_i = fmul(half, fadd(ONE, imb));
    let s2_i = fmul(half, fsub(ONE, imb));

    let hs_target = heatsink_target(est.ambient_temp_c, p_dc, p_ac, pnom, lat, lon, e15);
    let t_hs = fadd(prev.inverter_temp_c, fmuldiv(2, fsub(hs_target, prev.inverter_temp_c), 10));

    let iso = isolation_of(est.ghi_w_m2, est.is_day, est.solar_elevation_deg, lat, lon, e1h);
    let leak = leakage_of(iso, est.relative_humidity_pct);

    let fan_failed = t_hs >= 40_000_000 && event_dice(lat, lon, 719, 727, e4h, 733) < 8_000;
    let rpm = if t_hs < 40_000_000 || fan_failed {
        0
    } else {
        fadd(1_500_000_000, fmuldiv(2_100, fclamp(fsub(t_hs, 40_000_000), 0, 40_000_000), 40))
    };

    let thd = thd_of(load, lat, lon, tick5);
    let inj = injection_of(p_ac, pnom, lat, lon, min_e);

    let fault = fault_code_of(v_avg, freq, rocof, iso, leak, t_hs, fan_failed, vdc);
    let flags = alarm_flags_of(v_avg, freq, iso, t_hs);
    let status = status_of(fault, ramp, est.ghi_w_m2, load, p_ac, est.is_day, est.solar_elevation_deg);
    proof {
        lemma_fault_flag_coherence(
            v_avg as int,
            freq as int,
            rocof as int,
            iso as int,
            leak as int,
            t_hs as int,
            fan_failed,
            vdc as int,
        );
    }

    let de = fmuldiv(5, p_ac, 3_600);
    proof {
        vstd::arithmetic::div_mod::lemma_div_pos_is_pos(5 * (p_ac as int), 3_600);
        assert(5 * (p_ac as int) >= 0) by (nonlinear_arith)
            requires
                p_ac as int >= 0,
        ;
    }
    let daily = fadd(daily_base, de);
    let monthly = fadd(prev.monthly_energy_kwh, de);
    let total = fadd(prev.total_energy_kwh, de);
    let co2 = fadd(prev.co2_avoided_kg, fmuldiv(233, de, 1_000));
    proof {
        vstd::arithmetic::div_mod::lemma_div_pos_is_pos(233 * (de as int), 1_000);
        assert(233 * (de as int) >= 0) by (nonlinear_arith)
            requires
                de as int >= 0,
        ;
    }
    let peak = fmax(peak_base, p_ac);

    let reference = fmul(pnom, fdivi(est.ghi_w_m2, 1_000));
    let pr = if reference > 100_000 {
        fclamp(fdiv(p_ac, reference), 0, ONE)
    } else {
        0
    };
    let specific = fdiv(daily, pnom);
    let capacity = fclamp(fscale(100, fdiv(p_ac, pnom)), 0, 110_000_000);
    let eff_pct = fscale(100, eff);

    PlantData {
        power_kw: p_ac,
        voltage_l1_v: v1,
        voltage_l2_v: v2,
        voltage_l3_v: v3,
        current_l1_a: i1,
        current_l2_a: i2,
        current_l3_a: i3,
        frequency_hz: freq,
        rocof_hz_s: rocof,
        power_factor: pf,
        reactive_power_kvar: q,
        apparent_power_kva: s,
        ac_thd_percent: thd,
        dc_injection_ma: inj,
        dc_voltage_v: vdc,
        dc_current_a: idc,
        dc_power_kw: p_dc,
        mppt_voltage_v: vmpp,
        mppt_current_a: mppt_i,
        string1_voltage_v: vdc,
        string1_current_a: s1_i,
        string2_voltage_v: vdc,
        string2_current_a: s2_i,
        temperature_c: est.cell_temp_c,
        inverter_temp_c: t_hs,
        ambient_temp_c: est.ambient_temp_c,
        inverter_fan_speed_rpm: rpm,
        fan_fault_active: fan_failed,
        efficiency_percent: eff_pct,
        poa_irradiance_w_m2: est.ghi_w_m2,
        solar_elevation_deg: est.solar_elevation_deg,
        cloud_factor: est.cloud_factor,
        wind_speed_m_s: est.wind_speed_m_s,
        relative_humidity_pct: est.relative_humidity_pct,
        soiling_factor: est.soiling_factor,
        isolation_resistance_mohm: iso,
        leakage_current_ma: leak,
        status,
        fault_code: fault,
        alarm_flags: flags,
        weather_code: est.weather_code,
        is_day: est.is_day,
        daily_energy_kwh: daily,
        monthly_energy_kwh: monthly,
        total_energy_kwh: total,
        co2_avoided_kg: co2,
        daily_peak_power_kw: peak,
        last_day_reset: doy,
        performance_ratio: pr,
        specific_yield_kwh_kwp: specific,
        capacity_factor_percent: capacity,
        ramp_factor: ramp,
    }
}

/// One phase voltage.
pub fn volt_phase(
    lat: i64,
    lon: i64,
    tick5: i64,
    e10: i64,
    p_ac: i64,
    pnom: i64,
    c1: u64,
    c2: u64,
    c3: u64,
) -> (v: i64)
    requires
        in_range(p_ac as int),
        0 < pnom,
        in_range(pnom as int),
    ensures
        v == volt_phase_s(
            lat as int,
            lon as int,
            tick5 as int,
            e10 as int,
            p_ac as int,
            pnom as int,
            c1 as int,
            c2 as int,
            c3 as int,
        ),
        in_range(v as int),
{
    let ac_load = fdiv(p_ac, pnom);
    let exc = volt_excursion(lat, lon, e10);
    fadd(
        fadd(230_000_000, fscale(5, ac_load)),
        fadd(fscale(3, grid_noise(lat, lon, c1, c2, tick5, c3)), exc),
    )
}

pub fn volt_excursion(lat: i64, lon: i64, e10: i64) -> (v: i64)
    ensures
        v == volt_excursion_s(lat as int, lon as int, e10 as int),
        in_range(v as int),
{
    let h = event_dice(lat, lon, 617, 619, e10, 631);
    if h < 10_000 {
        30_000_000
    } else if h < 20_000 {
        -35_000_000
    } else {
        0
    }
}

/// Grid frequency for one tick.
pub fn freq_of(lat: i64, lon: i64, tick5: i64, e10: i64) -> (f: i64)
    ensures
        f == freq_of_s(lat as int, lon as int, tick5 as int, e10 as int),
        in_range(f as int),
{
    let base = fadd(50_000_000, fdivi(grid_noise(lat, lon, 641, 643, tick5, 647), 10));
    let h = event_dice(lat, lon, 653, 659, e10, 661);
    if h < 8_000 {
        fadd(base, 800_000)
    } else if h < 16_000 {
        fsub(base, 800_000)
    } else {
        base
    }
}

/// Heatsink temperature target.
pub fn heatsink_target(
    amb: i64,
    p_dc: i64,
    p_ac: i64,
    pnom: i64,
    lat: i64,
    lon: i64,
    e15: i64,
) -> (tt: i64)
    requires
        in_range(amb as int),
        in_range(p_dc as int),
        in_range(p_ac as int),
        0 < pnom,
        in_range(pnom as int),
    ensures
        tt == heatsink_target_s(
            amb as int,
            p_dc as int,
            p_ac as int,
            pnom as int,
            lat as int,
            lon as int,
            e15 as int,
        ),
        in_range(tt as int),
{
    let loss = fmax(fsub(p_dc, p_ac), 0);
    let ratio = fclamp(fdiv(loss, pnom), 0, ONE);
    let base = fadd(fadd(amb, 20_000_000), fmul(ratio, 65_000_000));
    let h = event_dice(lat, lon, 673, 677, e15, 683);
    if h < 5_000 {
        fadd(85_000_000, fscale(2_000, h))
    } else {
        base
    }
}

/// Isolation resistance for one tick.
pub fn isolation_of(ghi: i64, is_day: bool, alpha: i64, lat: i64, lon: i64, e1h: i64) -> (iso: i64)
    requires
        in_range(ghi as int),
        in_range(alpha as int),
    ensures
        iso == isolation_of_s(
            ghi as int,
            is_day,
            alpha as int,
            lat as int,
            lon as int,
            e1h as int,
        ),
        in_range(iso as int),
{
    let rbase = fadd(10_000_000, fmuldiv(30, ghi, 1_000));
    let h = event_dice(lat, lon, 691, 701, e1h, 709);
    let chosen = if is_day && h < 15_000 {
        fadd(50_000, fmuldiv(350_000, h, 15_000))
    } else {
        rbase
    };
    let dew = fadd(300_000, fmuldiv(700_000, fclamp(fdiv(alpha, 20_000_000), 0, ONE), ONE));
    fmul(chosen, dew)
}

/// Ground leakage current for one tick.
pub fn leakage_of(iso: i64, rh: i64) -> (lk: i64)
    requires
        in_range(iso as int),
        in_range(rh as int),
    ensures
        lk == leakage_of_s(iso as int, rh as int),
        50_000 <= lk <= 350_000_000,
{
    let inv: i64 = if iso > 0 {
        fdiv(3_300_000, iso)
    } else {
        350_000_000
    };
    let scale = fadd(ONE, fmuldiv(12, fmax(fsub(rh, 50_000_000), 0), 1_000));
    fclamp(fmul(inv, scale), 50_000, 350_000_000)
}

/// Total harmonic distortion for one tick.
pub fn thd_of(load: i64, lat: i64, lon: i64, tick5: i64) -> (thd: i64)
    requires
        in_range(load as int),
    ensures
        thd == thd_of_s(load as int, lat as int, lon as int, tick5 as int),
        0 <= thd,
        in_range(thd as int),
{
    let base: i64 = if load < 50_000 {
        12_000_000
    } else if load < 500_000 {
        fsub(12_000_000, fmuldiv(10_200_000, fsub(load, 50_000), 450_000))
    } else {
        fadd(1_800_000, fmuldiv(800_000, fsub(load, 500_000), 600_000))
    };
    fmax(fadd(base, fmuldiv(4, grid_noise(lat, lon, 739, 743, tick5, 751), 10)), 0)
}

/// DC injection for one tick.
pub fn injection_of(p_ac: i64, pnom: i64, lat: i64, lon: i64, min_e: i64) -> (inj: i64)
    requires
        0 < pnom,
        in_range(pnom as int),
    ensures
        inj == injection_of_s(p_ac as int, pnom as int, lat as int, lon as int, min_e as int),
        0 <= inj,
        in_range(inj as int),
{
    if p_ac > 10_000 {
        let i_rated = fmuldiv(1_000, pnom, 690);
        let frac = fadd(50_000, fmuldiv(450, event_dice(lat, lon, 757, 761, min_e, 769), 1_000));
        let inj = fmul(i_rated, frac);
        proof {
            vstd::arithmetic::div_mod::lemma_div_pos_is_pos(1_000 * (pnom as int), 690);
            assert(1_000 * (pnom as int) >= 0) by (nonlinear_arith)
                requires
                    pnom as int > 0,
            ;
            assert((i_rated as int) * (frac as int) >= 0) by (nonlinear_arith)
                requires
                    i_rated as int >= 0,
                    frac as int >= 0,
            ;
            vstd::arithmetic::div_mod::lemma_div_pos_is_pos(
                (i_rated as int) * (frac as int),
                crate::fp::ONE as int,
            );
        }
        inj
    } else {
        0
    }
}

} // verus!
