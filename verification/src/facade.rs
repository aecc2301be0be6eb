//! Read-only projections of the shared state.
//!
//! Fleet totals, the health summary, the public system configuration and
//! the register-map description: everything the HTTP facade serves is
//! computed here as a verified function of the store, and the transport
//! layer only serialises the result.

use vstd::prelude::*;

use crate::config::Config;
use crate::config::GlobalPowerResponse;
use crate::config::HealthStatus;
use crate::config::ModbusInfo;
use crate::config::PlantConfig;
use crate::config::SystemConfig;
use crate::fp::fadd;
use crate::fp::fadd_s;
use crate::fp::fdivi;
use crate::fp::in_range;
use crate::store::AppState;
use crate::store::PlantEntry;

verus! {

/// Decimal digits of a number, most significant first.
pub open spec fn dec_str_s(n: int) -> Seq<char>
    decreases n,
{
    if n < 0 {
        Seq::empty()
    } else if n < 10 {
        seq![digit_char_s(n)]
    } else {
        dec_str_s(n / 10).push(digit_char_s(n % 10))
    }
}

pub open spec fn digit_char_s(d: int) -> char {
    if d == 0 { '0' } else if d == 1 { '1' } else if d == 2 { '2' } else if d == 3 { '3' }
    else if d == 4 { '4' } else if d == 5 { '5' } else if d == 6 { '6' } else if d == 7 { '7' }
    else if d == 8 { '8' } else { '9' }
}

fn push_digit(s: &mut String, d: u64)
    requires
        d <= 9,
    ensures
        final(s)@ == old(s)@.push(digit_char_s(d as int)),
{
    proof {
        reveal_strlit("0");
        reveal_strlit("1");
        reveal_strlit("2");
        reveal_strlit("3");
        reveal_strlit("4");
        reveal_strlit("5");
        reveal_strlit("6");
        reveal_strlit("7");
        reveal_strlit("8");
        reveal_strlit("9");
    }
    if d == 0 {
        s.append("0");
    } else if d == 1 {
        s.append("1");
    } else if d == 2 {
        s.append("2");
    } else if d == 3 {
        s.append("3");
    } else if d == 4 {
        s.append("4");
    } else if d == 5 {
        s.append("5");
    } else if d == 6 {
        s.append("6");
    } else if d == 7 {
        s.append("7");
    } else if d == 8 {
        s.append("8");
    } else {
        s.append("9");
    }
    proof {
        assert(s@ =~= old(s)@.push(digit_char_s(d as int)));
    }
}

fn push_decimal(s: &mut String, n: u64)
    ensures
        final(s)@ == old(s)@ + dec_str_s(n as int),
    decreases n,
{
    if n < 10 {
        push_digit(s, n);
        proof {
            assert(s@ =~= old(s)@ + dec_str_s(n as int));
        }
    } else {
        push_decimal(s, n / 10);
        push_digit(s, n % 10);
        proof {
            assert(s@ =~= old(s)@ + dec_str_s(n as int));
        }
    }
}

/// The decimal rendering of a number.
pub fn u64_to_string(n: u64) -> (r: String)
    ensures
        r@ == dec_str_s(n as int),
{
    let mut s = String::new();
    push_decimal(&mut s, n);
    proof {
        assert(s@ =~= dec_str_s(n as int));
    }
    s
}

/// Saturating fleet total of `power_kw`, oldest entry first.
pub open spec fn sum_power_s(s: Seq<PlantEntry>) -> int
    decreases s.len(),
{
    if s.len() == 0 {
        0
    } else {
        fadd_s(sum_power_s(s.drop_last()), s.last().data.power_kw as int)
    }
}


/// Saturating fleet total of `daily_energy_kwh`, oldest entry first.
pub open spec fn sum_daily_s(s: Seq<PlantEntry>) -> int
    decreases s.len(),
{
    if s.len() == 0 {
        0
    } else {
        fadd_s(sum_daily_s(s.drop_last()), s.last().data.daily_energy_kwh as int)
    }
}


/// Saturating fleet total of `monthly_energy_kwh`, oldest entry first.
pub open spec fn sum_monthly_s(s: Seq<PlantEntry>) -> int
    decreases s.len(),
{
    if s.len() == 0 {
        0
    } else {
        fadd_s(sum_monthly_s(s.drop_last()), s.last().data.monthly_energy_kwh as int)
    }
}


/// Saturating fleet total of `total_energy_kwh`, oldest entry first.
pub open spec fn sum_total_s(s: Seq<PlantEntry>) -> int
    decreases s.len(),
{
    if s.len() == 0 {
        0
    } else {
        fadd_s(sum_total_s(s.drop_last()), s.last().data.total_energy_kwh as int)
    }
}


/// Saturating fleet total of `performance_ratio`, oldest entry first.
pub open spec fn sum_pr_s(s: Seq<PlantEntry>) -> int
    decreases s.len(),
{
    if s.len() == 0 {
        0
    } else {
        fadd_s(sum_pr_s(s.drop_last()), s.last().data.performance_ratio as int)
    }
}

/// How many plants are producing (running or tracking).
pub open spec fn count_running_s(s: Seq<PlantEntry>) -> int
    decreases s.len(),
{
    if s.len() == 0 {
        0
    } else {
        count_running_s(s.drop_last()) + (if s.last().data.status == 1 || s.last().data.status
            == 5 {
            1int
        } else {
            0int
        })
    }
}

/// Saturating total of the configured nameplate ratings.
pub open spec fn sum_nominal_s(s: Seq<PlantConfig>) -> int
    decreases s.len(),
{
    if s.len() == 0 {
        0
    } else {
        fadd_s(sum_nominal_s(s.drop_last()), s.last().nominal_power_kw as int)
    }
}

/// Fleet totals over every plant's latest record.
pub fn global_power(state: &AppState, cfg: &Config) -> (r: GlobalPowerResponse)
    requires
        state.wf(),
        forall |i: int|
            0 <= i < cfg.plants@.len() ==> crate::config::valid_plant_s(#[trigger] cfg.plants@[i]),
    ensures
        r.total_power_kw == sum_power_s(state.plants@),
        r.total_daily_energy_kwh == sum_daily_s(state.plants@),
        r.total_monthly_energy_kwh == sum_monthly_s(state.plants@),
        r.total_lifetime_energy_kwh == sum_total_s(state.plants@),
        r.plants_running as int == count_running_s(state.plants@),
        r.plants_total == cfg.plants@.len(),
        r.total_nominal_kw == sum_nominal_s(cfg.plants@),
        state.plants@.len() == 0 ==> r.fleet_performance_ratio == 0,
        0 < state.plants@.len() < 0x80000000 ==> r.fleet_performance_ratio
            == crate::fp::fdivi_s(sum_pr_s(state.plants@), state.plants@.len() as int),
        r.per_plant@.len() == state.plants@.len(),
        forall |i: int|
            0 <= i < r.per_plant@.len() ==> (#[trigger] r.per_plant@[i]).0@ == state.plants@[
            i].id@ && r.per_plant@[i].1 == state.plants@[i].data.power_kw,
{
    let n = state.plants.len();
    let mut acc_power_kw: i64 = 0;
    let mut acc_daily_energy_kwh: i64 = 0;
    let mut acc_monthly_energy_kwh: i64 = 0;
    let mut acc_total_energy_kwh: i64 = 0;
    let mut acc_performance_ratio: i64 = 0;
    let mut running: usize = 0;
    let mut per_plant: Vec<(String, i64)> = Vec::new();
    let mut k: usize = 0;
    while k < n
        invariant
            0 <= k <= n,
            n == state.plants@.len(),
            state.wf(),
            in_range(acc_power_kw as int),
            in_range(acc_daily_energy_kwh as int),
            in_range(acc_monthly_energy_kwh as int),
            in_range(acc_total_energy_kwh as int),
            in_range(acc_performance_ratio as int),
            acc_power_kw == sum_power_s(state.plants@.take(k as int)),
            acc_daily_energy_kwh == sum_daily_s(state.plants@.take(k as int)),
            acc_monthly_energy_kwh == sum_monthly_s(state.plants@.take(k as int)),
            acc_total_energy_kwh == sum_total_s(state.plants@.take(k as int)),
            acc_performance_ratio == sum_pr_s(state.plants@.take(k as int)),
            running as int == count_running_s(state.plants@.take(k as int)),
            running <= k,
            per_plant@.len() == k as int,
            forall |i: int|
                0 <= i < k ==> (#[trigger] per_plant@[i]).0@ == state.plants@[i].id@
                    && per_plant@[i].1 == state.plants@[i].data.power_kw,
        decreases n - k,
    {
        let e = &state.plants[k];
        proof {
            assert(state.plants@.take(k + 1).drop_last() =~= state.plants@.take(k as int));
            assert(state.plants@.take(k + 1).last() == state.plants@[k as int]);
        }
        acc_power_kw = fadd(acc_power_kw, e.data.power_kw);
        acc_daily_energy_kwh = fadd(acc_daily_energy_kwh, e.data.daily_energy_kwh);
        acc_monthly_energy_kwh = fadd(acc_monthly_energy_kwh, e.data.monthly_energy_kwh);
        acc_total_energy_kwh = fadd(acc_total_energy_kwh, e.data.total_energy_kwh);
        acc_performance_ratio = fadd(acc_performance_ratio, e.data.performance_ratio);
        if e.data.status == 1 || e.data.status == 5 {
            running = running + 1;
        }
        per_plant.push((e.id.clone(), e.data.power_kw));
        k = k + 1;
    }
    proof {
        assert(state.plants@.take(n as int) =~= state.plants@);
    }
    let mut total_nom: i64 = 0;
    let mut p: usize = 0;
    let np = cfg.plants.len();
    while p < np
        invariant
            0 <= p <= np,
            np == cfg.plants@.len(),
            in_range(total_nom as int),
            total_nom == sum_nominal_s(cfg.plants@.take(p as int)),
            forall |i: int|
                0 <= i < cfg.plants@.len() ==> crate::config::valid_plant_s(
                    #[trigger] cfg.plants@[i],
                ),
        decreases np - p,
    {
        proof {
            assert(cfg.plants@.take(p + 1).drop_last() =~= cfg.plants@.take(p as int));
            assert(cfg.plants@.take(p + 1).last() == cfg.plants@[p as int]);
        }
        total_nom = fadd(total_nom, cfg.plants[p].nominal_power_kw);
        p = p + 1;
    }
    proof {
        assert(cfg.plants@.take(np as int) =~= cfg.plants@);
    }
    let fleet_pr: i64 = if n == 0 {
        0
    } else {
        let d: i64 = if n > 0x7fffffff {
            0x7fffffff
        } else {
            n as i64
        };
        fdivi(acc_performance_ratio, d)
    };
    GlobalPowerResponse {
        total_power_kw: acc_power_kw,
        total_nominal_kw: total_nom,
        total_daily_energy_kwh: acc_daily_energy_kwh,
        total_monthly_energy_kwh: acc_monthly_energy_kwh,
        total_lifetime_energy_kwh: acc_total_energy_kwh,
        fleet_performance_ratio: fleet_pr,
        plants_running: running,
        plants_total: np,
        per_plant,
    }
}

/// Health summary of the running system.
pub fn health_status(state: &AppState, cfg: &Config, now: i64, version: String) -> (r:
    HealthStatus)
    requires
        state.wf(),
    ensures
        r.plants_online as int == count_running_s(state.plants@),
        r.plants_total == cfg.plants@.len(),
        r.offline_mode == state.offline_mode,
        r.mqtt_connected == state.mqtt_connected,
        r.status@ == "ok"@,
{
    let n = state.plants.len();
    let mut online: usize = 0;
    let mut k: usize = 0;
    while k < n
        invariant
            0 <= k <= n,
            n == state.plants@.len(),
            online as int == count_running_s(state.plants@.take(k as int)),
            online <= k,
        decreases n - k,
    {
        proof {
            assert(state.plants@.take(k + 1).drop_last() =~= state.plants@.take(k as int));
            assert(state.plants@.take(k + 1).last() == state.plants@[k as int]);
        }
        let e = &state.plants[k];
        if e.data.status == 1 || e.data.status == 5 {
            online = online + 1;
        }
        k = k + 1;
    }
    proof {
        assert(state.plants@.take(n as int) =~= state.plants@);
    }
    HealthStatus {
        status: String::from_str("ok"),
        version,
        uptime_seconds: state.uptime_seconds(now),
        plants_online: online,
        plants_total: cfg.plants.len(),
        offline_mode: state.is_offline(),
        mqtt_connected: state.is_mqtt_connected(),
    }
}

/// Public system configuration summary.
pub fn system_config(cfg: &Config) -> (r: SystemConfig)
    ensures
        r.api_port == cfg.server.port,
        r.modbus_port == cfg.modbus.port,
        r.mqtt_enabled == cfg.mqtt.enabled,
        r.mqtt_topic_prefix@ == cfg.mqtt.topic_prefix@,
        r.websocket_endpoint@ == "/ws/telemetry"@,
        r.prometheus_endpoint@ == "/metrics"@,
{
    let broker: Option<String> = if cfg.mqtt.enabled && cfg.mqtt.broker_host.as_str().len() > 0 {
        let mut b = cfg.mqtt.broker_host.clone();
        b.append(":");
        let port = u64_to_string(cfg.mqtt.broker_port as u64);
        b.append(port.as_str());
        Some(b)
    } else {
        None
    };
    SystemConfig {
        api_port: cfg.server.port,
        modbus_port: cfg.modbus.port,
        modbus_host: String::from_str("0.0.0.0"),
        mqtt_enabled: cfg.mqtt.enabled,
        mqtt_broker: broker,
        mqtt_topic_prefix: cfg.mqtt.topic_prefix.clone(),
        websocket_endpoint: String::from_str("/ws/telemetry"),
        prometheus_endpoint: String::from_str("/metrics"),
    }
}


/// Register offset of the k-th row of the register-map description.
pub open spec fn info_offset_s(k: int) -> int {
    if k == 0 {
        crate::registers::REG_POWER_KW as int
    } else if k == 1 {
        crate::registers::REG_VOLTAGE_L1_V as int
    } else if k == 2 {
        crate::registers::REG_CURRENT_L1_A as int
    } else if k == 3 {
        crate::registers::REG_FREQUENCY_HZ as int
    } else if k == 4 {
        crate::registers::REG_TEMPERATURE_C as int
    } else if k == 5 {
        crate::registers::REG_STATUS as int
    } else if k == 6 {
        crate::registers::REG_VOLTAGE_L2_V as int
    } else if k == 7 {
        crate::registers::REG_VOLTAGE_L3_V as int
    } else if k == 8 {
        crate::registers::REG_CURRENT_L2_A as int
    } else if k == 9 {
        crate::registers::REG_CURRENT_L3_A as int
    } else if k == 10 {
        crate::registers::REG_REACTIVE_POWER_KVAR as int
    } else if k == 11 {
        crate::registers::REG_APPARENT_POWER_KVA as int
    } else if k == 12 {
        crate::registers::REG_POWER_FACTOR as int
    } else if k == 13 {
        crate::registers::REG_ROCOF_HZ_S as int
    } else if k == 14 {
        crate::registers::REG_DC_VOLTAGE_V as int
    } else if k == 15 {
        crate::registers::REG_DC_CURRENT_A as int
    } else if k == 16 {
        crate::registers::REG_DC_POWER_KW as int
    } else if k == 17 {
        crate::registers::REG_MPPT_VOLTAGE_V as int
    } else if k == 18 {
        crate::registers::REG_MPPT_CURRENT_A as int
    } else if k == 19 {
        crate::registers::REG_INVERTER_TEMP_C as int
    } else if k == 20 {
        crate::registers::REG_AMBIENT_TEMP_C as int
    } else if k == 21 {
        crate::registers::REG_EFFICIENCY_PCT as int
    } else if k == 22 {
        crate::registers::REG_POA_IRRADIANCE as int
    } else if k == 23 {
        crate::registers::REG_SOLAR_ELEVATION as int
    } else if k == 24 {
        crate::registers::REG_PERF_RATIO as int
    } else if k == 25 {
        crate::registers::REG_SPECIFIC_YIELD as int
    } else if k == 26 {
        crate::registers::REG_CAPACITY_FACTOR as int
    } else if k == 27 {
        crate::registers::REG_ISOLATION_MOHM as int
    } else if k == 28 {
        crate::registers::REG_FAULT_CODE as int
    } else if k == 29 {
        crate::registers::REG_ALARM_FLAGS as int
    } else if k == 30 {
        crate::registers::REG_DAILY_ENERGY_KWH as int
    } else if k == 31 {
        crate::registers::REG_MONTHLY_ENERGY_KWH as int
    } else if k == 32 {
        crate::registers::REG_TOTAL_ENERGY_KWH as int
    } else {
        0
    }
}

/// Register count of the k-th row of the register-map description.
pub open spec fn info_len_s(k: int) -> int {
    if k == 0 {
        2int
    } else if k == 1 {
        2int
    } else if k == 2 {
        2int
    } else if k == 3 {
        2int
    } else if k == 4 {
        2int
    } else if k == 5 {
        1int
    } else if k == 6 {
        2int
    } else if k == 7 {
        2int
    } else if k == 8 {
        2int
    } else if k == 9 {
        2int
    } else if k == 10 {
        2int
    } else if k == 11 {
        2int
    } else if k == 12 {
        2int
    } else if k == 13 {
        2int
    } else if k == 14 {
        2int
    } else if k == 15 {
        2int
    } else if k == 16 {
        2int
    } else if k == 17 {
        2int
    } else if k == 18 {
        2int
    } else if k == 19 {
        2int
    } else if k == 20 {
        2int
    } else if k == 21 {
        2int
    } else if k == 22 {
        2int
    } else if k == 23 {
        2int
    } else if k == 24 {
        2int
    } else if k == 25 {
        2int
    } else if k == 26 {
        2int
    } else if k == 27 {
        2int
    } else if k == 28 {
        1int
    } else if k == 29 {
        1int
    } else if k == 30 {
        2int
    } else if k == 31 {
        2int
    } else if k == 32 {
        2int
    } else {
        0int
    }
}

/// Rows in the register-map description of one plant.
pub const INFO_ROWS: usize = 33;

fn info_row_parts(k: usize) -> (r: (u16, u16, String, String))
    requires
        k < INFO_ROWS,
    ensures
        r.0 as int == info_offset_s(k as int),
        r.1 as int == info_len_s(k as int),
{
    if k == 0 {
        (crate::registers::REG_POWER_KW, 2, String::from_str("float32 IE754"), String::from_str("Active power"))
    } else if k == 1 {
        (crate::registers::REG_VOLTAGE_L1_V, 2, String::from_str("float32 IE754"), String::from_str("AC Voltage L1"))
    } else if k == 2 {
        (crate::registers::REG_CURRENT_L1_A, 2, String::from_str("float32 IE754"), String::from_str("AC Current L1"))
    } else if k == 3 {
        (crate::registers::REG_FREQUENCY_HZ, 2, String::from_str("float32 IE754"), String::from_str("Grid frequency"))
    } else if k == 4 {
        (crate::registers::REG_TEMPERATURE_C, 2, String::from_str("float32 IE754"), String::from_str("Cell temperature"))
    } else if k == 5 {
        (crate::registers::REG_STATUS, 1, String::from_str("u16 raw"), String::from_str("Inverter status"))
    } else if k == 6 {
        (crate::registers::REG_VOLTAGE_L2_V, 2, String::from_str("float32 IE754"), String::from_str("AC Voltage L2"))
    } else if k == 7 {
        (crate::registers::REG_VOLTAGE_L3_V, 2, String::from_str("float32 IE754"), String::from_str("AC Voltage L3"))
    } else if k == 8 {
        (crate::registers::REG_CURRENT_L2_A, 2, String::from_str("float32 IE754"), String::from_str("AC Current L2"))
    } else if k == 9 {
        (crate::registers::REG_CURRENT_L3_A, 2, String::from_str("float32 IE754"), String::from_str("AC Current L3"))
    } else if k == 10 {
        (crate::registers::REG_REACTIVE_POWER_KVAR, 2, String::from_str("float32 IE754"), String::from_str("Reactive power Q"))
    } else if k == 11 {
        (crate::registers::REG_APPARENT_POWER_KVA, 2, String::from_str("float32 IE754"), String::from_str("Apparent power S"))
    } else if k == 12 {
        (crate::registers::REG_POWER_FACTOR, 2, String::from_str("float32 IE754"), String::from_str("Power factor"))
    } else if k == 13 {
        (crate::registers::REG_ROCOF_HZ_S, 2, String::from_str("float32 IE754"), String::from_str("ROCOF df/dt"))
    } else if k == 14 {
        (crate::registers::REG_DC_VOLTAGE_V, 2, String::from_str("float32 IE754"), String::from_str("DC link voltage"))
    } else if k == 15 {
        (crate::registers::REG_DC_CURRENT_A, 2, String::from_str("float32 IE754"), String::from_str("DC string current"))
    } else if k == 16 {
        (crate::registers::REG_DC_POWER_KW, 2, String::from_str("float32 IE754"), String::from_str("DC input power"))
    } else if k == 17 {
        (crate::registers::REG_MPPT_VOLTAGE_V, 2, String::from_str("float32 IE754"), String::from_str("MPPT operating voltage"))
    } else if k == 18 {
        (crate::registers::REG_MPPT_CURRENT_A, 2, String::from_str("float32 IE754"), String::from_str("MPPT operating current"))
    } else if k == 19 {
        (crate::registers::REG_INVERTER_TEMP_C, 2, String::from_str("float32 IE754"), String::from_str("Inverter heatsink temperature"))
    } else if k == 20 {
        (crate::registers::REG_AMBIENT_TEMP_C, 2, String::from_str("float32 IE754"), String::from_str("Ambient temperature"))
    } else if k == 21 {
        (crate::registers::REG_EFFICIENCY_PCT, 2, String::from_str("float32 IE754"), String::from_str("Inverter efficiency"))
    } else if k == 22 {
        (crate::registers::REG_POA_IRRADIANCE, 2, String::from_str("float32 IE754"), String::from_str("Plane-of-Array irradiance"))
    } else if k == 23 {
        (crate::registers::REG_SOLAR_ELEVATION, 2, String::from_str("float32 IE754"), String::from_str("Solar elevation angle"))
    } else if k == 24 {
        (crate::registers::REG_PERF_RATIO, 2, String::from_str("float32 IE754"), String::from_str("Performance Ratio"))
    } else if k == 25 {
        (crate::registers::REG_SPECIFIC_YIELD, 2, String::from_str("float32 IE754"), String::from_str("Specific yield"))
    } else if k == 26 {
        (crate::registers::REG_CAPACITY_FACTOR, 2, String::from_str("float32 IE754"), String::from_str("Capacity factor"))
    } else if k == 27 {
        (crate::registers::REG_ISOLATION_MOHM, 2, String::from_str("float32 IE754"), String::from_str("Isolation resistance DC-GND"))
    } else if k == 28 {
        (crate::registers::REG_FAULT_CODE, 1, String::from_str("u16 raw"), String::from_str("Active fault code"))
    } else if k == 29 {
        (crate::registers::REG_ALARM_FLAGS, 1, String::from_str("u16 raw"), String::from_str("Alarm bitmask"))
    } else if k == 30 {
        (crate::registers::REG_DAILY_ENERGY_KWH, 2, String::from_str("float32 IE754"), String::from_str("Energy today"))
    } else if k == 31 {
        (crate::registers::REG_MONTHLY_ENERGY_KWH, 2, String::from_str("float32 IE754"), String::from_str("Energy this month"))
    } else if k == 32 {
        (crate::registers::REG_TOTAL_ENERGY_KWH, 2, String::from_str("float32 IE754"), String::from_str("Lifetime energy"))
    } else {
        (0, 0, String::from_str("u16 raw"), String::from_str("reserved"))
    }
}

/// The register-map description: one row per mapped field per plant,
/// each at its plant's base address plus the field's offset.
pub fn modbus_info_entries(cfg: &Config) -> (out: Vec<ModbusInfo>)
    requires
        forall |i: int|
            0 <= i < cfg.plants@.len() ==> crate::config::valid_plant_s(#[trigger] cfg.plants@[i]),
    ensures
        out@.len() == cfg.plants@.len() * INFO_ROWS as int,
        forall |p: int, k: int|
            0 <= p < cfg.plants@.len() && 0 <= k < INFO_ROWS as int ==> {
                let row = #[trigger] out@[p * INFO_ROWS as int + k];
                row.plant_id@ == cfg.plants@[p].id@ && row.register_address as int == cfg.plants@[
                p].modbus_mapping.base_address as int + info_offset_s(k) && row.length as int
                    == info_len_s(k)
            },
{
    let mut out: Vec<ModbusInfo> = Vec::new();
    let np = cfg.plants.len();
    let mut p: usize = 0;
    while p < np
        invariant
            0 <= p <= np,
            np == cfg.plants@.len(),
            out@.len() == p * INFO_ROWS as int,
            forall |i: int|
                0 <= i < cfg.plants@.len() ==> crate::config::valid_plant_s(
                    #[trigger] cfg.plants@[i],
                ),
            forall |q: int, k: int|
                0 <= q < p && 0 <= k < INFO_ROWS as int ==> {
                    let row = #[trigger] out@[q * INFO_ROWS as int + k];
                    row.plant_id@ == cfg.plants@[q].id@ && row.register_address as int
                        == cfg.plants@[q].modbus_mapping.base_address as int + info_offset_s(k)
                        && row.length as int == info_len_s(k)
                },
        decreases np - p,
    {
        let plant = &cfg.plants[p];
        let mut k: usize = 0;
        while k < INFO_ROWS
            invariant
                0 <= k <= INFO_ROWS,
                0 <= p < np,
                np == cfg.plants@.len(),
                out@.len() == p * INFO_ROWS as int + k as int,
                crate::config::valid_plant_s(cfg.plants@[p as int]),
                plant == &cfg.plants[p as int],
                forall |i: int|
                    0 <= i < cfg.plants@.len() ==> crate::config::valid_plant_s(
                        #[trigger] cfg.plants@[i],
                    ),
                forall |q: int, kk: int|
                    (0 <= q < p && 0 <= kk < INFO_ROWS as int) || (q == p as int && 0 <= kk
                        < k as int) ==> {
                        let row = #[trigger] out@[q * INFO_ROWS as int + kk];
                        row.plant_id@ == cfg.plants@[q].id@ && row.register_address as int
                            == cfg.plants@[q].modbus_mapping.base_address as int + info_offset_s(
                            kk,
                        ) && row.length as int == info_len_s(kk)
                    },
            decreases INFO_ROWS - k,
    {
            let parts = info_row_parts(k);
            let mut description = parts.3;
            description.append(" - ");
            description.append(plant.name.as_str());
            let row = ModbusInfo {
                plant_id: plant.id.clone(),
                register_address: plant.modbus_mapping.base_address + parts.0,
                length: parts.1,
                data_type: parts.2,
                description,
            };
            out.push(row);
            k = k + 1;
        }
        p = p + 1;
    }
    out
}

/// Alarms of one plant with the query's defaults (all alarms, limit 100).
pub fn plant_alarms_response(state: &AppState, plant_id: &String, q: &crate::config::AlarmQuery)
    -> (r: Vec<crate::alarms::Alarm>)
    ensures
        r@ == crate::alarms::listed_alarms_s(
            state.alarms.items@,
            Option::Some(plant_id@),
            (match q.active_only {
                Option::Some(a) => a,
                Option::None => false,
            }),
            (match q.limit {
                Option::Some(l) => l as int,
                Option::None => 100,
            }),
        ),
        r@.len() <= (match q.limit {
            Option::Some(l) => l as int,
            Option::None => 100,
        }),
{
    let limit = match q.limit {
        Some(l) => l,
        None => 100,
    };
    let active = match q.active_only {
        Some(a) => a,
        None => false,
    };
    state.alarms.list(Some(plant_id), active, limit)
}

/// Alarms across all plants with the query's defaults (limit 200).
pub fn all_alarms_response(state: &AppState, q: &crate::config::AlarmQuery) -> (r: Vec<
    crate::alarms::Alarm,
>)
    ensures
        r@ == crate::alarms::listed_alarms_s(
            state.alarms.items@,
            Option::None,
            (match q.active_only {
                Option::Some(a) => a,
                Option::None => false,
            }),
            (match q.limit {
                Option::Some(l) => l as int,
                Option::None => 200,
            }),
        ),
        r@.len() <= (match q.limit {
            Option::Some(l) => l as int,
            Option::None => 200,
        }),
{
    let limit = match q.limit {
        Some(l) => l,
        None => 200,
    };
    let active = match q.active_only {
        Some(a) => a,
        None => false,
    };
    state.alarms.list(None, active, limit)
}

/// Events with the query's defaults (limit 100, capped at the log size).
pub fn events_response(state: &AppState, q: &crate::config::EventQuery) -> (r: Vec<
    crate::events::Event,
>)
    ensures
        forall |k: int|
            0 <= k < r@.len() ==> r@[k] == state.events.items@[state.events.items@.len() - 1 - k],
{
    let limit = match q.limit {
        Some(l) => if l > 1000 {
            1000
        } else {
            l
        },
        None => 100,
    };
    state.get_events(limit)
}

/// The fleet's register image: one block per configured plant at its
/// base address, zero-filled until the plant has produced a record.
pub fn fleet_blocks(state: &AppState, cfg: &Config) -> (blocks: Vec<
    crate::registers::PlantBlock,
>)
    requires
        state.wf(),
    ensures
        blocks@.len() == cfg.plants@.len(),
        forall |i: int|
            0 <= i < blocks@.len() ==> (#[trigger] blocks@[i]).base == cfg.plants@[
            i].modbus_mapping.base_address && blocks@[i].regs@.len() == 100,
        forall |i: int, q: int|
            0 <= i < blocks@.len() && 0 <= q < state.plants@.len() && (#[trigger] state.plants@[
            q]).id@ == (#[trigger] cfg.plants@[i]).id@ ==> (forall |j: int|
                0 <= j < 100 ==> (#[trigger] blocks@[i].regs@[j]) as int
                    == crate::registers::block_word_s(state.plants@[q].data, j)),
        forall |i: int| #![trigger blocks@[i]]
            0 <= i < blocks@.len() && (forall |q: int|
                0 <= q < state.plants@.len() ==> (#[trigger] state.plants@[q]).id@
                    != cfg.plants@[i].id@) ==> (forall |j: int|
                0 <= j < 100 ==> (blocks@[i].regs@[j]) == 0),
{
    let mut blocks: Vec<crate::registers::PlantBlock> = Vec::new();
    let np = cfg.plants.len();
    let mut p: usize = 0;
    while p < np
        invariant
            0 <= p <= np,
            np == cfg.plants@.len(),
            state.wf(),
            blocks@.len() == p as int,
            forall |i: int|
                0 <= i < p ==> (#[trigger] blocks@[i]).base == cfg.plants@[
                i].modbus_mapping.base_address && blocks@[i].regs@.len() == 100,
            forall |i: int, q: int|
                0 <= i < p && 0 <= q < state.plants@.len() && (#[trigger] state.plants@[
                q]).id@ == (#[trigger] cfg.plants@[i]).id@ ==> (forall |j: int|
                    0 <= j < 100 ==> (#[trigger] blocks@[i].regs@[j]) as int
                        == crate::registers::block_word_s(state.plants@[q].data, j)),
            forall |i: int| #![trigger blocks@[i]]
                0 <= i < p && (forall |q: int|
                    0 <= q < state.plants@.len() ==> (#[trigger] state.plants@[q]).id@
                        != cfg.plants@[i].id@) ==> (forall |j: int|
                    0 <= j < 100 ==> (blocks@[i].regs@[j]) == 0),
        decreases np - p,
    {
        let plant = &cfg.plants[p];
        let found = state.get_data(&plant.id);
        let regs: Vec<u16> = match found {
            Some(d) => {
                proof {
                    assert(crate::registers::wf_block_fields(d));
                }
                let r = crate::registers::encode_block(&d);
                proof {
                    let w = choose |w: int|
                        0 <= w < state.plants@.len() && (#[trigger] state.plants@[w]).id@
                            == plant.id@ && state.plants@[w].data == d;
                    assert forall |q: int|
                        0 <= q < state.plants@.len() && (#[trigger] state.plants@[q]).id@
                            == plant.id@ implies state.plants@[q].data == d by {
                        assert(state.plants@[q].id@ == state.plants@[w].id@);
                    }
                }
                r
            },
            None => {
                let mut z: Vec<u16> = Vec::new();
                let mut j: usize = 0;
                while j < 100
                    invariant
                        0 <= j <= 100,
                        z@.len() == j as int,
                        forall |m: int| 0 <= m < j ==> (#[trigger] z@[m]) == 0,
                    decreases 100 - j,
                {
                    z.push(0);
                    j = j + 1;
                }
                z
            },
        };
        blocks.push(crate::registers::PlantBlock { base: plant.modbus_mapping.base_address, regs });
        p = p + 1;
    }
    blocks
}

} // verus!