use solar_panel_sim::clock::UtcTime;
use solar_panel_sim::estimator::OfflineEstimate;
use solar_panel_sim::plant::alarm_conditions;
use solar_panel_sim::plant::alarm_flags_of;
use solar_panel_sim::plant::efficiency;
use solar_panel_sim::plant::fault_code_of;
use solar_panel_sim::plant::ramp_next;
use solar_panel_sim::plant::status_of;
use solar_panel_sim::plant::tick;
use solar_panel_sim::plant::PlantData;
use solar_panel_sim::plant::STATUS_FAULT;

const ONE: i64 = 1_000_000;

fn sunny_estimate() -> OfflineEstimate {
    OfflineEstimate {
        power_kw: 800 * ONE,
        ghi_w_m2: 850 * ONE,
        cell_temp_c: 40 * ONE,
        ambient_temp_c: 25 * ONE,
        weather_code: 0,
        is_day: true,
        cloud_factor: 900_000,
        solar_elevation_deg: 55 * ONE,
        wind_speed_m_s: 3 * ONE,
        relative_humidity_pct: 55 * ONE,
        soiling_factor: 950_000,
    }
}

fn noon() -> UtcTime {
    UtcTime { year: 2025, month: 6, day: 21, hour: 12, minute: 0, second: 0 }
}

#[test]
fn ramp_moves_at_most_eight_percent_per_tick() {
    // From a standing start toward full sun the first step is exactly 0.08.
    let r1 = ramp_next(0, 500 * ONE, true);
    assert_eq!(r1, 80_000);
    let r2 = ramp_next(r1, 500 * ONE, true);
    assert_eq!(r2 - r1, 73_600);
    // Night: decay toward zero, again bounded by 0.08.
    let down = ramp_next(ONE, 0, false);
    assert_eq!(down, ONE - 80_000);
    // Hysteresis band: between 15 and 30 W/m2 the ramp holds.
    let hold = ramp_next(400_000, 20 * ONE, true);
    assert_eq!(hold, 400_000);
}

#[test]
fn tick_ramp_delta_is_bounded() {
    let prev = PlantData::default();
    let est = sunny_estimate();
    let t = noon();
    let d1 = tick(&prev, &est, 45_070_000, 7_330_000, 1000 * ONE, &t);
    assert!((d1.ramp_factor - prev.ramp_factor).abs() <= 80_000);
    let d2 = tick(&d1, &est, 45_070_000, 7_330_000, 1000 * ONE, &t);
    assert!((d2.ramp_factor - d1.ramp_factor).abs() <= 80_000);
}

#[test]
fn tick_power_stays_inside_nameplate_window() {
    let mut d = PlantData::default();
    let est = sunny_estimate();
    let t = noon();
    for _ in 0..60 {
        d = tick(&d, &est, 45_070_000, 7_330_000, 1000 * ONE, &t);
        assert!(d.power_kw >= 0);
        assert!(d.power_kw <= 1100 * ONE);
    }
}

#[test]
fn tick_apparent_power_triangle_closes() {
    let mut d = PlantData::default();
    let est = sunny_estimate();
    let t = noon();
    for _ in 0..40 {
        d = tick(&d, &est, 45_070_000, 7_330_000, 1000 * ONE, &t);
        let p = d.power_kw as i128;
        let q = d.reactive_power_kvar as i128;
        let s = d.apparent_power_kva as i128;
        assert!(s >= p);
        assert!((s * s - (p * p + q * q)).abs() <= s);
    }
}

#[test]
fn tick_status_and_flags_are_coherent() {
    let mut d = PlantData::default();
    let est = sunny_estimate();
    let t = noon();
    for _ in 0..40 {
        d = tick(&d, &est, 45_070_000, 7_330_000, 1000 * ONE, &t);
        assert_eq!(d.status == STATUS_FAULT, d.alarm_flags != 0 || d.fault_code != 0);
    }
}

#[test]
fn midnight_reset_clears_daily_counters_only() {
    let est = sunny_estimate();
    let day1 = UtcTime { year: 2025, month: 6, day: 21, hour: 23, minute: 59, second: 55 };
    let day2 = UtcTime { year: 2025, month: 6, day: 22, hour: 0, minute: 0, second: 0 };
    let mut d = PlantData::default();
    for _ in 0..30 {
        d = tick(&d, &est, 45_070_000, 7_330_000, 1000 * ONE, &day1);
    }
    assert!(d.daily_energy_kwh > 0);
    let before_total = d.total_energy_kwh;
    let before_daily = d.daily_energy_kwh;
    let after = tick(&d, &est, 45_070_000, 7_330_000, 1000 * ONE, &day2);
    // The day-of-year changed: the daily counters restart from this tick.
    assert_eq!(after.daily_energy_kwh, after.power_kw * 5 / 3600);
    assert_eq!(after.daily_peak_power_kw, after.power_kw);
    assert!(after.daily_energy_kwh < before_daily);
    assert!(after.total_energy_kwh >= before_total);
    assert_eq!(after.last_day_reset, 173);
}

#[test]
fn first_tick_records_the_day_without_clearing() {
    let est = sunny_estimate();
    let t = noon();
    let d = tick(&PlantData::default(), &est, 45_070_000, 7_330_000, 1000 * ONE, &t);
    assert_eq!(d.last_day_reset, 172);
    assert_eq!(d.daily_energy_kwh, d.power_kw * 5 / 3600);
}

#[test]
fn overvoltage_sets_code_priority_and_flag_bit() {
    // 260 V average: overvoltage fires with the highest priority.
    let conds = alarm_conditions(
        260 * ONE,
        50 * ONE,
        0,
        10 * ONE,
        100_000,
        50 * ONE,
        false,
        600 * ONE,
    );
    assert_eq!(conds, vec![101]);
    let code = fault_code_of(260 * ONE, 50 * ONE, 0, 10 * ONE, 100_000, 50 * ONE, false, 600 * ONE);
    assert_eq!(code, 101);
    let flags = alarm_flags_of(260 * ONE, 50 * ONE, 10 * ONE, 50 * ONE);
    assert_eq!(flags & 1, 1);
    let st = status_of(code, 500_000, 850 * ONE, 400_000, 400 * ONE, true, 55 * ONE);
    assert_eq!(st, STATUS_FAULT);
    // Back at 230 V everything is healthy again.
    let clear = alarm_conditions(
        230 * ONE,
        50 * ONE,
        0,
        10 * ONE,
        100_000,
        50 * ONE,
        false,
        600 * ONE,
    );
    assert!(clear.is_empty());
}

#[test]
fn fault_priority_follows_the_documented_order() {
    // Undervoltage outranks a frequency excursion.
    let code = fault_code_of(
        200 * ONE,
        51 * ONE,
        0,
        10 * ONE,
        100_000,
        50 * ONE,
        false,
        600 * ONE,
    );
    assert_eq!(code, 102);
    // Isolation outranks overtemperature.
    let code2 = fault_code_of(
        230 * ONE,
        50 * ONE,
        0,
        500_000,
        100_000,
        90 * ONE,
        false,
        600 * ONE,
    );
    assert_eq!(code2, 301);
    // ROCOF comes last.
    let code3 = fault_code_of(230 * ONE, 50 * ONE, 200_000, 10 * ONE, 100_000, 50 * ONE, false, 600 * ONE);
    assert_eq!(code3, 105);
}

#[test]
fn efficiency_matches_the_piecewise_curve() {
    // At 30 percent load and 25 C: 0.955 + 0.0625 (0.3 - 0.1) = 0.9675
    assert_eq!(efficiency(300_000, 25 * ONE), 967_500);
    // Below one percent the inverter is off.
    assert_eq!(efficiency(5_000, 25 * ONE), 0);
    // At five percent: 0.80 + 1.55 * 0.05 = 0.8775
    assert_eq!(efficiency(50_000, 25 * ONE), 877_500);
    // At 80 percent: 0.980 - 0.016 (0.8 - 0.5) = 0.9752
    assert_eq!(efficiency(800_000, 25 * ONE), 975_200);
    // Ten degrees above 25 C shave 0.004 off.
    assert_eq!(efficiency(300_000, 35 * ONE), 967_500 - 4_000);
}

#[test]
fn weather_passthrough_lands_in_the_record() {
    let est = sunny_estimate();
    let t = noon();
    let d = tick(&PlantData::default(), &est, 45_070_000, 7_330_000, 1000 * ONE, &t);
    assert_eq!(d.poa_irradiance_w_m2, est.ghi_w_m2);
    assert_eq!(d.cloud_factor, est.cloud_factor);
    assert_eq!(d.temperature_c, est.cell_temp_c);
    assert_eq!(d.ambient_temp_c, est.ambient_temp_c);
    assert_eq!(d.is_day, est.is_day);
    assert_eq!(d.soiling_factor, est.soiling_factor);
}

#[test]
fn rocof_tracks_the_previous_frequency_sample() {
    let est = sunny_estimate();
    let t = noon();
    let prev = PlantData::default();
    let d = tick(&prev, &est, 45_070_000, 7_330_000, 1000 * ONE, &t);
    assert_eq!(d.rocof_hz_s, (d.frequency_hz - prev.frequency_hz) / 5);
}
