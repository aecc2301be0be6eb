use solar_panel_sim::alarms::AlarmRegistry;
use solar_panel_sim::alarms::AlarmSeverity;
use solar_panel_sim::clock::UtcTime;
use solar_panel_sim::config::Config;
use solar_panel_sim::config::ModbusConfig;
use solar_panel_sim::config::ModbusMapping;
use solar_panel_sim::config::MqttConfig;
use solar_panel_sim::config::PlantConfig;
use solar_panel_sim::config::ServerConfig;
use solar_panel_sim::estimator::estimate;
use solar_panel_sim::events::EventKind;
use solar_panel_sim::facade::global_power;
use solar_panel_sim::facade::health_status;
use solar_panel_sim::facade::modbus_info_entries;
use solar_panel_sim::facade::system_config;
use solar_panel_sim::facade::u64_to_string;
use solar_panel_sim::plant::STATUS_FAULT;
use solar_panel_sim::events::EventKind as EK;
use solar_panel_sim::store::AppState;

const ONE: i64 = 1_000_000;

fn turin_cfg() -> PlantConfig {
    PlantConfig {
        id: String::from("turin-1"),
        name: String::from("Turin One"),
        latitude: 45_070_000,
        longitude: 7_330_000,
        nominal_power_kw: 1000 * ONE,
        timezone: String::from("Europe/Rome"),
        modbus_mapping: ModbusMapping { base_address: 0 },
    }
}

fn full_config() -> Config {
    Config {
        server: ServerConfig { port: 8080 },
        modbus: ModbusConfig { port: 1502 },
        offline_mode: true,
        plants: vec![turin_cfg()],
        mqtt: MqttConfig::default(),
    }
}

fn morning() -> UtcTime {
    UtcTime { year: 2025, month: 6, day: 21, hour: 9, minute: 0, second: 0 }
}

#[test]
fn registry_keeps_one_active_alarm_per_plant_and_code() {
    let mut reg = AlarmRegistry::new();
    let plant = String::from("p1");
    let first = reg.raise(
        String::from("id-1"),
        &plant,
        101,
        AlarmSeverity::Warning,
        String::from("AC overvoltage"),
        1000,
    );
    assert!(first);
    let second = reg.raise(
        String::from("id-2"),
        &plant,
        101,
        AlarmSeverity::Warning,
        String::from("AC overvoltage"),
        1010,
    );
    assert!(!second);
    let active = reg.list(Some(&plant), true, 100);
    assert_eq!(active.len(), 1);
    assert_eq!(active[0].code, 101);
    assert!(active[0].active);
    assert!(active[0].cleared_at.is_none());
}

#[test]
fn clearing_an_alarm_stamps_the_clear_time() {
    let mut reg = AlarmRegistry::new();
    let plant = String::from("p1");
    reg.raise(
        String::from("id-1"),
        &plant,
        301,
        AlarmSeverity::Fault,
        String::from("isolation fault"),
        1000,
    );
    let cleared = reg.clear_by_code(&plant, 301, 2000);
    assert!(cleared);
    assert!(reg.list(Some(&plant), true, 100).is_empty());
    let all = reg.list(Some(&plant), false, 100);
    assert_eq!(all.len(), 1);
    assert!(!all[0].active);
    assert_eq!(all[0].cleared_at, Some(2000));
    // Clearing again is a no-op.
    assert!(!reg.clear_by_code(&plant, 301, 3000));
    // A cleared condition can fire again as a fresh alarm.
    assert!(reg.raise(
        String::from("id-2"),
        &plant,
        301,
        AlarmSeverity::Fault,
        String::from("isolation fault"),
        4000,
    ));
}

#[test]
fn distinct_plants_do_not_share_alarms() {
    let mut reg = AlarmRegistry::new();
    let p1 = String::from("p1");
    let p2 = String::from("p2");
    assert!(reg.raise(String::from("a"), &p1, 101, AlarmSeverity::Warning, String::from("m"), 1));
    assert!(reg.raise(String::from("b"), &p2, 101, AlarmSeverity::Warning, String::from("m"), 2));
    assert_eq!(reg.list(None, true, 100).len(), 2);
    assert_eq!(reg.list(Some(&p1), true, 100).len(), 1);
}

#[test]
fn event_log_is_newest_first_and_capped() {
    let mut state = AppState::new(0);
    for k in 0..1005i64 {
        state.push_event(None, EventKind::SettingChanged, String::from("change"), k);
    }
    let all = state.get_events(2000);
    assert_eq!(all.len(), 1000);
    // Newest first: the last pushed timestamp leads.
    assert_eq!(all[0].timestamp, 1004);
    assert_eq!(all[1].timestamp, 1003);
    assert_eq!(all[999].timestamp, 5);
    // A smaller limit trims from the old end.
    let five = state.get_events(5);
    assert_eq!(five.len(), 5);
    assert_eq!(five[0].timestamp, 1004);
    assert_eq!(five[4].timestamp, 1000);
}

#[test]
fn set_data_stores_a_coherent_record() {
    let mut state = AppState::new(0);
    let cfg = turin_cfg();
    let t = morning();
    let est = estimate(cfg.latitude, cfg.longitude, cfg.nominal_power_kw, &t);
    let d = state.set_data(&cfg, &est, &t);
    assert!(d.power_kw >= 0 && d.power_kw <= cfg.nominal_power_kw * 11 / 10);
    assert_eq!(d.status == STATUS_FAULT, d.alarm_flags != 0 || d.fault_code != 0);
    let read = state.get_data(&cfg.id).expect("plant present after a tick");
    assert_eq!(read.power_kw, d.power_kw);
    assert_eq!(read.last_day_reset, 172);
    assert!(state.get_data(&String::from("missing")).is_none());
}

#[test]
fn repeated_ticks_accumulate_energy_monotonically() {
    let mut state = AppState::new(0);
    let cfg = turin_cfg();
    let t = morning();
    let est = estimate(cfg.latitude, cfg.longitude, cfg.nominal_power_kw, &t);
    let mut last_total = 0i64;
    for _ in 0..20 {
        let d = state.set_data(&cfg, &est, &t);
        assert!(d.total_energy_kwh >= last_total);
        last_total = d.total_energy_kwh;
    }
    assert!(last_total > 0);
}

#[test]
fn mode_toggle_journals_a_mode_change() {
    let mut state = AppState::new(0);
    assert!(!state.is_offline());
    state.set_offline(true, 77);
    assert!(state.is_offline());
    let events = state.get_events(10);
    assert!(!events.is_empty());
    assert_eq!(events[0].kind, EventKind::ModeChange);
    assert_eq!(events[0].timestamp, 77);
    state.set_offline(false, 99);
    assert!(!state.is_offline());
}

#[test]
fn uptime_counts_from_start_time() {
    let state = AppState::new(1_000);
    assert_eq!(state.uptime_seconds(1_060), 60);
    assert_eq!(state.uptime_seconds(900), 0);
}

#[test]
fn global_power_sums_the_fleet() {
    let mut state = AppState::new(0);
    let cfg = full_config();
    let t = morning();
    let est = estimate(45_070_000, 7_330_000, 1000 * ONE, &t);
    let d = state.set_data(&cfg.plants[0], &est, &t);
    let g = global_power(&state, &cfg);
    assert_eq!(g.total_power_kw, d.power_kw);
    assert_eq!(g.total_nominal_kw, 1000 * ONE);
    assert_eq!(g.plants_total, 1);
    assert_eq!(g.per_plant.len(), 1);
    assert_eq!(g.per_plant[0].0, String::from("turin-1"));
    assert_eq!(g.per_plant[0].1, d.power_kw);
}

#[test]
fn health_reports_totals_and_flags() {
    let mut state = AppState::new(0);
    let cfg = full_config();
    let t = morning();
    let est = estimate(45_070_000, 7_330_000, 1000 * ONE, &t);
    state.set_data(&cfg.plants[0], &est, &t);
    let h = health_status(&state, &cfg, 120, String::from("1.0.0"));
    assert_eq!(h.status, String::from("ok"));
    assert_eq!(h.plants_total, 1);
    assert_eq!(h.uptime_seconds, 120);
    assert!(!h.offline_mode);
    assert!(!h.mqtt_connected);
}

#[test]
fn decimal_rendering_matches() {
    assert_eq!(u64_to_string(0), String::from("0"));
    assert_eq!(u64_to_string(7), String::from("7"));
    assert_eq!(u64_to_string(1883), String::from("1883"));
    assert_eq!(u64_to_string(65535), String::from("65535"));
}

#[test]
fn system_config_reports_ports_and_endpoints() {
    let cfg = full_config();
    let sc = system_config(&cfg);
    assert_eq!(sc.api_port, 8080);
    assert_eq!(sc.modbus_port, 1502);
    assert_eq!(sc.websocket_endpoint, String::from("/ws/telemetry"));
    assert_eq!(sc.prometheus_endpoint, String::from("/metrics"));
    assert!(sc.mqtt_broker.is_none());
}

#[test]
fn modbus_info_lists_every_row_per_plant() {
    let cfg = full_config();
    let rows = modbus_info_entries(&cfg);
    assert_eq!(rows.len(), 33);
    assert_eq!(rows[0].register_address, 0);
    assert_eq!(rows[0].length, 2);
    assert_eq!(rows[5].register_address, 10);
    assert_eq!(rows[5].length, 1);
    assert!(rows.iter().all(|r| r.plant_id == String::from("turin-1")));
}

#[test]
fn overvoltage_epoch_raises_and_clears_alarm_101() {
    // The ten-minute grid window starting 2025-06-21 09:00 UTC carries a
    // deterministic overvoltage excursion for the Turin coordinates; the
    // following window is healthy.
    let mut state = AppState::new(0);
    let cfg = turin_cfg();
    let t1 = UtcTime { year: 2025, month: 6, day: 21, hour: 9, minute: 0, second: 0 };
    let est1 = estimate(cfg.latitude, cfg.longitude, cfg.nominal_power_kw, &t1);
    let d1 = state.set_data(&cfg, &est1, &t1);
    let v_avg1 = (d1.voltage_l1_v + d1.voltage_l2_v + d1.voltage_l3_v) / 3;
    assert!(v_avg1 > 253 * ONE, "expected an overvoltage excursion, got {}", v_avg1);
    assert_eq!(d1.fault_code, 101);
    assert_eq!(d1.alarm_flags & 1, 1);
    assert_eq!(d1.status, STATUS_FAULT);
    let active = state.get_active_alarms(Some(&cfg.id), 100);
    assert!(active.iter().any(|a| a.code == 101 && a.active));
    assert!(state.get_events(50).iter().any(|e| e.kind == EK::AlarmRaised));

    let t2 = UtcTime { year: 2025, month: 6, day: 21, hour: 9, minute: 10, second: 0 };
    let est2 = estimate(cfg.latitude, cfg.longitude, cfg.nominal_power_kw, &t2);
    let d2 = state.set_data(&cfg, &est2, &t2);
    let v_avg2 = (d2.voltage_l1_v + d2.voltage_l2_v + d2.voltage_l3_v) / 3;
    assert!(v_avg2 < 253 * ONE && v_avg2 > 207 * ONE);
    assert_eq!(d2.alarm_flags & 1, 0);
    let all = state.get_alarms(Some(&cfg.id), 100);
    let a101 = all.iter().find(|a| a.code == 101).expect("alarm 101 stays on record");
    assert!(!a101.active);
    assert!(a101.cleared_at.is_some());
    assert!(state.get_active_alarms(Some(&cfg.id), 100).iter().all(|a| a.code != 101));
    assert!(state.get_events(50).iter().any(|e| e.kind == EK::AlarmCleared));
}

#[test]
fn clear_plant_alarms_stamps_and_keeps_other_plants() {
    let mut reg_state = AppState::new(0);
    let p1 = String::from("p1");
    let p2 = String::from("p2");
    reg_state.alarms.raise(String::from("a"), &p1, 101, AlarmSeverity::Warning, String::from("m"), 10);
    reg_state.alarms.raise(String::from("b"), &p2, 301, AlarmSeverity::Fault, String::from("m"), 11);
    let n = reg_state.clear_plant_alarms(&p1, 99);
    assert_eq!(n, 1);
    let p1_all = reg_state.get_alarms(Some(&p1), 100);
    assert!(!p1_all[0].active);
    assert_eq!(p1_all[0].cleared_at, Some(99));
    // The other plant's alarm is untouched.
    let p2_all = reg_state.get_alarms(Some(&p2), 100);
    assert!(p2_all[0].active);
    assert!(p2_all[0].cleared_at.is_none());
}

#[test]
fn global_power_fleet_ratio_is_the_mean() {
    let mut state = AppState::new(0);
    let cfg = full_config();
    let t = morning();
    let est = estimate(45_070_000, 7_330_000, 1000 * ONE, &t);
    let d = state.set_data(&cfg.plants[0], &est, &t);
    let g = global_power(&state, &cfg);
    // One plant: the fleet ratio is that plant's performance ratio.
    assert_eq!(g.fleet_performance_ratio, d.performance_ratio);
    let empty = AppState::new(0);
    assert_eq!(global_power(&empty, &cfg).fleet_performance_ratio, 0);
}
