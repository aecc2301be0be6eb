//! Shared application state.
//!
//! One store holds the latest record per plant, the alarm registry, the
//! event journal, the runtime mode flags and the start time.  `set_data`
//! performs one engine tick and synchronises the alarm registry with the
//! conditions the new record shows: new conditions raise alarms (with an
//! `AlarmRaised` event), conditions that ceased clear them (with an
//! `AlarmCleared` event).  The callers that need concurrency wrap the
//! whole store in their own lock; every method here is a plain sequential
//! transition.

use vstd::prelude::*;

use crate::alarms::Alarm;
use crate::alarms::AlarmRegistry;
use crate::alarms::severity_of;
use crate::clock::UtcTime;
use crate::clock::unix_seconds;
use crate::clock::unix_seconds_s;
use crate::clock::valid_time_s;
use crate::config::PlantConfig;
use crate::config::valid_plant_s;
use crate::estimator::OfflineEstimate;
use crate::events::Event;
use crate::events::EventKind;
use crate::events::EventLog;
use crate::fp::ONE;
use crate::fp::in_range;
use crate::plant::PlantData;
use crate::plant::tick;
use crate::plant::wf_plant_s;

verus! {

/// Relies on uuid::Uuid::new_v4 and its Display form: a fresh random
/// identifier rendered in the canonical 36-character hyphenated form.
#[verifier::external_body]
fn fresh_id() -> (r: String)
    ensures
        r@.len() == 36,
{
    uuid::Uuid::new_v4().to_string()
}

/// The latest record of one plant.
pub struct PlantEntry {
    pub id: String,
    pub data: PlantData,
}

/// The process-wide shared state.
pub struct AppState {
    pub plants: Vec<PlantEntry>,
    pub alarms: AlarmRegistry,
    pub events: EventLog,
    pub offline_mode: bool,
    pub mqtt_connected: bool,
    /// Unix seconds at process start.
    pub start_time: i64,
}

/// Every plant id appears at most once.
pub open spec fn plants_unique_s(s: Seq<PlantEntry>) -> bool {
    forall |i: int, j: int|
        0 <= i < s.len() && 0 <= j < s.len() && i != j ==> (#[trigger] s[i]).id@ != (
        #[trigger] s[j]).id@
}

/// The record a plant held before a tick: the stored entry's data, or the
/// default record for a plant seen for the first time.
pub open spec fn prior_data_s(s: Seq<PlantEntry>, id: Seq<char>) -> PlantData {
    if exists |i: int| 0 <= i < s.len() && (#[trigger] s[i]).id@ == id {
        s[choose |i: int| 0 <= i < s.len() && (#[trigger] s[i]).id@ == id].data
    } else {
        crate::plant::default_plant_s()
    }
}

impl AppState {
    pub open spec fn wf(&self) -> bool {
        &&& plants_unique_s(self.plants@)
        &&& self.alarms.wf()
        &&& self.events.wf()
        &&& forall |i: int| 0 <= i < self.plants@.len() ==> wf_plant_s((#[trigger] self.plants@[i]).data)
    }

    /// A fresh store with no plants, alarms or events.
    pub fn new(start_time: i64) -> (r: AppState)
        ensures
            r.wf(),
            r.plants@.len() == 0,
            r.alarms.items@.len() == 0,
            r.events.items@.len() == 0,
            r.offline_mode == false,
            r.mqtt_connected == false,
            r.start_time == start_time,
    {
        AppState {
            plants: Vec::new(),
            alarms: AlarmRegistry::new(),
            events: EventLog::new(),
            offline_mode: false,
            mqtt_connected: false,
            start_time,
        }
    }

    /// Index of a plant's entry.
    fn find_plant(&self, plant_id: &String) -> (r: Option<usize>)
        ensures
            match r {
                Option::Some(i) => i < self.plants@.len() && self.plants@[i as int].id@
                    == plant_id@,
                Option::None => forall |i: int|
                    0 <= i < self.plants@.len() ==> (#[trigger] self.plants@[i]).id@ != plant_id@,
            },
    {
        let n = self.plants.len();
        let mut k: usize = 0;
        while k < n
            invariant
                0 <= k <= n,
                n == self.plants@.len(),
                forall |i: int| 0 <= i < k ==> (#[trigger] self.plants@[i]).id@ != plant_id@,
            decreases n - k,
        {
            if self.plants[k].id.eq(plant_id) {
                return Some(k);
            }
            k = k + 1;
        }
        None
    }

    /// The latest record of one plant, if it has produced any.
    pub fn get_data(&self, plant_id: &String) -> (r: Option<PlantData>)
        ensures
            match r {
                Option::Some(d) => exists |i: int|
                    0 <= i < self.plants@.len() && (#[trigger] self.plants@[i]).id@ == plant_id@
                        && self.plants@[i].data == d,
                Option::None => forall |i: int|
                    0 <= i < self.plants@.len() ==> (#[trigger] self.plants@[i]).id@ != plant_id@,
            },
    {
        match self.find_plant(plant_id) {
            Some(i) => {
                let d = self.plants[i].data;
                proof {
                    assert(self.plants@[i as int].id@ == plant_id@ && self.plants@[
                    i as int].data == d);
                }
                Some(d)
            },
            None => None,
        }
    }

    /// A snapshot of every plant's latest record.
    pub fn get_all_data(&self) -> (r: Vec<(String, PlantData)>)
        ensures
            r@.len() == self.plants@.len(),
            forall |i: int|
                0 <= i < r@.len() ==> (#[trigger] r@[i]).0@ == self.plants@[i].id@ && r@[
                i].1 == self.plants@[i].data,
    {
        let mut out: Vec<(String, PlantData)> = Vec::new();
        let n = self.plants.len();
        let mut k: usize = 0;
        while k < n
            invariant
                0 <= k <= n,
                n == self.plants@.len(),
                out@.len() == k as int,
                forall |i: int|
                    0 <= i < k ==> (#[trigger] out@[i]).0@ == self.plants@[i].id@ && out@[
                    i].1 == self.plants@[i].data,
            decreases n - k,
        {
            let entry = &self.plants[k];
            out.push((entry.id.clone(), entry.data));
            k = k + 1;
        }
        out
    }

    /// Append one journal entry with a fresh identifier.
    pub fn push_event(
        &mut self,
        plant_id: Option<String>,
        kind: EventKind,
        message: String,
        now: i64,
    )
        requires
            old(self).wf(),
        ensures
            final(self).wf(),
            final(self).plants@ == old(self).plants@,
            final(self).alarms == old(self).alarms,
            final(self).events.items@.len() > 0,
            final(self).events.items@.len() >= old(self).events.items@.len(),
            final(self).events.items@.last().kind == kind,
            final(self).events.items@.last().timestamp == now,
            final(self).events.items@.last().plant_id == plant_id,
            old(self).events.items@.len() < crate::events::EVENT_LOG_CAP as int ==> final(self).events.items@.len()
                == old(self).events.items@.len() + 1 && (forall |i: int|
                0 <= i < old(self).events.items@.len() ==> final(self).events.items@[i] == old(
                self).events.items@[i]),
            final(self).offline_mode == old(self).offline_mode,
            final(self).mqtt_connected == old(self).mqtt_connected,
            final(self).start_time == old(self).start_time,
    {
        let e = Event {
            id: fresh_id(),
            plant_id,
            kind,
            message,
            timestamp: now,
            payload: None,
        };
        self.events.push_event(e);
    }

    /// The newest events, newest first, at most `limit` of them.
    pub fn get_events(&self, limit: usize) -> (r: Vec<Event>)
        ensures
            r@.len() == vstd::math::min(limit as int, self.events.items@.len() as int),
            forall |k: int|
                0 <= k < r@.len() ==> r@[k] == self.events.items@[self.events.items@.len() - 1
                    - k],
    {
        self.events.list_events(limit)
    }

    /// Alarms matching a plant filter, oldest first, up to the limit.
    pub fn get_alarms(&self, plant_id: Option<&String>, limit: usize) -> (r: Vec<Alarm>)
        ensures
            r@ == crate::alarms::listed_alarms_s(
                self.alarms.items@,
                match plant_id {
                    Option::Some(p) => Option::Some(p@),
                    Option::None => Option::None,
                },
                false,
                limit as int,
            ),
            r@.len() <= limit,
    {
        self.alarms.list(plant_id, false, limit)
    }

    /// Active alarms matching a plant filter, oldest first, up to the
    /// limit.
    pub fn get_active_alarms(&self, plant_id: Option<&String>, limit: usize) -> (r: Vec<Alarm>)
        ensures
            r@ == crate::alarms::listed_alarms_s(
                self.alarms.items@,
                match plant_id {
                    Option::Some(p) => Option::Some(p@),
                    Option::None => Option::None,
                },
                true,
                limit as int,
            ),
            r@.len() <= limit,
            forall |k: int| 0 <= k < r@.len() ==> (#[trigger] r@[k]).active,
    {
        self.alarms.list(plant_id, true, limit)
    }

    /// Acknowledge every active alarm of one plant, journalling the
    /// clearing: each such entry is marked inactive with the clear time
    /// stamped, and every other entry (other plants, already-inactive
    /// history) is left exactly as it was.
    pub fn clear_plant_alarms(&mut self, plant_id: &String, now: i64) -> (n: usize)
        requires
            old(self).wf(),
        ensures
            final(self).wf(),
            final(self).alarms.items@.len() == old(self).alarms.items@.len(),
            forall |i: int|
                0 <= i < final(self).alarms.items@.len() ==> !((#[trigger] final(self).alarms.items@[i]).active
                    && final(self).alarms.items@[i].plant_id@ == plant_id@),
            forall |i: int|
                0 <= i < old(self).alarms.items@.len() && !((#[trigger] old(
                self).alarms.items@[i]).active && old(self).alarms.items@[i].plant_id@
                    == plant_id@) ==> final(self).alarms.items@[i] == old(self).alarms.items@[i],
            forall |i: int|
                0 <= i < old(self).alarms.items@.len() && (#[trigger] old(
                self).alarms.items@[i]).active && old(self).alarms.items@[i].plant_id@
                    == plant_id@ ==> final(self).alarms.items@[i]
                    == crate::alarms::cleared_copy_s(old(self).alarms.items@[i], now),
            n > 0 ==> final(self).events.items@.len() > 0 && final(
            self).events.items@.last().kind == EventKind::AlarmCleared && final(
            self).events.items@.last().timestamp == now,
            final(self).plants@ == old(self).plants@,
            final(self).offline_mode == old(self).offline_mode,
            final(self).start_time == old(self).start_time,
    {
        let n = self.alarms.clear_all_for_plant(plant_id, now);
        if n > 0 {
            self.push_event(
                Some(plant_id.clone()),
                EventKind::AlarmCleared,
                String::from_str("alarms acknowledged"),
                now,
            );
        }
        n
    }

    pub fn is_offline(&self) -> (r: bool)
        ensures
            r == self.offline_mode,
    {
        self.offline_mode
    }

    /// Flip the irradiance-source mode, journalling the change.
    pub fn set_offline(&mut self, enabled: bool, now: i64)
        requires
            old(self).wf(),
        ensures
            final(self).wf(),
            final(self).offline_mode == enabled,
            final(self).plants@ == old(self).plants@,
            final(self).events.items@.len() > 0,
            final(self).events.items@.last().kind == EventKind::ModeChange,
    {
        self.offline_mode = enabled;
        let msg = if enabled {
            String::from_str("offline mode enabled")
        } else {
            String::from_str("online mode enabled")
        };
        self.push_event(None, EventKind::ModeChange, msg, now);
    }

    pub fn set_mqtt_connected(&mut self, connected: bool)
        requires
            old(self).wf(),
        ensures
            final(self).wf(),
            final(self).mqtt_connected == connected,
            final(self).plants@ == old(self).plants@,
            final(self).events == old(self).events,
            final(self).alarms == old(self).alarms,
            final(self).offline_mode == old(self).offline_mode,
    {
        self.mqtt_connected = connected;
    }

    pub fn is_mqtt_connected(&self) -> (r: bool)
        ensures
            r == self.mqtt_connected,
    {
        self.mqtt_connected
    }

    /// Seconds the process has been running at `now`.
    pub fn uptime_seconds(&self, now: i64) -> (r: u64)
        ensures
            now >= self.start_time ==> r == now - self.start_time,
            now < self.start_time ==> r == 0,
    {
        if now >= self.start_time {
            ((now as i128) - (self.start_time as i128)) as u64
        } else {
            0
        }
    }

    /// One simulation tick for one plant: derive the next record from the
    /// estimate (relative to the plant's prior record, or the default
    /// record on first sight), store it, and synchronise the alarm
    /// registry and journal with the record's protection conditions.
    /// Returns the new record.  The alarm and journal clauses that rest
    /// on entries keeping their positions are stated for histories still
    /// below their caps, where no eviction can have occurred.
    pub fn set_data(&mut self, cfg: &PlantConfig, est: &OfflineEstimate, t: &UtcTime) -> (r:
        PlantData)
        requires
            old(self).wf(),
            valid_plant_s(*cfg),
            valid_time_s(*t),
            0 <= est.power_kw,
            in_range(est.power_kw as int),
            in_range(est.ghi_w_m2 as int),
            in_range(est.cell_temp_c as int),
            in_range(est.ambient_temp_c as int),
            in_range(est.solar_elevation_deg as int),
            0 <= est.ghi_w_m2,
            50_000 <= est.cloud_factor <= ONE,
            300_000 <= est.wind_speed_m_s <= 18_000_000,
            15_000_000 <= est.relative_humidity_pct <= 98_000_000,
            850_000 <= est.soiling_factor <= ONE,
        ensures
            final(self).wf(),
            wf_plant_s(r),
            exists |i: int|
                0 <= i < final(self).plants@.len() && (#[trigger] final(self).plants@[i]).id@
                    == cfg.id@ && final(self).plants@[i].data == r,
            (exists |i: int|
                0 <= i < old(self).plants@.len() && (#[trigger] old(self).plants@[i]).id@
                    == cfg.id@) ==> final(self).plants@.len() == old(self).plants@.len(),
            !(exists |i: int|
                0 <= i < old(self).plants@.len() && (#[trigger] old(self).plants@[i]).id@
                    == cfg.id@) ==> final(self).plants@.len() == old(self).plants@.len() + 1,
            forall |i: int|
                0 <= i < old(self).plants@.len() && (#[trigger] old(self).plants@[i]).id@
                    != cfg.id@ ==> final(self).plants@[i] == old(self).plants@[i],
            r.ramp_factor as int == crate::plant::ramp_next_s(
                prior_data_s(old(self).plants@, cfg.id@).ramp_factor as int,
                est.ghi_w_m2 as int,
                est.is_day,
            ),
            crate::fp::fabs_s(
                r.ramp_factor as int - prior_data_s(old(self).plants@, cfg.id@).ramp_factor
                    as int,
            ) <= 80_000,
            r.power_kw == crate::plant::p_ac_s(
                prior_data_s(old(self).plants@, cfg.id@),
                *est,
                cfg.nominal_power_kw as int,
            ),
            0 <= r.power_kw as int <= crate::fp::fmuldiv_s(11, cfg.nominal_power_kw as int, 10),
            r.efficiency_percent as int == crate::fp::fscale_s(
                100,
                crate::plant::efficiency_s(
                    crate::plant::load_s(
                        prior_data_s(old(self).plants@, cfg.id@),
                        *est,
                        cfg.nominal_power_kw as int,
                    ),
                    est.cell_temp_c as int,
                ),
            ),
            (r.apparent_power_kva as int, r.reactive_power_kvar as int)
                == crate::plant::sq_of_s(
                prior_data_s(old(self).plants@, cfg.id@),
                *est,
                cfg.nominal_power_kw as int,
            ),
            r.power_kw <= r.apparent_power_kva,
            0 <= r.reactive_power_kvar <= r.apparent_power_kva,
            crate::fp::fabs_s(
                (r.apparent_power_kva as int) * (r.apparent_power_kva as int) - ((
                r.power_kw as int) * (r.power_kw as int) + (r.reactive_power_kvar as int) * (
                r.reactive_power_kvar as int)),
            ) <= r.apparent_power_kva as int,
            (r.status == crate::plant::STATUS_FAULT) <==> (r.alarm_flags != 0 || r.fault_code
                != 0),
            r.fault_code as int == crate::plant::fault_code_s(
                crate::plant::record_v_avg_s(r),
                r.frequency_hz as int,
                r.rocof_hz_s as int,
                r.isolation_resistance_mohm as int,
                r.leakage_current_ma as int,
                r.inverter_temp_c as int,
                r.fan_fault_active,
                r.dc_voltage_v as int,
            ),
            r.alarm_flags as int == crate::plant::alarm_flags_s(
                crate::plant::record_v_avg_s(r),
                r.frequency_hz as int,
                r.isolation_resistance_mohm as int,
                r.inverter_temp_c as int,
            ),
            r.last_day_reset as int == crate::clock::day_of_year_s(*t),
            (prior_data_s(old(self).plants@, cfg.id@).last_day_reset != 0 && prior_data_s(
                old(self).plants@,
                cfg.id@,
            ).last_day_reset as int != crate::clock::day_of_year_s(*t)) ==> r.daily_energy_kwh
                as int == crate::plant::energy_delta_s(r.power_kw as int)
                && r.daily_peak_power_kw == r.power_kw,
            (prior_data_s(old(self).plants@, cfg.id@).last_day_reset as int
                == crate::clock::day_of_year_s(*t) || prior_data_s(
                old(self).plants@,
                cfg.id@,
            ).last_day_reset == 0) ==> r.daily_energy_kwh as int == crate::fp::fadd_s(
                prior_data_s(old(self).plants@, cfg.id@).daily_energy_kwh as int,
                crate::plant::energy_delta_s(r.power_kw as int),
            ) && r.daily_peak_power_kw as int == crate::fp::fmax_s(
                prior_data_s(old(self).plants@, cfg.id@).daily_peak_power_kw as int,
                r.power_kw as int,
            ),
            r.total_energy_kwh as int == crate::fp::fadd_s(
                prior_data_s(old(self).plants@, cfg.id@).total_energy_kwh as int,
                crate::plant::energy_delta_s(r.power_kw as int),
            ),
            r.monthly_energy_kwh as int == crate::fp::fadd_s(
                prior_data_s(old(self).plants@, cfg.id@).monthly_energy_kwh as int,
                crate::plant::energy_delta_s(r.power_kw as int),
            ),
            r.co2_avoided_kg as int == crate::fp::fadd_s(
                prior_data_s(old(self).plants@, cfg.id@).co2_avoided_kg as int,
                crate::fp::fmuldiv_s(
                    233,
                    crate::plant::energy_delta_s(r.power_kw as int),
                    1_000,
                ),
            ),
            r.total_energy_kwh >= prior_data_s(old(self).plants@, cfg.id@).total_energy_kwh,
            r.monthly_energy_kwh >= prior_data_s(
                old(self).plants@,
                cfg.id@,
            ).monthly_energy_kwh,
            r.temperature_c == est.cell_temp_c,
            r.ambient_temp_c == est.ambient_temp_c,
            r.poa_irradiance_w_m2 == est.ghi_w_m2,
            r.cloud_factor == est.cloud_factor,
            r.solar_elevation_deg == est.solar_elevation_deg,
            r.wind_speed_m_s == est.wind_speed_m_s,
            r.relative_humidity_pct == est.relative_humidity_pct,
            r.soiling_factor == est.soiling_factor,
            r.weather_code == est.weather_code,
            r.is_day == est.is_day,
            final(self).alarms.items@.len() >= old(self).alarms.items@.len(),
            final(self).events.items@.len() >= old(self).events.items@.len(),
            final(self).alarms.items@.len() < crate::alarms::ALARM_HISTORY_CAP as int
                ==> (forall |k: int|
                0 <= k < crate::plant::record_conditions_s(r).len()
                    ==> crate::alarms::has_active_s(
                    final(self).alarms.items@,
                    cfg.id@,
                    #[trigger] crate::plant::record_conditions_s(r)[k],
                )),
            forall |c: u16|
                crate::plant::is_monitored_code_s(c) && !crate::plant::record_conditions_s(
                    r,
                ).contains(c) ==> !crate::alarms::has_active_s(
                    final(self).alarms.items@,
                    cfg.id@,
                    c,
                ),
            final(self).alarms.items@.len() < crate::alarms::ALARM_HISTORY_CAP as int
                ==> (forall |i: int|
                0 <= i < old(self).alarms.items@.len() && (#[trigger] old(
                self).alarms.items@[i]).plant_id@ != cfg.id@ ==> final(self).alarms.items@[i]
                    == old(self).alarms.items@[i]),
            final(self).events.items@.len() < crate::events::EVENT_LOG_CAP as int
                ==> (forall |i: int|
                0 <= i < old(self).events.items@.len() ==> final(self).events.items@[i] == old(
                self).events.items@[i]),
            (final(self).events.items@.len() < crate::events::EVENT_LOG_CAP as int && final(
            self).alarms.items@.len() < crate::alarms::ALARM_HISTORY_CAP as int) ==> ((exists |k: int|
                0 <= k < crate::plant::record_conditions_s(r).len()
                    && !crate::alarms::has_active_s(
                    old(self).alarms.items@,
                    cfg.id@,
                    #[trigger] crate::plant::record_conditions_s(r)[k],
                )) ==> (exists |j: int|
                0 <= j < final(self).events.items@.len()
                    && crate::events::event_for_plant_s(
                    #[trigger] final(self).events.items@[j],
                    cfg.id@,
                    EventKind::AlarmRaised,
                    unix_seconds_s(*t) as i64,
                ))),
            (final(self).events.items@.len() < crate::events::EVENT_LOG_CAP as int && final(
            self).alarms.items@.len() < crate::alarms::ALARM_HISTORY_CAP as int) ==> (forall |c: u16|
                crate::plant::is_monitored_code_s(c) && !crate::plant::record_conditions_s(
                    r,
                ).contains(c) && crate::alarms::has_active_s(
                    old(self).alarms.items@,
                    cfg.id@,
                    c,
                ) ==> (exists |j: int|
                0 <= j < final(self).events.items@.len()
                    && crate::events::event_for_plant_s(
                    #[trigger] final(self).events.items@[j],
                    cfg.id@,
                    EventKind::AlarmCleared,
                    unix_seconds_s(*t) as i64,
                ))),
            final(self).offline_mode == old(self).offline_mode,
            final(self).start_time == old(self).start_time,
    {
        let now = unix_seconds(t);
        let idx: usize = match self.find_plant(&cfg.id) {
            Some(i) => i,
            None => {
                let entry = PlantEntry { id: cfg.id.clone(), data: PlantData::default() };
                let ghost pre = self.plants@;
                self.plants.push(entry);
                proof {
                    assert forall |i: int, j: int|
                        0 <= i < self.plants@.len() && 0 <= j < self.plants@.len() && i != j
                        implies (#[trigger] self.plants@[i]).id@ != (
                    #[trigger] self.plants@[j]).id@ by {
                        if i < pre.len() && j < pre.len() {
                            assert(self.plants@[i] == pre[i]);
                            assert(self.plants@[j] == pre[j]);
                        } else if i < pre.len() {
                            assert(self.plants@[i] == pre[i]);
                        } else if j < pre.len() {
                            assert(self.plants@[j] == pre[j]);
                        }
                    }
                }
                self.plants.len() - 1
            },
        };
        let prev = self.plants[idx].data;
        proof {
            assert forall |i: int|
                0 <= i < old(self).plants@.len() && (#[trigger] old(self).plants@[i]).id@
                    == cfg.id@ implies old(self).plants@[i].data == prev by {
                assert(old(self).plants@[i] == self.plants@[i]);
                assert(self.plants@[i].id@ == self.plants@[idx as int].id@);
            }
            if exists |i: int|
                0 <= i < old(self).plants@.len() && (#[trigger] old(self).plants@[i]).id@
                    == cfg.id@ {
                let w = choose |i: int|
                    0 <= i < old(self).plants@.len() && (#[trigger] old(self).plants@[i]).id@
                        == cfg.id@;
                assert(old(self).plants@[w].data == prev);
            }
            assert(prev == prior_data_s(old(self).plants@, cfg.id@));
        }
        let next = tick(&prev, est, cfg.latitude, cfg.longitude, cfg.nominal_power_kw, t);
        proof {
            assert(crate::plant::record_v_avg_s(next) == crate::plant::v_avg_of_s(
                prev,
                *est,
                cfg.nominal_power_kw as int,
                cfg.latitude as int,
                cfg.longitude as int,
                unix_seconds_s(*t) / 5,
                unix_seconds_s(*t) / 600,
            ));
        }
        let ghost before = self.plants@;
        let updated = PlantEntry { id: self.plants[idx].id.clone(), data: next };
        self.plants.set(idx, updated);
        proof {
            assert forall |i: int, j: int|
                0 <= i < self.plants@.len() && 0 <= j < self.plants@.len() && i != j implies (
            #[trigger] self.plants@[i]).id@ != (#[trigger] self.plants@[j]).id@ by {
                assert(self.plants@[i] == before[i] || i == idx as int);
                assert(self.plants@[j] == before[j] || j == idx as int);
                assert(before[i].id@ != before[j].id@);
            }
            assert(self.plants@[idx as int].id@ == cfg.id@ && self.plants@[idx as int].data
                == next);
        }
        self.sync_alarms(&cfg.id, &next, now);
        proof {
            assert(self.plants@[idx as int].id@ == cfg.id@ && self.plants@[idx as int].data
                == next);
        }
        next
    }

    /// Bring the registry in line with the record's protection state:
    /// every condition the record shows ends with an active alarm, every
    /// monitored code it no longer shows ends cleared, and each raise or
    /// clear edge appends a journal entry.  Claims that rest on entries
    /// keeping their positions are stated for histories still below their
    /// caps, where no eviction can have occurred.
    fn sync_alarms(&mut self, plant_id: &String, d: &PlantData, now: i64)
        requires
            old(self).wf(),
            wf_plant_s(*d),
        ensures
            final(self).wf(),
            final(self).plants@ == old(self).plants@,
            final(self).offline_mode == old(self).offline_mode,
            final(self).mqtt_connected == old(self).mqtt_connected,
            final(self).start_time == old(self).start_time,
            final(self).alarms.items@.len() >= old(self).alarms.items@.len(),
            final(self).events.items@.len() >= old(self).events.items@.len(),
            final(self).alarms.items@.len() < crate::alarms::ALARM_HISTORY_CAP as int
                ==> (forall |k: int|
                0 <= k < crate::plant::record_conditions_s(*d).len()
                    ==> crate::alarms::has_active_s(
                    final(self).alarms.items@,
                    plant_id@,
                    #[trigger] crate::plant::record_conditions_s(*d)[k],
                )),
            forall |c: u16|
                crate::plant::is_monitored_code_s(c) && !crate::plant::record_conditions_s(
                    *d,
                ).contains(c) ==> !crate::alarms::has_active_s(
                    final(self).alarms.items@,
                    plant_id@,
                    c,
                ),
            final(self).alarms.items@.len() < crate::alarms::ALARM_HISTORY_CAP as int
                ==> (forall |i: int|
                0 <= i < old(self).alarms.items@.len() && (#[trigger] old(
                self).alarms.items@[i]).plant_id@ != plant_id@ ==> final(self).alarms.items@[i]
                    == old(self).alarms.items@[i]),
            final(self).events.items@.len() < crate::events::EVENT_LOG_CAP as int
                ==> (forall |i: int|
                0 <= i < old(self).events.items@.len() ==> final(self).events.items@[i] == old(
                self).events.items@[i]),
            (final(self).events.items@.len() < crate::events::EVENT_LOG_CAP as int && final(
            self).alarms.items@.len() < crate::alarms::ALARM_HISTORY_CAP as int) ==> ((exists |k: int|
                0 <= k < crate::plant::record_conditions_s(*d).len()
                    && !crate::alarms::has_active_s(
                    old(self).alarms.items@,
                    plant_id@,
                    #[trigger] crate::plant::record_conditions_s(*d)[k],
                )) ==> (exists |j: int|
                0 <= j < final(self).events.items@.len()
                    && crate::events::event_for_plant_s(
                    #[trigger] final(self).events.items@[j],
                    plant_id@,
                    EventKind::AlarmRaised,
                    now,
                ))),
            (final(self).events.items@.len() < crate::events::EVENT_LOG_CAP as int && final(
            self).alarms.items@.len() < crate::alarms::ALARM_HISTORY_CAP as int) ==> (forall |c: u16|
                crate::plant::is_monitored_code_s(c) && !crate::plant::record_conditions_s(
                    *d,
                ).contains(c) && crate::alarms::has_active_s(
                    old(self).alarms.items@,
                    plant_id@,
                    c,
                ) ==> (exists |j: int|
                0 <= j < final(self).events.items@.len()
                    && crate::events::event_for_plant_s(
                    #[trigger] final(self).events.items@[j],
                    plant_id@,
                    EventKind::AlarmCleared,
                    now,
                ))),
    {
        let ghost pv = plant_id@;
        let ghost a0 = self.alarms.items@;
        let ghost e0 = self.events.items@;
        let ghost acap = crate::alarms::ALARM_HISTORY_CAP as int;
        let ghost ecap = crate::events::EVENT_LOG_CAP as int;
        let v_avg = crate::fp::fdivi(
            crate::fp::fadd(crate::fp::fadd(d.voltage_l1_v, d.voltage_l2_v), d.voltage_l3_v),
            3,
        );
        let conds = crate::plant::alarm_conditions(
            v_avg,
            d.frequency_hz,
            d.rocof_hz_s,
            d.isolation_resistance_mohm,
            d.leakage_current_ma,
            d.inverter_temp_c,
            d.fan_fault_active,
            d.dc_voltage_v,
        );
        let ghost cs = conds@;
        proof {
            assert(cs == crate::plant::record_conditions_s(*d));
        }
        let critical_leak = d.leakage_current_ma > 300_000_000;
        let mut k: usize = 0;
        let nc = conds.len();
        while k < nc
            invariant
                0 <= k <= nc,
                nc == conds@.len(),
                cs == conds@,
                pv == plant_id@,
                a0 == old(self).alarms.items@,
                e0 == old(self).events.items@,
                acap == crate::alarms::ALARM_HISTORY_CAP as int,
                ecap == crate::events::EVENT_LOG_CAP as int,
                self.wf(),
                self.plants@ == old(self).plants@,
                self.offline_mode == old(self).offline_mode,
                self.mqtt_connected == old(self).mqtt_connected,
                self.start_time == old(self).start_time,
                self.alarms.items@.len() >= a0.len(),
                self.events.items@.len() >= e0.len(),
                self.alarms.items@.len() < acap ==> (forall |i: int|
                    0 <= i < a0.len() ==> #[trigger] self.alarms.items@[i] == a0[i]),
                self.alarms.items@.len() < acap ==> (forall |i: int|
                    a0.len() <= i < self.alarms.items@.len() ==> (
                    #[trigger] self.alarms.items@[i]).active && self.alarms.items@[i].plant_id@
                        == pv),
                self.alarms.items@.len() < acap ==> (forall |m: int|
                    0 <= m < k ==> crate::alarms::has_active_s(
                        self.alarms.items@,
                        pv,
                        #[trigger] cs[m],
                    )),
                self.events.items@.len() < ecap ==> (forall |i: int|
                    0 <= i < e0.len() ==> #[trigger] self.events.items@[i] == e0[i]),
                (self.events.items@.len() < ecap && self.alarms.items@.len() < acap) ==> (
                self.alarms.items@.len() > a0.len() ==> (exists |j: int|
                    0 <= j < self.events.items@.len() && crate::events::event_for_plant_s(
                        #[trigger] self.events.items@[j],
                        pv,
                        EventKind::AlarmRaised,
                        now,
                    ))),
            decreases nc - k,
        {
            let code = conds[k];
            let ghost a_pre = self.alarms.items@;
            let raised = self.alarms.raise(
                fresh_id(),
                plant_id,
                code,
                severity_of(code, critical_leak),
                alarm_message(code),
                now,
            );
            proof {
                if self.alarms.items@.len() < acap {
                    if raised {
                        assert(self.alarms.items@ =~= a_pre.push(
                            self.alarms.items@[self.alarms.items@.len() - 1],
                        ));
                        assert forall |m: int| 0 <= m < k implies crate::alarms::has_active_s(
                            self.alarms.items@,
                            pv,
                            #[trigger] cs[m],
                        ) by {
                            let i = choose |i: int|
                                0 <= i < a_pre.len() && (#[trigger] a_pre[i]).active && a_pre[
                                i].plant_id@ == pv && a_pre[i].code == cs[m];
                            assert(self.alarms.items@[i] == a_pre[i]);
                        }
                    }
                }
            }
            if raised {
                self.push_event(
                    Some(plant_id.clone()),
                    EventKind::AlarmRaised,
                    alarm_message(code),
                    now,
                );
                proof {
                    let ev = self.events.items@.last();
                    assert(crate::events::event_for_plant_s(
                        ev,
                        pv,
                        EventKind::AlarmRaised,
                        now,
                    ));
                }
            } else {
                proof {
                    if self.events.items@.len() < ecap && self.alarms.items@.len() < acap {
                        if !crate::alarms::has_active_s(a0, pv, cs[k as int]) {
                            let i = choose |i: int|
                                0 <= i < self.alarms.items@.len() && (
                                #[trigger] self.alarms.items@[i]).active
                                    && self.alarms.items@[i].plant_id@ == pv
                                    && self.alarms.items@[i].code == cs[k as int];
                            assert(i >= a0.len());
                            assert(self.alarms.items@.len() > a0.len());
                        }
                    }
                }
            }
            k = k + 1;
        }
        let ghost a1 = self.alarms.items@;
        let ghost e1 = self.events.items@;
        let monitored: [u16; 10] = [101, 102, 103, 104, 301, 302, 401, 402, 201, 105];
        proof {
            if a1.len() < acap {
                assert forall |mm: int|
                    0 <= mm < 10 && crate::alarms::has_active_s(a0, pv, #[trigger] monitored@[mm])
                    implies crate::alarms::has_active_s(a1, pv, monitored@[mm]) by {
                    let i = choose |i: int|
                        0 <= i < a0.len() && (#[trigger] a0[i]).active && a0[i].plant_id@ == pv
                            && a0[i].code == monitored@[mm];
                    assert(a1[i] == a0[i]);
                }
            }
        }
        let mut m: usize = 0;
        while m < 10
            invariant
                0 <= m <= 10,
                nc == conds@.len(),
                cs == conds@,
                pv == plant_id@,
                a0 == old(self).alarms.items@,
                e0 == old(self).events.items@,
                acap == crate::alarms::ALARM_HISTORY_CAP as int,
                ecap == crate::events::EVENT_LOG_CAP as int,
                monitored@ == seq![101u16, 102u16, 103u16, 104u16, 301u16, 302u16, 401u16, 402u16, 201u16, 105u16],
                self.wf(),
                self.plants@ == old(self).plants@,
                self.offline_mode == old(self).offline_mode,
                self.mqtt_connected == old(self).mqtt_connected,
                self.start_time == old(self).start_time,
                self.alarms.items@.len() == a1.len(),
                a1.len() >= a0.len(),
                self.events.items@.len() >= e1.len(),
                e1.len() >= e0.len(),
                a1.len() < acap ==> (forall |i: int| 0 <= i < a0.len() ==> #[trigger] a1[i] == a0[i]),
                forall |i: int|
                    0 <= i < a1.len() ==> #[trigger] self.alarms.items@[i] == a1[i]
                        || self.alarms.items@[i] == crate::alarms::cleared_copy_s(a1[i], now),
                self.alarms.items@.len() < acap ==> (forall |i: int|
                    0 <= i < a0.len() && (#[trigger] a0[i]).plant_id@ != pv
                        ==> self.alarms.items@[i] == a0[i]),
                self.alarms.items@.len() < acap ==> (forall |kk: int|
                    0 <= kk < nc ==> crate::alarms::has_active_s(
                        self.alarms.items@,
                        pv,
                        #[trigger] cs[kk],
                    )),
                forall |mm: int|
                    0 <= mm < m && !cs.contains(#[trigger] monitored@[mm])
                        ==> !crate::alarms::has_active_s(self.alarms.items@, pv, monitored@[mm]),
                self.alarms.items@.len() < acap ==> (forall |mm: int|
                    m <= mm < 10 && crate::alarms::has_active_s(a0, pv, #[trigger] monitored@[mm])
                        ==> crate::alarms::has_active_s(self.alarms.items@, pv, monitored@[mm])),
                self.events.items@.len() < ecap ==> (forall |i: int|
                    0 <= i < e1.len() ==> #[trigger] self.events.items@[i] == e1[i]),
                (self.events.items@.len() < ecap && self.alarms.items@.len() < acap) ==> (forall |mm: int|
                    0 <= mm < m && !cs.contains(#[trigger] monitored@[mm])
                        && crate::alarms::has_active_s(a0, pv, monitored@[mm]) ==> (exists |j: int|
                        0 <= j < self.events.items@.len() && crate::events::event_for_plant_s(
                            #[trigger] self.events.items@[j],
                            pv,
                            EventKind::AlarmCleared,
                            now,
                        ))),
            decreases 10 - m,
        {
            let code = monitored[m];
            let mut still_active = false;
            let mut c: usize = 0;
            while c < nc
                invariant
                    0 <= c <= nc,
                    nc == conds@.len(),
                    cs == conds@,
                    still_active == (exists |x: int| 0 <= x < c && cs[x] == code),
                decreases nc - c,
            {
                if conds[c] == code {
                    still_active = true;
                }
                c = c + 1;
            }
            proof {
                assert(still_active == cs.contains(code));
            }
            if !still_active {
                let ghost a_pre = self.alarms.items@;
                let cleared = self.alarms.clear_by_code(plant_id, code, now);
                proof {
                    assert forall |i: int|
                        0 <= i < a1.len() implies #[trigger] self.alarms.items@[i] == a1[i]
                        || self.alarms.items@[i] == crate::alarms::cleared_copy_s(a1[i], now) by {
                        if self.alarms.items@[i] != a_pre[i] {
                            assert(self.alarms.items@[i] == crate::alarms::cleared_copy_s(
                                a_pre[i],
                                now,
                            ));
                            if a_pre[i] != a1[i] {
                                assert(a_pre[i] == crate::alarms::cleared_copy_s(a1[i], now));
                                assert(!a_pre[i].active);
                            }
                        }
                    }
                    if self.alarms.items@.len() < acap {
                        assert forall |kk: int| 0 <= kk < nc implies crate::alarms::has_active_s(
                            self.alarms.items@,
                            pv,
                            #[trigger] cs[kk],
                        ) by {
                            let i = choose |i: int|
                                0 <= i < a_pre.len() && (#[trigger] a_pre[i]).active && a_pre[
                                i].plant_id@ == pv && a_pre[i].code == cs[kk];
                            assert(a_pre[i].code != code);
                            assert(self.alarms.items@[i] == a_pre[i]);
                        }
                        assert forall |mm: int|
                            m + 1 <= mm < 10 && crate::alarms::has_active_s(
                                a0,
                                pv,
                                #[trigger] monitored@[mm],
                            ) implies crate::alarms::has_active_s(
                            self.alarms.items@,
                            pv,
                            monitored@[mm],
                        ) by {
                            let i = choose |i: int|
                                0 <= i < a_pre.len() && (#[trigger] a_pre[i]).active && a_pre[
                                i].plant_id@ == pv && a_pre[i].code == monitored@[mm];
                            assert(a_pre[i].code != code);
                            assert(self.alarms.items@[i] == a_pre[i]);
                        }
                    }
                    assert forall |mm: int|
                        0 <= mm < m && !cs.contains(#[trigger] monitored@[mm]) implies
                        !crate::alarms::has_active_s(self.alarms.items@, pv, monitored@[mm]) by {
                        if crate::alarms::has_active_s(self.alarms.items@, pv, monitored@[mm]) {
                            let i = choose |i: int|
                                0 <= i < self.alarms.items@.len() && (
                                #[trigger] self.alarms.items@[i]).active
                                    && self.alarms.items@[i].plant_id@ == pv
                                    && self.alarms.items@[i].code == monitored@[mm];
                            assert(self.alarms.items@[i] == a_pre[i]
                                || self.alarms.items@[i] == crate::alarms::cleared_copy_s(
                                a_pre[i],
                                now,
                            ));
                            assert(a_pre[i].active && a_pre[i].plant_id@ == pv && a_pre[i].code
                                == monitored@[mm]);
                        }
                    }
                }
                if cleared {
                    self.push_event(
                        Some(plant_id.clone()),
                        EventKind::AlarmCleared,
                        alarm_message(code),
                        now,
                    );
                    proof {
                        let ev = self.events.items@.last();
                        assert(crate::events::event_for_plant_s(
                            ev,
                            pv,
                            EventKind::AlarmCleared,
                            now,
                        ));
                    }
                } else {
                    proof {
                        if self.alarms.items@.len() < acap {
                            if crate::alarms::has_active_s(a0, pv, code) {
                                assert(crate::alarms::has_active_s(self.alarms.items@, pv, code));
                            }
                        }
                    }
                }
            }
            m = m + 1;
        }
        proof {
            assert forall |c: u16|
                crate::plant::is_monitored_code_s(c) && !cs.contains(c) implies
                !crate::alarms::has_active_s(self.alarms.items@, pv, c) by {
                if c == 101 {
                    assert(monitored@[0] == c);
                } else if c == 102 {
                    assert(monitored@[1] == c);
                } else if c == 103 {
                    assert(monitored@[2] == c);
                } else if c == 104 {
                    assert(monitored@[3] == c);
                } else if c == 301 {
                    assert(monitored@[4] == c);
                } else if c == 302 {
                    assert(monitored@[5] == c);
                } else if c == 401 {
                    assert(monitored@[6] == c);
                } else if c == 402 {
                    assert(monitored@[7] == c);
                } else if c == 201 {
                    assert(monitored@[8] == c);
                } else {
                    assert(monitored@[9] == c);
                }
            }
            if self.alarms.items@.len() < acap {
                assert forall |i: int|
                    0 <= i < a0.len() && (#[trigger] a0[i]).plant_id@ != pv implies
                    self.alarms.items@[i] == a0[i] by {
                    assert(self.alarms.items@[i] == a1[i] || self.alarms.items@[i]
                        == crate::alarms::cleared_copy_s(a1[i], now));
                    assert(a1[i] == a0[i]);
                    if self.alarms.items@[i] != a1[i] {
                        assert(self.alarms.items@[i].plant_id@ == a1[i].plant_id@);
                        assert(a1[i].plant_id@ == pv);
                    }
                }
            }
            if self.events.items@.len() < ecap && self.alarms.items@.len() < acap {
                if exists |k: int|
                    0 <= k < cs.len() && !crate::alarms::has_active_s(a0, pv, #[trigger] cs[k]) {
                    assert(e1.len() <= self.events.items@.len());
                    assert(a1.len() == self.alarms.items@.len());
                    let k = choose |k: int|
                        0 <= k < cs.len() && !crate::alarms::has_active_s(a0, pv, #[trigger] cs[k]);
                    assert(exists |j: int|
                        0 <= j < e1.len() && crate::events::event_for_plant_s(
                            #[trigger] e1[j],
                            pv,
                            EventKind::AlarmRaised,
                            now,
                        ));
                    let j = choose |j: int|
                        0 <= j < e1.len() && crate::events::event_for_plant_s(
                            #[trigger] e1[j],
                            pv,
                            EventKind::AlarmRaised,
                            now,
                        );
                    assert(self.events.items@[j] == e1[j]);
                }
            }
        }
    }
}

/// Human-readable text of an alarm code.
fn alarm_message(code: u16) -> (m: String) {
    if code == 101 {
        String::from_str("AC overvoltage")
    } else if code == 102 {
        String::from_str("AC undervoltage")
    } else if code == 103 {
        String::from_str("AC overfrequency")
    } else if code == 104 {
        String::from_str("AC underfrequency")
    } else if code == 105 {
        String::from_str("ROCOF trip")
    } else if code == 106 {
        String::from_str("grid islanding detected")
    } else if code == 201 {
        String::from_str("DC overvoltage")
    } else if code == 202 {
        String::from_str("DC undervoltage")
    } else if code == 203 {
        String::from_str("MPPT failure")
    } else if code == 301 {
        String::from_str("isolation fault")
    } else if code == 302 {
        String::from_str("ground fault leakage")
    } else if code == 401 {
        String::from_str("overtemperature")
    } else if code == 402 {
        String::from_str("fan fault")
    } else if code == 501 {
        String::from_str("communication loss")
    } else {
        String::from_str("internal fault")
    }
}

} // verus!
