//! Runtime configuration and API response shapes.
//!
//! The configuration mirrors the JSON file the binary loads: server and
//! Modbus ports, the MQTT broker settings, and one entry per plant with
//! its location, rating and Modbus base address.  Coordinates and rated
//! power are carried in micro-units like the rest of the library.

use vstd::prelude::*;


verus! {

pub fn default_offline_mode() -> (r: bool)
    ensures
        r == false,
{
    false
}

pub fn default_mqtt_topic_prefix() -> (r: String)
    ensures
        r@ == "solar"@,
{
    String::from_str("solar")
}

pub fn default_mqtt_port() -> (r: u16)
    ensures
        r == 1883,
{
    1883
}

pub fn default_mqtt_enabled() -> (r: bool)
    ensures
        r == false,
{
    false
}

#[derive(Clone, Copy, Debug, PartialEq, Eq, Structural)]
pub struct ServerConfig {
    pub port: u16,
}

#[derive(Clone, Copy, Debug, PartialEq, Eq, Structural)]
pub struct ModbusConfig {
    pub port: u16,
}

#[derive(Debug)]
pub struct MqttConfig {
    pub enabled: bool,
    pub broker_host: String,
    pub broker_port: u16,
    pub topic_prefix: String,
    pub client_id: String,
    pub username: Option<String>,
    pub password: Option<String>,
    /// Publish interval in seconds.
    pub publish_interval_s: Option<u64>,
}

impl Clone for MqttConfig {
    fn clone(&self) -> (r: MqttConfig)
        ensures
            r == *self,
    {
        MqttConfig {
            enabled: self.enabled,
            broker_host: self.broker_host.clone(),
            broker_port: self.broker_port,
            topic_prefix: self.topic_prefix.clone(),
            client_id: self.client_id.clone(),
            username: match &self.username {
                Some(u) => Some(u.clone()),
                None => None,
            },
            password: match &self.password {
                Some(p) => Some(p.clone()),
                None => None,
            },
            publish_interval_s: self.publish_interval_s,
        }
    }
}

impl Default for MqttConfig {
    fn default() -> (r: MqttConfig)
        ensures
            r.enabled == false,
            r.broker_host@ == Seq::<char>::empty(),
            r.broker_port == 1883,
            r.topic_prefix@ == "solar"@,
            r.client_id@ == "solar-scada-sim"@,
            r.username is None,
            r.password is None,
            r.publish_interval_s is None,
    {
        MqttConfig {
            enabled: false,
            broker_host: String::new(),
            broker_port: 1883,
            topic_prefix: String::from_str("solar"),
            client_id: String::from_str("solar-scada-sim"),
            username: None,
            password: None,
            publish_interval_s: None,
        }
    }
}

/// Starting Modbus register address for this plant's 100-register block.
#[derive(Clone, Copy, Debug, PartialEq, Eq, Structural)]
pub struct ModbusMapping {
    pub base_address: u16,
}

/// One configured plant; latitude, longitude and rated power are
/// micro-units (micro-degrees, micro-kW).
#[derive(Debug)]
pub struct PlantConfig {
    pub id: String,
    pub name: String,
    pub latitude: i64,
    pub longitude: i64,
    pub nominal_power_kw: i64,
    /// IANA zone name, informational only.
    pub timezone: String,
    pub modbus_mapping: ModbusMapping,
}

impl Clone for PlantConfig {
    fn clone(&self) -> (r: PlantConfig)
        ensures
            r == *self,
    {
        PlantConfig {
            id: self.id.clone(),
            name: self.name.clone(),
            latitude: self.latitude,
            longitude: self.longitude,
            nominal_power_kw: self.nominal_power_kw,
            timezone: self.timezone.clone(),
            modbus_mapping: self.modbus_mapping,
        }
    }
}

/// A plant entry the simulator accepts: coordinates on the globe, a
/// positive rating no higher than 100 MW, and a register block that fits
/// the address space.
pub open spec fn valid_plant_s(p: PlantConfig) -> bool {
    &&& crate::estimator::valid_lat_s(p.latitude as int)
    &&& crate::estimator::valid_lon_s(p.longitude as int)
    &&& 0 < p.nominal_power_kw <= 100_000_000_000
    &&& p.modbus_mapping.base_address as int + 100 <= 65536
}

pub fn plant_is_valid(p: &PlantConfig) -> (r: bool)
    ensures
        r == valid_plant_s(*p),
{
    -90_000_000 <= p.latitude && p.latitude <= 90_000_000 && -180_000_000 <= p.longitude
        && p.longitude <= 180_000_000 && 0 < p.nominal_power_kw && p.nominal_power_kw
        <= 100_000_000_000 && p.modbus_mapping.base_address <= 65436
}

/// The whole runtime configuration.
#[derive(Debug)]
pub struct Config {
    pub server: ServerConfig,
    pub modbus: ModbusConfig,
    pub offline_mode: bool,
    pub plants: Vec<PlantConfig>,
    pub mqtt: MqttConfig,
}

impl Clone for Config {
    fn clone(&self) -> (r: Config)
        ensures
            r.server == self.server,
            r.modbus == self.modbus,
            r.offline_mode == self.offline_mode,
            r.plants@ == self.plants@,
            r.mqtt == self.mqtt,
    {
        let mut plants: Vec<PlantConfig> = Vec::new();
        let n = self.plants.len();
        let mut i: usize = 0;
        while i < n
            invariant
                0 <= i <= n,
                n == self.plants@.len(),
                plants@.len() == i as int,
                forall |m: int| 0 <= m < i ==> plants@[m] == self.plants@[m],
            decreases n - i,
        {
            plants.push(self.plants[i].clone());
            i = i + 1;
        }
        proof {
            assert(plants@ =~= self.plants@);
        }
        Config {
            server: self.server,
            modbus: self.modbus,
            offline_mode: self.offline_mode,
            plants,
            mqtt: self.mqtt.clone(),
        }
    }
}

// ── Query and response shapes of the HTTP facade ────────────────────────

pub struct AlarmQuery {
    pub active_only: Option<bool>,
    pub limit: Option<usize>,
}

pub struct EventQuery {
    pub limit: Option<usize>,
}

pub struct OfflineModeBody {
    pub enabled: bool,
}

/// One row of the register-map description.
#[derive(Debug)]
pub struct ModbusInfo {
    pub plant_id: String,
    pub register_address: u16,
    pub length: u16,
    pub data_type: String,
    pub description: String,
}

/// Public system configuration summary.
#[derive(Debug)]
pub struct SystemConfig {
    pub api_port: u16,
    pub modbus_port: u16,
    pub modbus_host: String,
    pub mqtt_enabled: bool,
    pub mqtt_broker: Option<String>,
    pub mqtt_topic_prefix: String,
    pub websocket_endpoint: String,
    pub prometheus_endpoint: String,
}

/// Health summary of the running system.
#[derive(Debug)]
pub struct HealthStatus {
    pub status: String,
    pub version: String,
    pub uptime_seconds: u64,
    pub plants_online: usize,
    pub plants_total: usize,
    pub offline_mode: bool,
    pub mqtt_connected: bool,
}

/// Fleet power summary; energies and powers in micro-units.
#[derive(Debug)]
pub struct GlobalPowerResponse {
    pub total_power_kw: i64,
    pub total_nominal_kw: i64,
    pub total_daily_energy_kwh: i64,
    pub total_monthly_energy_kwh: i64,
    pub total_lifetime_energy_kwh: i64,
    pub fleet_performance_ratio: i64,
    pub plants_running: usize,
    pub plants_total: usize,
    pub per_plant: Vec<(String, i64)>,
}

/// One full telemetry snapshot with its read time.
#[derive(Debug)]
pub struct PlantStatusResponse {
    /// Unix seconds at read time.
    pub timestamp: i64,
    pub data: crate::plant::PlantData,
}

} // verus!
