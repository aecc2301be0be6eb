//! Grid-tied photovoltaic fleet simulator: a verified core.
//!
//! Physical quantities are carried as signed 64-bit integers in micro-units
//! (one millionth of the engineering unit), so the whole telemetry pipeline
//! is exact integer arithmetic: the solar estimator, the per-plant state
//! engine, the alarm and event machinery, the shared store and the Modbus
//! register projection are all verified here.  Network transports and the
//! JSON facade live outside the library and only convert values at the edge.

pub mod alarms;
pub mod clock;
pub mod config;
pub mod estimator;
pub mod events;
pub mod explog;
pub mod facade;
pub mod fp;
pub mod noise;
pub mod plant;
pub mod registers;
pub mod source;
pub mod store;
pub mod trig;
