//! Scheduling and state coordination between a physical environmental sensor
//! and a signal-fusion engine that derives air-quality estimates from its
//! raw readings.

pub mod accuracy;
pub mod blocking;
pub mod bme680;
pub mod bsec;
pub mod config;
pub mod error;
pub mod metrics;
pub mod monitor;
pub mod sample_rate;
pub mod sensor;
pub mod sensor_set;
pub mod wire;
