//! Records of the engine's wire protocol, as plain values.
//!
//! Signals and sample rates are real numbers in IEEE 754 binary32 on the
//! wire. Nothing here computes with them, so each is carried as its bit
//! pattern in a `u32`.

use vstd::prelude::*;

verus! {

/// Slots that the engine may fill when it lists the physical channels it
/// needs.
pub const MAX_PHYSICAL_SENSOR: u8 = 8;

/// Bytes that a state blob can take at most.
pub const MAX_STATE_BLOB_SIZE: u32 = 139;

/// Bytes that a configuration blob can take at most.
pub const MAX_PROPERTY_BLOB_SIZE: u32 = 454;

/// Bytes of scratch space that the engine asks for when it reads or writes
/// a blob.
pub const MAX_WORKBUFFER_SIZE: u32 = 2048;

/// Most entries that a list can have on the wire, where its length is one
/// byte.
pub const MAX_LIST_LENGTH: usize = 255;

/// A sensor with a sample rate: a subscription request when sent, a required
/// physical channel when received.
#[derive(Clone, Copy, Debug, PartialEq, Eq, Structural)]
pub struct SensorConfiguration {
    pub sample_rate: u32,
    pub sensor_id: u8,
}

/// One physical reading handed to the engine.
#[derive(Clone, Copy, Debug, PartialEq, Eq, Structural)]
pub struct InputRecord {
    pub time_stamp: i64,
    pub signal: u32,
    pub signal_dimensions: u8,
    pub sensor_id: u8,
}

/// One output that the engine returned from a step.
#[derive(Clone, Copy, Debug, PartialEq, Eq, Structural)]
pub struct OutputRecord {
    pub time_stamp: i64,
    pub signal: u32,
    pub signal_dimensions: u8,
    pub sensor_id: u8,
    pub accuracy: u8,
}

/// The engine's instruction for the next physical measurement.
#[derive(Clone, Copy, Debug, PartialEq, Eq, Structural)]
pub struct BmeSettings {
    /// When the engine wants to be asked again, in nanoseconds.
    pub next_call: i64,
    pub heater_temperature: u16,
    pub heating_duration: u16,
    pub run_gas: u8,
    pub pressure_oversampling: u8,
    pub temperature_oversampling: u8,
    pub humidity_oversampling: u8,
    /// One if a measurement is to be taken now.
    pub trigger_measurement: u8,
}

/// The engine's version, as it reports it.
#[derive(Clone, Copy, Debug, PartialEq, Eq, Structural)]
pub struct Version {
    pub major: u8,
    pub minor: u8,
    pub major_bugfix: u8,
    pub minor_bugfix: u8,
}

} // verus!
