//! What a driver of the physical sensor decides without touching the bus:
//! when a measurement that was started may be read out, and how its four
//! channels are handed on.

use crate::blocking::Blocked;
use crate::bsec::BmeOutput;
use crate::sensor::PhysicalSensorInput;
use vstd::prelude::*;

verus! {

/// The acquisition window of the sensor: from the start of a measurement
/// until its results can be read.
#[derive(Clone, Copy, Debug)]
pub struct MeasurementWindow {
    started: bool,
    started_at: i64,
    profile_duration: u64,
}

impl MeasurementWindow {
    /// Whether a measurement was ever started.
    pub closed spec fn is_started(self) -> bool {
        self.started
    }

    /// The earliest time, in nanoseconds, at which the last measurement can
    /// be read out.
    pub closed spec fn available_after(self) -> int {
        self.started_at + self.profile_duration
    }

    /// The window of a sensor on which no measurement was started yet.
    pub fn new() -> (window: MeasurementWindow)
        ensures
            !window.is_started(),
    {
        MeasurementWindow { started: false, started_at: 0, profile_duration: 0 }
    }

    /// Whether a measurement was ever started.
    pub fn started(&self) -> (started: bool)
        ensures
            started == self.is_started(),
    {
        self.started
    }

    /// Notes that a measurement was started at `now` and takes
    /// `profile_duration` nanoseconds.
    pub fn open(&mut self, now: i64, profile_duration: u64)
        ensures
            final(self).is_started(),
            final(self).available_after() == now + profile_duration,
    {
        self.started = true;
        self.started_at = now;
        self.profile_duration = profile_duration;
    }

    /// Whether the measurement can be read out at `now`: not before its
    /// time has passed.
    pub fn poll<E>(&self, now: i64) -> (result: Result<(), Blocked<E>>)
        requires
            self.is_started(),
        ensures
            now < self.available_after() ==> result == Err::<(), Blocked<E>>(Blocked::WouldBlock),
            now >= self.available_after() ==> result == Ok::<(), Blocked<E>>(()),
    {
        if (now as i128) < self.started_at as i128 + self.profile_duration as i128 {
            Err(Blocked::WouldBlock)
        } else {
            Ok(())
        }
    }
}

/// The four channels of one measurement as the readings that the engine
/// adapter takes: temperature, pressure, humidity, gas resistance, each a
/// binary32 pattern.
pub fn readings(temperature: u32, pressure: u32, humidity: u32, gas_resistance: u32) -> (outputs:
    Vec<BmeOutput>)
    ensures
        outputs@ == seq![
            BmeOutput { signal: temperature, sensor: PhysicalSensorInput::Temperature },
            BmeOutput { signal: pressure, sensor: PhysicalSensorInput::Pressure },
            BmeOutput { signal: humidity, sensor: PhysicalSensorInput::Humidity },
            BmeOutput { signal: gas_resistance, sensor: PhysicalSensorInput::GasResistor },
        ],
{
    let mut outputs: Vec<BmeOutput> = Vec::new();
    outputs.push(BmeOutput { signal: temperature, sensor: PhysicalSensorInput::Temperature });
    outputs.push(BmeOutput { signal: pressure, sensor: PhysicalSensorInput::Pressure });
    outputs.push(BmeOutput { signal: humidity, sensor: PhysicalSensorInput::Humidity });
    outputs.push(BmeOutput { signal: gas_resistance, sensor: PhysicalSensorInput::GasResistor });
    proof {
        assert(outputs@ =~= seq![
            BmeOutput { signal: temperature, sensor: PhysicalSensorInput::Temperature },
            BmeOutput { signal: pressure, sensor: PhysicalSensorInput::Pressure },
            BmeOutput { signal: humidity, sensor: PhysicalSensorInput::Humidity },
            BmeOutput { signal: gas_resistance, sensor: PhysicalSensorInput::GasResistor },
        ]);
    }
    outputs
}

} // verus!
