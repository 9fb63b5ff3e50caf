//! Identifiers of the physical channels that the engine consumes and of the
//! virtual sensors that it emits, with their wire codes.

use crate::error::ConversionError;
use vstd::prelude::*;
use vstd::std_specs::convert::FromSpecImpl;
use vstd::std_specs::convert::TryFromSpecImpl;

verus! {

/// A raw hardware channel that the engine takes as input.
#[derive(Clone, Copy, Debug, PartialEq, Eq, Hash, Structural)]
pub enum PhysicalSensorInput {
    Pressure,
    Humidity,
    Temperature,
    GasResistor,
    HeatSource,
    DisableBaselineTracker,
}

impl PhysicalSensorInput {
    /// The code by which the wire format names this channel.
    pub open spec fn wire_id(self) -> u8 {
        match self {
            PhysicalSensorInput::Pressure => 1,
            PhysicalSensorInput::Humidity => 2,
            PhysicalSensorInput::Temperature => 3,
            PhysicalSensorInput::GasResistor => 4,
            PhysicalSensorInput::HeatSource => 14,
            PhysicalSensorInput::DisableBaselineTracker => 23,
        }
    }

    /// The channel that a wire code names, if it names one.
    pub open spec fn of_wire_id(id: u32) -> Option<PhysicalSensorInput> {
        if id == 1 {
            Some(PhysicalSensorInput::Pressure)
        } else if id == 2 {
            Some(PhysicalSensorInput::Humidity)
        } else if id == 3 {
            Some(PhysicalSensorInput::Temperature)
        } else if id == 4 {
            Some(PhysicalSensorInput::GasResistor)
        } else if id == 14 {
            Some(PhysicalSensorInput::HeatSource)
        } else if id == 23 {
            Some(PhysicalSensorInput::DisableBaselineTracker)
        } else {
            None
        }
    }

    /// What reading a wire code yields: the channel it names, or the code
    /// itself as the cause of the failure.
    pub open spec fn read_wire_id(id: u32) -> Result<PhysicalSensorInput, ConversionError> {
        match PhysicalSensorInput::of_wire_id(id) {
            Some(sensor) => Ok(sensor),
            None => Err(ConversionError::InvalidPhysicalSensorId(id)),
        }
    }

    /// Channels and their wire codes correspond one to one: writing a channel
    /// and reading it back gives the same channel, and a code is read as a
    /// channel only if that channel is written as this code.
    pub proof fn lemma_wire_id_bijective(sensor: PhysicalSensorInput, id: u32)
        ensures
            PhysicalSensorInput::of_wire_id(sensor.wire_id() as u32) == Some(sensor),
            PhysicalSensorInput::of_wire_id(id) == Some(sensor) <==> sensor.wire_id() == id,
    {
    }
}

impl From<PhysicalSensorInput> for u32 {
    fn from(physical_sensor: PhysicalSensorInput) -> (id: u32) {
        match physical_sensor {
            PhysicalSensorInput::Pressure => 1,
            PhysicalSensorInput::Humidity => 2,
            PhysicalSensorInput::Temperature => 3,
            PhysicalSensorInput::GasResistor => 4,
            PhysicalSensorInput::HeatSource => 14,
            PhysicalSensorInput::DisableBaselineTracker => 23,
        }
    }
}

impl FromSpecImpl<PhysicalSensorInput> for u32 {
    open spec fn obeys_from_spec() -> bool {
        true
    }

    open spec fn from_spec(physical_sensor: PhysicalSensorInput) -> u32 {
        physical_sensor.wire_id() as u32
    }
}

impl From<PhysicalSensorInput> for u8 {
    fn from(physical_sensor: PhysicalSensorInput) -> (id: u8) {
        match physical_sensor {
            PhysicalSensorInput::Pressure => 1,
            PhysicalSensorInput::Humidity => 2,
            PhysicalSensorInput::Temperature => 3,
            PhysicalSensorInput::GasResistor => 4,
            PhysicalSensorInput::HeatSource => 14,
            PhysicalSensorInput::DisableBaselineTracker => 23,
        }
    }
}

impl FromSpecImpl<PhysicalSensorInput> for u8 {
    open spec fn obeys_from_spec() -> bool {
        true
    }

    open spec fn from_spec(physical_sensor: PhysicalSensorInput) -> u8 {
        physical_sensor.wire_id()
    }
}

impl TryFrom<u32> for PhysicalSensorInput {
    type Error = ConversionError;

    fn try_from(physical_sensor: u32) -> (result: Result<PhysicalSensorInput, ConversionError>) {
        match physical_sensor {
            1 => Ok(PhysicalSensorInput::Pressure),
            2 => Ok(PhysicalSensorInput::Humidity),
            3 => Ok(PhysicalSensorInput::Temperature),
            4 => Ok(PhysicalSensorInput::GasResistor),
            14 => Ok(PhysicalSensorInput::HeatSource),
            23 => Ok(PhysicalSensorInput::DisableBaselineTracker),
            physical_sensor => Err(ConversionError::InvalidPhysicalSensorId(physical_sensor)),
        }
    }
}

impl TryFromSpecImpl<u32> for PhysicalSensorInput {
    open spec fn obeys_try_from_spec() -> bool {
        true
    }

    open spec fn try_from_spec(physical_sensor: u32) -> Result<
        PhysicalSensorInput,
        ConversionError,
    > {
        PhysicalSensorInput::read_wire_id(physical_sensor)
    }
}

impl TryFrom<u8> for PhysicalSensorInput {
    type Error = ConversionError;

    fn try_from(physical_sensor: u8) -> (result: Result<PhysicalSensorInput, ConversionError>) {
        let wide: u32 = u32::from(physical_sensor);
        PhysicalSensorInput::try_from(wide)
    }
}

impl TryFromSpecImpl<u8> for PhysicalSensorInput {
    open spec fn obeys_try_from_spec() -> bool {
        true
    }

    open spec fn try_from_spec(physical_sensor: u8) -> Result<
        PhysicalSensorInput,
        ConversionError,
    > {
        PhysicalSensorInput::read_wire_id(physical_sensor as u32)
    }
}

/// A derived or raw metric that the engine can emit.
#[derive(Clone, Copy, Debug, PartialEq, Eq, Hash, Structural)]
pub enum VirtualSensorOutput {
    Iaq,
    StaticIaq,
    Co2Equivalent,
    BreathVocEquivalent,
    RawTemperature,
    RawPressure,
    RawHumidity,
    RawGas,
    StabilizationStatus,
    RunInStatus,
    SensorHeatCompensatedTemperature,
    SensorHeatCompensatedHumidity,
    DebugCompensatedGas,
    GasPercentage,
}

impl VirtualSensorOutput {
    /// The code by which the wire format names this virtual sensor.
    pub open spec fn wire_id(self) -> u8 {
        match self {
            VirtualSensorOutput::Iaq => 1,
            VirtualSensorOutput::StaticIaq => 2,
            VirtualSensorOutput::Co2Equivalent => 3,
            VirtualSensorOutput::BreathVocEquivalent => 4,
            VirtualSensorOutput::RawTemperature => 6,
            VirtualSensorOutput::RawPressure => 7,
            VirtualSensorOutput::RawHumidity => 8,
            VirtualSensorOutput::RawGas => 9,
            VirtualSensorOutput::StabilizationStatus => 12,
            VirtualSensorOutput::RunInStatus => 13,
            VirtualSensorOutput::SensorHeatCompensatedTemperature => 14,
            VirtualSensorOutput::SensorHeatCompensatedHumidity => 15,
            VirtualSensorOutput::DebugCompensatedGas => 18,
            VirtualSensorOutput::GasPercentage => 21,
        }
    }

    /// The virtual sensor that a wire code names, if it names one.
    pub open spec fn of_wire_id(id: u32) -> Option<VirtualSensorOutput> {
        if id == 1 {
            Some(VirtualSensorOutput::Iaq)
        } else if id == 2 {
            Some(VirtualSensorOutput::StaticIaq)
        } else if id == 3 {
            Some(VirtualSensorOutput::Co2Equivalent)
        } else if id == 4 {
            Some(VirtualSensorOutput::BreathVocEquivalent)
        } else if id == 6 {
            Some(VirtualSensorOutput::RawTemperature)
        } else if id == 7 {
            Some(VirtualSensorOutput::RawPressure)
        } else if id == 8 {
            Some(VirtualSensorOutput::RawHumidity)
        } else if id == 9 {
            Some(VirtualSensorOutput::RawGas)
        } else if id == 12 {
            Some(VirtualSensorOutput::StabilizationStatus)
        } else if id == 13 {
            Some(VirtualSensorOutput::RunInStatus)
        } else if id == 14 {
            Some(VirtualSensorOutput::SensorHeatCompensatedTemperature)
        } else if id == 15 {
            Some(VirtualSensorOutput::SensorHeatCompensatedHumidity)
        } else if id == 18 {
            Some(VirtualSensorOutput::DebugCompensatedGas)
        } else if id == 21 {
            Some(VirtualSensorOutput::GasPercentage)
        } else {
            None
        }
    }

    /// What reading a wire code yields: the virtual sensor it names, or the
    /// code itself as the cause of the failure.
    pub open spec fn read_wire_id(id: u32) -> Result<VirtualSensorOutput, ConversionError> {
        match VirtualSensorOutput::of_wire_id(id) {
            Some(sensor) => Ok(sensor),
            None => Err(ConversionError::InvalidVirtualSensorId(id)),
        }
    }

    /// Virtual sensors and their wire codes correspond one to one.
    pub proof fn lemma_wire_id_bijective(sensor: VirtualSensorOutput, id: u32)
        ensures
            VirtualSensorOutput::of_wire_id(sensor.wire_id() as u32) == Some(sensor),
            VirtualSensorOutput::of_wire_id(id) == Some(sensor) <==> sensor.wire_id() == id,
    {
    }

    /// Position of this virtual sensor in the enumeration of all of them.
    pub open spec fn position(self) -> nat {
        match self {
            VirtualSensorOutput::Iaq => 0,
            VirtualSensorOutput::StaticIaq => 1,
            VirtualSensorOutput::Co2Equivalent => 2,
            VirtualSensorOutput::BreathVocEquivalent => 3,
            VirtualSensorOutput::RawTemperature => 4,
            VirtualSensorOutput::RawPressure => 5,
            VirtualSensorOutput::RawHumidity => 6,
            VirtualSensorOutput::RawGas => 7,
            VirtualSensorOutput::StabilizationStatus => 8,
            VirtualSensorOutput::RunInStatus => 9,
            VirtualSensorOutput::SensorHeatCompensatedTemperature => 10,
            VirtualSensorOutput::SensorHeatCompensatedHumidity => 11,
            VirtualSensorOutput::DebugCompensatedGas => 12,
            VirtualSensorOutput::GasPercentage => 13,
        }
    }

    /// The virtual sensor at a position of the enumeration. Positions past
    /// the end give the last one.
    pub open spec fn at_position(position: nat) -> VirtualSensorOutput {
        if position == 0 {
            VirtualSensorOutput::Iaq
        } else if position == 1 {
            VirtualSensorOutput::StaticIaq
        } else if position == 2 {
            VirtualSensorOutput::Co2Equivalent
        } else if position == 3 {
            VirtualSensorOutput::BreathVocEquivalent
        } else if position == 4 {
            VirtualSensorOutput::RawTemperature
        } else if position == 5 {
            VirtualSensorOutput::RawPressure
        } else if position == 6 {
            VirtualSensorOutput::RawHumidity
        } else if position == 7 {
            VirtualSensorOutput::RawGas
        } else if position == 8 {
            VirtualSensorOutput::StabilizationStatus
        } else if position == 9 {
            VirtualSensorOutput::RunInStatus
        } else if position == 10 {
            VirtualSensorOutput::SensorHeatCompensatedTemperature
        } else if position == 11 {
            VirtualSensorOutput::SensorHeatCompensatedHumidity
        } else if position == 12 {
            VirtualSensorOutput::DebugCompensatedGas
        } else {
            VirtualSensorOutput::GasPercentage
        }
    }

    /// The enumeration lists every virtual sensor exactly once.
    pub proof fn lemma_position_bijective(sensor: VirtualSensorOutput, position: nat)
        ensures
            sensor.position() < VIRTUAL_SENSOR_COUNT,
            VirtualSensorOutput::at_position(sensor.position()) == sensor,
            position < VIRTUAL_SENSOR_COUNT ==> VirtualSensorOutput::at_position(
                position,
            ).position() == position,
    {
    }

    /// The virtual sensor at a position of the enumeration.
    pub fn nth(position: u8) -> (sensor: VirtualSensorOutput)
        ensures
            sensor == VirtualSensorOutput::at_position(position as nat),
    {
        match position {
            0 => VirtualSensorOutput::Iaq,
            1 => VirtualSensorOutput::StaticIaq,
            2 => VirtualSensorOutput::Co2Equivalent,
            3 => VirtualSensorOutput::BreathVocEquivalent,
            4 => VirtualSensorOutput::RawTemperature,
            5 => VirtualSensorOutput::RawPressure,
            6 => VirtualSensorOutput::RawHumidity,
            7 => VirtualSensorOutput::RawGas,
            8 => VirtualSensorOutput::StabilizationStatus,
            9 => VirtualSensorOutput::RunInStatus,
            10 => VirtualSensorOutput::SensorHeatCompensatedTemperature,
            11 => VirtualSensorOutput::SensorHeatCompensatedHumidity,
            12 => VirtualSensorOutput::DebugCompensatedGas,
            _ => VirtualSensorOutput::GasPercentage,
        }
    }
}

/// How many virtual sensors the engine knows.
pub const VIRTUAL_SENSOR_COUNT: u8 = 14;

impl From<VirtualSensorOutput> for u32 {
    fn from(virtual_sensor: VirtualSensorOutput) -> (id: u32) {
        match virtual_sensor {
            VirtualSensorOutput::Iaq => 1,
            VirtualSensorOutput::StaticIaq => 2,
            VirtualSensorOutput::Co2Equivalent => 3,
            VirtualSensorOutput::BreathVocEquivalent => 4,
            VirtualSensorOutput::RawTemperature => 6,
            VirtualSensorOutput::RawPressure => 7,
            VirtualSensorOutput::RawHumidity => 8,
            VirtualSensorOutput::RawGas => 9,
            VirtualSensorOutput::StabilizationStatus => 12,
            VirtualSensorOutput::RunInStatus => 13,
            VirtualSensorOutput::SensorHeatCompensatedTemperature => 14,
            VirtualSensorOutput::SensorHeatCompensatedHumidity => 15,
            VirtualSensorOutput::DebugCompensatedGas => 18,
            VirtualSensorOutput::GasPercentage => 21,
        }
    }
}

impl FromSpecImpl<VirtualSensorOutput> for u32 {
    open spec fn obeys_from_spec() -> bool {
        true
    }

    open spec fn from_spec(virtual_sensor: VirtualSensorOutput) -> u32 {
        virtual_sensor.wire_id() as u32
    }
}

impl From<VirtualSensorOutput> for u8 {
    fn from(virtual_sensor: VirtualSensorOutput) -> (id: u8) {
        match virtual_sensor {
            VirtualSensorOutput::Iaq => 1,
            VirtualSensorOutput::StaticIaq => 2,
            VirtualSensorOutput::Co2Equivalent => 3,
            VirtualSensorOutput::BreathVocEquivalent => 4,
            VirtualSensorOutput::RawTemperature => 6,
            VirtualSensorOutput::RawPressure => 7,
            VirtualSensorOutput::RawHumidity => 8,
            VirtualSensorOutput::RawGas => 9,
            VirtualSensorOutput::StabilizationStatus => 12,
            VirtualSensorOutput::RunInStatus => 13,
            VirtualSensorOutput::SensorHeatCompensatedTemperature => 14,
            VirtualSensorOutput::SensorHeatCompensatedHumidity => 15,
            VirtualSensorOutput::DebugCompensatedGas => 18,
            VirtualSensorOutput::GasPercentage => 21,
        }
    }
}

impl FromSpecImpl<VirtualSensorOutput> for u8 {
    open spec fn obeys_from_spec() -> bool {
        true
    }

    open spec fn from_spec(virtual_sensor: VirtualSensorOutput) -> u8 {
        virtual_sensor.wire_id()
    }
}

impl TryFrom<u32> for VirtualSensorOutput {
    type Error = ConversionError;

    fn try_from(virtual_sensor: u32) -> (result: Result<VirtualSensorOutput, ConversionError>) {
        match virtual_sensor {
            1 => Ok(VirtualSensorOutput::Iaq),
            2 => Ok(VirtualSensorOutput::StaticIaq),
            3 => Ok(VirtualSensorOutput::Co2Equivalent),
            4 => Ok(VirtualSensorOutput::BreathVocEquivalent),
            6 => Ok(VirtualSensorOutput::RawTemperature),
            7 => Ok(VirtualSensorOutput::RawPressure),
            8 => Ok(VirtualSensorOutput::RawHumidity),
            9 => Ok(VirtualSensorOutput::RawGas),
            12 => Ok(VirtualSensorOutput::StabilizationStatus),
            13 => Ok(VirtualSensorOutput::RunInStatus),
            14 => Ok(VirtualSensorOutput::SensorHeatCompensatedTemperature),
            15 => Ok(VirtualSensorOutput::SensorHeatCompensatedHumidity),
            18 => Ok(VirtualSensorOutput::DebugCompensatedGas),
            21 => Ok(VirtualSensorOutput::GasPercentage),
            _ => Err(ConversionError::InvalidVirtualSensorId(virtual_sensor)),
        }
    }
}

impl TryFromSpecImpl<u32> for VirtualSensorOutput {
    open spec fn obeys_try_from_spec() -> bool {
        true
    }

    open spec fn try_from_spec(virtual_sensor: u32) -> Result<
        VirtualSensorOutput,
        ConversionError,
    > {
        VirtualSensorOutput::read_wire_id(virtual_sensor)
    }
}

impl TryFrom<u8> for VirtualSensorOutput {
    type Error = ConversionError;

    fn try_from(virtual_sensor: u8) -> (result: Result<VirtualSensorOutput, ConversionError>) {
        let wide: u32 = u32::from(virtual_sensor);
        VirtualSensorOutput::try_from(wide)
    }
}

impl TryFromSpecImpl<u8> for VirtualSensorOutput {
    open spec fn obeys_try_from_spec() -> bool {
        true
    }

    open spec fn try_from_spec(virtual_sensor: u8) -> Result<VirtualSensorOutput, ConversionError> {
        VirtualSensorOutput::read_wire_id(virtual_sensor as u32)
    }
}

} // verus!
