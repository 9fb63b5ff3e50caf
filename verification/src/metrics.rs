//! How the outputs of the engine are named when they are exposed as gauges.
//!
//! Each virtual sensor has two gauges: one for its value, named after the
//! sensor and its unit, and one for the accuracy of that value.

use crate::sensor::VirtualSensorOutput;
use vstd::prelude::*;

verus! {

/// The unit of a gauge: how it appears in the gauge's name and how in its
/// help text.
#[derive(Clone, Copy, Debug)]
pub struct GaugeUnit<'a> {
    ident_suffix: &'a str,
    display: &'a str,
}

impl<'a> View for GaugeUnit<'a> {
    type V = (Seq<char>, Seq<char>);

    closed spec fn view(&self) -> (Seq<char>, Seq<char>) {
        (self.ident_suffix@, self.display@)
    }
}

impl<'a> GaugeUnit<'a> {
    /// A unit that is written the same way in names and in help texts.
    pub fn new(unit: &'a str) -> (gauge_unit: GaugeUnit<'a>)
        ensures
            gauge_unit@ == (unit@, unit@),
    {
        GaugeUnit { ident_suffix: unit, display: unit }
    }

    /// A unit with a spelling for names and a symbol for help texts.
    pub fn new_with_display(ident_suffix: &'a str, display: &'a str) -> (gauge_unit: GaugeUnit<'a>)
        ensures
            gauge_unit@ == (ident_suffix@, display@),
    {
        GaugeUnit { ident_suffix, display }
    }

    pub fn ident_suffix(&self) -> (suffix: &'a str)
        ensures
            suffix@ == self@.0,
    {
        self.ident_suffix
    }

    pub fn display(&self) -> (display: &'a str)
        ensures
            display@ == self@.1,
    {
        self.display
    }
}

/// Name, help text and unit of a virtual sensor's gauge, as mathematics.
pub struct GaugeDescriptionView {
    pub name: Seq<char>,
    pub help: Seq<char>,
    pub unit: Option<(Seq<char>, Seq<char>)>,
}

impl GaugeDescriptionView {
    /// Name of the value gauge: the sensor's name, then the unit if there is
    /// one, joined by an underscore.
    pub open spec fn value_name(self) -> Seq<char> {
        match self.unit {
            Some(unit) => self.name + "_"@ + unit.0,
            None => self.name,
        }
    }

    /// Help text of the value gauge: the sensor's help text, then the unit
    /// in brackets if there is one.
    pub open spec fn value_help(self) -> Seq<char> {
        match self.unit {
            Some(unit) => self.help + " ("@ + unit.1 + ")"@,
            None => self.help,
        }
    }

    /// Name of the accuracy gauge.
    pub open spec fn accuracy_name(self) -> Seq<char> {
        self.name + "_accuracy"@
    }

    /// Help text of the accuracy gauge.
    pub open spec fn accuracy_help(self) -> Seq<char> {
        self.help + " (accuracy)"@
    }
}

/// How each virtual sensor's gauge is described.
pub open spec fn described(sensor: VirtualSensorOutput) -> GaugeDescriptionView {
    match sensor {
        VirtualSensorOutput::Iaq => GaugeDescriptionView {
            name: "iaq"@,
            help: "Indoor-air-quality estimate [0-500]"@,
            unit: None,
        },
        VirtualSensorOutput::StaticIaq => GaugeDescriptionView {
            name: "static_iaq"@,
            help: "Unscaled indoor-air-quality estimate"@,
            unit: None,
        },
        VirtualSensorOutput::Co2Equivalent => GaugeDescriptionView {
            name: "co2_equivalent"@,
            help: "CO2 equivalent estimate"@,
            unit: Some(("ppm"@, "ppm"@)),
        },
        VirtualSensorOutput::BreathVocEquivalent => GaugeDescriptionView {
            name: "breath_voc_equivalent"@,
            help: "Breath VOC concentration estimate"@,
            unit: Some(("ppm"@, "ppm"@)),
        },
        VirtualSensorOutput::RawTemperature => GaugeDescriptionView {
            name: "raw_temperature"@,
            help: "Temperature sensor signal"@,
            unit: Some(("celsius"@, "°C"@)),
        },
        VirtualSensorOutput::RawPressure => GaugeDescriptionView {
            name: "raw_pressure"@,
            help: "Pressure sensor signal"@,
            unit: Some(("Pa"@, "Pa"@)),
        },
        VirtualSensorOutput::RawHumidity => GaugeDescriptionView {
            name: "raw_humidity"@,
            help: "Relative humidity sensor signal"@,
            unit: Some(("percent"@, "%"@)),
        },
        VirtualSensorOutput::RawGas => GaugeDescriptionView {
            name: "raw_gas"@,
            help: "Gas sensor signal"@,
            unit: Some(("ohm"@, "Ω"@)),
        },
        VirtualSensorOutput::StabilizationStatus => GaugeDescriptionView {
            name: "stabilization_status"@,
            help: "Gas sensor stabilization status (boolean)"@,
            unit: None,
        },
        VirtualSensorOutput::RunInStatus => GaugeDescriptionView {
            name: "run_in_status"@,
            help: "Gas sensor run-in status (boolean)"@,
            unit: None,
        },
        VirtualSensorOutput::SensorHeatCompensatedTemperature => GaugeDescriptionView {
            name: "temperature"@,
            help: "Sensor heat compensated temperature"@,
            unit: Some(("celsius"@, "°C"@)),
        },
        VirtualSensorOutput::SensorHeatCompensatedHumidity => GaugeDescriptionView {
            name: "humidity"@,
            help: "Sensor heat compensated humidity"@,
            unit: Some(("percent"@, "%"@)),
        },
        VirtualSensorOutput::DebugCompensatedGas => GaugeDescriptionView {
            name: "debug_compensated_gas"@,
            help: "Reserved internal debug output"@,
            unit: None,
        },
        VirtualSensorOutput::GasPercentage => GaugeDescriptionView {
            name: "gas"@,
            help: "Percentage of min and max filtered gas value"@,
            unit: Some(("percent"@, "%"@)),
        },
    }
}

/// Name, help text and unit of a virtual sensor's gauge.
#[derive(Clone, Copy, Debug)]
pub struct GaugeDescription {
    name: &'static str,
    help: &'static str,
    unit: Option<GaugeUnit<'static>>,
}

impl View for GaugeDescription {
    type V = GaugeDescriptionView;

    closed spec fn view(&self) -> GaugeDescriptionView {
        GaugeDescriptionView {
            name: self.name@,
            help: self.help@,
            unit: match self.unit {
                Some(unit) => Some(unit@),
                None => None,
            },
        }
    }
}

impl GaugeDescription {
    fn new(name: &'static str, help: &'static str, unit: Option<GaugeUnit<'static>>) -> (description:
        GaugeDescription)
        ensures
            description@ == (GaugeDescriptionView {
                name: name@,
                help: help@,
                unit: match unit {
                    Some(unit) => Some(unit@),
                    None => None,
                },
            }),
    {
        GaugeDescription { name, help, unit }
    }

    /// The description of a virtual sensor's gauge.
    pub fn of(sensor: VirtualSensorOutput) -> (description: GaugeDescription)
        ensures
            description@ == described(sensor),
    {
        match sensor {
            VirtualSensorOutput::Iaq => GaugeDescription::new(
                "iaq",
                "Indoor-air-quality estimate [0-500]",
                None,
            ),
            VirtualSensorOutput::StaticIaq => GaugeDescription::new(
                "static_iaq",
                "Unscaled indoor-air-quality estimate",
                None,
            ),
            VirtualSensorOutput::Co2Equivalent => GaugeDescription::new(
                "co2_equivalent",
                "CO2 equivalent estimate",
                Some(GaugeUnit::new("ppm")),
            ),
            VirtualSensorOutput::BreathVocEquivalent => GaugeDescription::new(
                "breath_voc_equivalent",
                "Breath VOC concentration estimate",
                Some(GaugeUnit::new("ppm")),
            ),
            VirtualSensorOutput::RawTemperature => GaugeDescription::new(
                "raw_temperature",
                "Temperature sensor signal",
                Some(GaugeUnit::new_with_display("celsius", "°C")),
            ),
            VirtualSensorOutput::RawPressure => GaugeDescription::new(
                "raw_pressure",
                "Pressure sensor signal",
                Some(GaugeUnit::new("Pa")),
            ),
            VirtualSensorOutput::RawHumidity => GaugeDescription::new(
                "raw_humidity",
                "Relative humidity sensor signal",
                Some(GaugeUnit::new_with_display("percent", "%")),
            ),
            VirtualSensorOutput::RawGas => GaugeDescription::new(
                "raw_gas",
                "Gas sensor signal",
                Some(GaugeUnit::new_with_display("ohm", "Ω")),
            ),
            VirtualSensorOutput::StabilizationStatus => GaugeDescription::new(
                "stabilization_status",
                "Gas sensor stabilization status (boolean)",
                None,
            ),
            VirtualSensorOutput::RunInStatus => GaugeDescription::new(
                "run_in_status",
                "Gas sensor run-in status (boolean)",
                None,
            ),
            VirtualSensorOutput::SensorHeatCompensatedTemperature => GaugeDescription::new(
                "temperature",
                "Sensor heat compensated temperature",
                Some(GaugeUnit::new_with_display("celsius", "°C")),
            ),
            VirtualSensorOutput::SensorHeatCompensatedHumidity => GaugeDescription::new(
                "humidity",
                "Sensor heat compensated humidity",
                Some(GaugeUnit::new_with_display("percent", "%")),
            ),
            VirtualSensorOutput::DebugCompensatedGas => GaugeDescription::new(
                "debug_compensated_gas",
                "Reserved internal debug output",
                None,
            ),
            VirtualSensorOutput::GasPercentage => GaugeDescription::new(
                "gas",
                "Percentage of min and max filtered gas value",
                Some(GaugeUnit::new_with_display("percent", "%")),
            ),
        }
    }

    /// Name of the value gauge.
    pub fn value_name(&self) -> (name: String)
        ensures
            name@ == self@.value_name(),
    {
        let mut name = String::from_str(self.name);
        match self.unit {
            Some(unit) => {
                name.append("_");
                name.append(unit.ident_suffix());
            },
            None => {},
        }
        name
    }

    /// Help text of the value gauge.
    pub fn value_help(&self) -> (help: String)
        ensures
            help@ == self@.value_help(),
    {
        let mut help = String::from_str(self.help);
        match self.unit {
            Some(unit) => {
                help.append(" (");
                help.append(unit.display());
                help.append(")");
            },
            None => {},
        }
        help
    }

    /// Name of the accuracy gauge.
    pub fn accuracy_name(&self) -> (name: String)
        ensures
            name@ == self@.accuracy_name(),
    {
        let mut name = String::from_str(self.name);
        name.append("_accuracy");
        name
    }

    /// Help text of the accuracy gauge.
    pub fn accuracy_help(&self) -> (help: String)
        ensures
            help@ == self@.accuracy_help(),
    {
        let mut help = String::from_str(self.help);
        help.append(" (accuracy)");
        help
    }
}

} // verus!
