//! The rules of the configuration: defaults, the names by which the
//! subscription table refers to virtual sensors, and the framing of the
//! engine's configuration blob.

use crate::bsec::RequestedSensorConfiguration;
use crate::sample_rate::SampleRate;
use crate::sensor::VirtualSensorOutput;
use vstd::prelude::*;
use vstd::slice::slice_subrange;
use vstd::std_specs::convert::FromSpecImpl;

verus! {

/// Bytes at the head of a configuration file that give the length of what
/// follows.
pub const CONFIG_LENGTH_PREFIX: usize = 4;

/// The part of a configuration file that is handed to the engine: the file
/// without its length prefix. A file too short to hold the prefix has no
/// such part.
pub fn configuration_payload(file: &[u8]) -> (payload: Option<&[u8]>)
    ensures
        file@.len() < CONFIG_LENGTH_PREFIX ==> payload is None,
        file@.len() >= CONFIG_LENGTH_PREFIX ==> (payload matches Some(blob) && blob@ == file@.skip(
            CONFIG_LENGTH_PREFIX as int,
        )),
{
    if file.len() < CONFIG_LENGTH_PREFIX {
        None
    } else {
        Some(slice_subrange(file, CONFIG_LENGTH_PREFIX, file.len()))
    }
}

/// A sample rate as the subscription table can name it.
#[derive(Clone, Copy, Debug, PartialEq, Eq, Structural)]
pub enum SampleRateDef {
    Disabled,
    Ulp,
    Continuous,
    Lp,
}

impl SampleRateDef {
    /// The sample rate that the table entry stands for.
    pub open spec fn rate(self) -> SampleRate {
        match self {
            SampleRateDef::Disabled => SampleRate::Disabled,
            SampleRateDef::Ulp => SampleRate::Ulp,
            SampleRateDef::Continuous => SampleRate::Continuous,
            SampleRateDef::Lp => SampleRate::Lp,
        }
    }
}

/// The entry of the subscription table that a name spells, if it spells
/// one. The names are the variants' in lower case.
pub open spec fn sample_rate_named(name: Seq<char>) -> Option<SampleRateDef> {
    if name == "disabled"@ {
        Some(SampleRateDef::Disabled)
    } else if name == "ulp"@ {
        Some(SampleRateDef::Ulp)
    } else if name == "continuous"@ {
        Some(SampleRateDef::Continuous)
    } else if name == "lp"@ {
        Some(SampleRateDef::Lp)
    } else {
        None
    }
}

/// Reads a sample rate as the subscription table spells it.
pub fn sample_rate_from_str(name: &str) -> (result: Option<SampleRateDef>)
    ensures
        result == sample_rate_named(name@),
{
    let name = name.to_owned();
    if is_named(&name, "disabled") {
        Some(SampleRateDef::Disabled)
    } else if is_named(&name, "ulp") {
        Some(SampleRateDef::Ulp)
    } else if is_named(&name, "continuous") {
        Some(SampleRateDef::Continuous)
    } else if is_named(&name, "lp") {
        Some(SampleRateDef::Lp)
    } else {
        None
    }
}

impl From<&SampleRateDef> for SampleRate {
    fn from(sample_rate: &SampleRateDef) -> (rate: SampleRate) {
        match sample_rate {
            SampleRateDef::Disabled => SampleRate::Disabled,
            SampleRateDef::Ulp => SampleRate::Ulp,
            SampleRateDef::Continuous => SampleRate::Continuous,
            SampleRateDef::Lp => SampleRate::Lp,
        }
    }
}

impl FromSpecImpl<&SampleRateDef> for SampleRate {
    open spec fn obeys_from_spec() -> bool {
        true
    }

    open spec fn from_spec(sample_rate: &SampleRateDef) -> SampleRate {
        sample_rate.rate()
    }
}

/// A name in the subscription table that is no virtual sensor's.
#[derive(Clone, Debug, PartialEq, Eq)]
pub struct UnknownVariant {
    pub variant: String,
}

/// The virtual sensor that the subscription table means by a name. The
/// engine's internal debug output has no name there.
pub open spec fn output_kind_named(name: Seq<char>) -> Option<VirtualSensorOutput> {
    if name == "iaq"@ {
        Some(VirtualSensorOutput::Iaq)
    } else if name == "static_iaq"@ {
        Some(VirtualSensorOutput::StaticIaq)
    } else if name == "co2_equivalent"@ {
        Some(VirtualSensorOutput::Co2Equivalent)
    } else if name == "breath_voc_equivalent"@ {
        Some(VirtualSensorOutput::BreathVocEquivalent)
    } else if name == "raw_temperature"@ {
        Some(VirtualSensorOutput::RawTemperature)
    } else if name == "raw_pressure"@ {
        Some(VirtualSensorOutput::RawPressure)
    } else if name == "raw_humidity"@ {
        Some(VirtualSensorOutput::RawHumidity)
    } else if name == "raw_gas"@ {
        Some(VirtualSensorOutput::RawGas)
    } else if name == "stabilization_status"@ {
        Some(VirtualSensorOutput::StabilizationStatus)
    } else if name == "run_in_status"@ {
        Some(VirtualSensorOutput::RunInStatus)
    } else if name == "sensor_heat_compensated_temperature"@ {
        Some(VirtualSensorOutput::SensorHeatCompensatedTemperature)
    } else if name == "sensor_heat_compensated_humidity"@ {
        Some(VirtualSensorOutput::SensorHeatCompensatedHumidity)
    } else if name == "gas_percentage"@ {
        Some(VirtualSensorOutput::GasPercentage)
    } else {
        None
    }
}

fn is_named(name: &String, literal: &str) -> (same: bool)
    ensures
        same == (name@ == literal@),
{
    let other = String::from_str(literal);
    *name == other
}

/// Reads a name of the subscription table. A name that is no virtual
/// sensor's is an error and is handed back.
pub fn output_kind_from_str(variant: &str) -> (result: Result<VirtualSensorOutput, UnknownVariant>)
    ensures
        match output_kind_named(variant@) {
            Some(sensor) => result == Ok::<VirtualSensorOutput, UnknownVariant>(sensor),
            None => result matches Err(unknown) && unknown.variant@ == variant@,
        },
{
    let name = variant.to_owned();
    if is_named(&name, "iaq") {
        Ok(VirtualSensorOutput::Iaq)
    } else if is_named(&name, "static_iaq") {
        Ok(VirtualSensorOutput::StaticIaq)
    } else if is_named(&name, "co2_equivalent") {
        Ok(VirtualSensorOutput::Co2Equivalent)
    } else if is_named(&name, "breath_voc_equivalent") {
        Ok(VirtualSensorOutput::BreathVocEquivalent)
    } else if is_named(&name, "raw_temperature") {
        Ok(VirtualSensorOutput::RawTemperature)
    } else if is_named(&name, "raw_pressure") {
        Ok(VirtualSensorOutput::RawPressure)
    } else if is_named(&name, "raw_humidity") {
        Ok(VirtualSensorOutput::RawHumidity)
    } else if is_named(&name, "raw_gas") {
        Ok(VirtualSensorOutput::RawGas)
    } else if is_named(&name, "stabilization_status") {
        Ok(VirtualSensorOutput::StabilizationStatus)
    } else if is_named(&name, "run_in_status") {
        Ok(VirtualSensorOutput::RunInStatus)
    } else if is_named(&name, "sensor_heat_compensated_temperature") {
        Ok(VirtualSensorOutput::SensorHeatCompensatedTemperature)
    } else if is_named(&name, "sensor_heat_compensated_humidity") {
        Ok(VirtualSensorOutput::SensorHeatCompensatedHumidity)
    } else if is_named(&name, "gas_percentage") {
        Ok(VirtualSensorOutput::GasPercentage)
    } else {
        Err(UnknownVariant { variant: name })
    }
}

/// The names that the subscription table accepts, in the order of the
/// virtual sensors, for the message that reports an unknown one.
pub fn output_kind_names() -> (names: Vec<&'static str>)
    ensures
        names@.len() == 13,
        names@[0]@ == "iaq"@,
        names@[1]@ == "static_iaq"@,
        names@[2]@ == "co2_equivalent"@,
        names@[3]@ == "breath_voc_equivalent"@,
        names@[4]@ == "raw_temperature"@,
        names@[5]@ == "raw_pressure"@,
        names@[6]@ == "raw_humidity"@,
        names@[7]@ == "raw_gas"@,
        names@[8]@ == "stabilization_status"@,
        names@[9]@ == "run_in_status"@,
        names@[10]@ == "sensor_heat_compensated_temperature"@,
        names@[11]@ == "sensor_heat_compensated_humidity"@,
        names@[12]@ == "gas_percentage"@,
{
    vec![
        "iaq",
        "static_iaq",
        "co2_equivalent",
        "breath_voc_equivalent",
        "raw_temperature",
        "raw_pressure",
        "raw_humidity",
        "raw_gas",
        "stabilization_status",
        "run_in_status",
        "sensor_heat_compensated_temperature",
        "sensor_heat_compensated_humidity",
        "gas_percentage",
    ]
}

/// Whether every name of a subscription table is a virtual sensor's.
pub open spec fn all_known(table: Seq<(String, SampleRateDef)>) -> bool {
    forall|i: int| 0 <= i < table.len() ==> output_kind_named((#[trigger] table[i]).0@) is Some
}

/// The subscription request that one entry of the table stands for.
pub open spec fn subscription_of(entry: (String, SampleRateDef)) -> RequestedSensorConfiguration
    recommends
        output_kind_named(entry.0@) is Some,
{
    RequestedSensorConfiguration {
        sample_rate: entry.1.rate(),
        sensor: output_kind_named(entry.0@).unwrap(),
    }
}

/// Turns the subscription table, as a list of names with rates, into
/// subscription requests in the same order.
///
/// If a name is no virtual sensor's there is no result: the first such
/// name is reported.
pub fn subscriptions_from_table(table: &[(String, SampleRateDef)]) -> (result: Result<
    Vec<RequestedSensorConfiguration>,
    UnknownVariant,
>)
    ensures
        all_known(table@) ==> (result matches Ok(requests) && requests@ == table@.map_values(
            |entry: (String, SampleRateDef)| subscription_of(entry),
        )),
        !all_known(table@) ==> (result matches Err(unknown) && exists|i: int|
            0 <= i < table@.len() && all_known(table@.take(i)) && output_kind_named(
                (#[trigger] table@[i]).0@,
            ) is None && unknown.variant@ == table@[i].0@),
{
    let mut requests: Vec<RequestedSensorConfiguration> = Vec::new();
    let mut i: usize = 0;
    while i < table.len()
        invariant
            i <= table.len(),
            all_known(table@.take(i as int)),
            requests@ == table@.take(i as int).map_values(
                |entry: (String, SampleRateDef)| subscription_of(entry),
            ),
        decreases table.len() - i,
    {
        let sensor = match output_kind_from_str(table[i].0.as_str()) {
            Ok(sensor) => sensor,
            Err(unknown) => {
                proof {
                    assert(table@[i as int] == table@[i as int]);
                }
                return Err(unknown);
            },
        };
        requests.push(
            RequestedSensorConfiguration { sample_rate: SampleRate::from(&table[i].1), sensor },
        );
        i = i + 1;
        proof {
            assert forall|k: int| 0 <= k < i implies output_kind_named(
                (#[trigger] table@.take(i as int)[k]).0@,
            ) is Some by {
                if k < i - 1 {
                    assert(table@.take(i - 1)[k] == table@[k]);
                }
            }
            assert(requests@ =~= table@.take(i as int).map_values(
                |entry: (String, SampleRateDef)| subscription_of(entry),
            ));
        }
    }
    proof {
        assert(table@.take(i as int) =~= table@);
    }
    Ok(requests)
}

/// Where the engine's configuration blob is looked for unless the
/// configuration says otherwise.
pub fn default_bsec_config() -> (path: String)
    ensures
        path@ == "/etc/linux-bsec-exporter/bsec.conf"@,
{
    String::from_str("/etc/linux-bsec-exporter/bsec.conf")
}

/// Where the engine's state is kept unless the configuration says otherwise.
pub fn default_bsec_state_file() -> (path: String)
    ensures
        path@ == "/var/lib/linux-bsec-exporter/bsec-state.bin"@,
{
    String::from_str("/var/lib/linux-bsec-exporter/bsec-state.bin")
}

/// The virtual sensors that are subscribed when the configuration names
/// none: all but the two air-quality indices and the engine's internal
/// debug output.
pub open spec fn default_subscription_sensors() -> Seq<VirtualSensorOutput> {
    seq![
        VirtualSensorOutput::Co2Equivalent,
        VirtualSensorOutput::BreathVocEquivalent,
        VirtualSensorOutput::RawTemperature,
        VirtualSensorOutput::RawPressure,
        VirtualSensorOutput::RawHumidity,
        VirtualSensorOutput::RawGas,
        VirtualSensorOutput::StabilizationStatus,
        VirtualSensorOutput::RunInStatus,
        VirtualSensorOutput::SensorHeatCompensatedTemperature,
        VirtualSensorOutput::SensorHeatCompensatedHumidity,
        VirtualSensorOutput::GasPercentage,
    ]
}

/// The subscriptions that hold when the configuration names none: the
/// default sensors, each in low-power mode.
pub fn all_bsec_subscriptions_config() -> (requests: Vec<RequestedSensorConfiguration>)
    ensures
        requests@ == default_subscription_sensors().map_values(
            |sensor: VirtualSensorOutput|
                RequestedSensorConfiguration { sample_rate: SampleRate::Lp, sensor },
        ),
{
    let sensors = [
        VirtualSensorOutput::Co2Equivalent,
        VirtualSensorOutput::BreathVocEquivalent,
        VirtualSensorOutput::RawTemperature,
        VirtualSensorOutput::RawPressure,
        VirtualSensorOutput::RawHumidity,
        VirtualSensorOutput::RawGas,
        VirtualSensorOutput::StabilizationStatus,
        VirtualSensorOutput::RunInStatus,
        VirtualSensorOutput::SensorHeatCompensatedTemperature,
        VirtualSensorOutput::SensorHeatCompensatedHumidity,
        VirtualSensorOutput::GasPercentage,
    ];
    let mut requests: Vec<RequestedSensorConfiguration> = Vec::new();
    let mut i: usize = 0;
    while i < 11
        invariant
            i <= 11,
            sensors@ == default_subscription_sensors(),
            requests@ == sensors@.take(i as int).map_values(
                |sensor: VirtualSensorOutput|
                    RequestedSensorConfiguration { sample_rate: SampleRate::Lp, sensor },
            ),
        decreases 11 - i,
    {
        requests.push(
            RequestedSensorConfiguration { sample_rate: SampleRate::Lp, sensor: sensors[i] },
        );
        i = i + 1;
        proof {
            assert(requests@ =~= sensors@.take(i as int).map_values(
                |sensor: VirtualSensorOutput|
                    RequestedSensorConfiguration { sample_rate: SampleRate::Lp, sensor },
            ));
        }
    }
    proof {
        assert(sensors@.take(11) =~= sensors@);
    }
    requests
}

/// Where the metrics are served unless the configuration says otherwise.
pub fn default_listen_addrs() -> (listen_addrs: Vec<String>)
    ensures
        listen_addrs@.len() == 1,
        listen_addrs@[0]@ == "localhost:3953"@,
{
    let mut listen_addrs: Vec<String> = Vec::new();
    listen_addrs.push(String::from_str("localhost:3953"));
    listen_addrs
}

/// Configuration of the metrics endpoint.
#[derive(Clone, Debug, PartialEq)]
pub struct ExporterConfig {
    pub listen_addrs: Vec<String>,
}

impl Default for ExporterConfig {
    fn default() -> (config: ExporterConfig)
        ensures
            config.listen_addrs@.len() == 1,
            config.listen_addrs@[0]@ == "localhost:3953"@,
    {
        ExporterConfig { listen_addrs: default_listen_addrs() }
    }
}

} // verus!
