use linux_bsec_exporter::bsec::RequestedSensorConfiguration;
use linux_bsec_exporter::config::all_bsec_subscriptions_config;
use linux_bsec_exporter::config::configuration_payload;
use linux_bsec_exporter::config::default_bsec_config;
use linux_bsec_exporter::config::default_bsec_state_file;
use linux_bsec_exporter::config::default_listen_addrs;
use linux_bsec_exporter::config::output_kind_from_str;
use linux_bsec_exporter::config::output_kind_names;
use linux_bsec_exporter::config::sample_rate_from_str;
use linux_bsec_exporter::config::subscriptions_from_table;
use linux_bsec_exporter::config::ExporterConfig;
use linux_bsec_exporter::config::SampleRateDef;
use linux_bsec_exporter::sample_rate::SampleRate;
use linux_bsec_exporter::sensor::VirtualSensorOutput;
use std::collections::HashSet;

static FULL_CONFIG: &str = r#"
    [sensor]
    device = "/dev/i2c-1"
    address = "secondary"
    initial_ambient_temp_celsius = 25

    [bsec]
    config = "/etc/linux-bsec-exporter/bsec.conf"
    temperature_offset_celsius = 10.0
    state_file = "/var/lib/linux-bsec-exporter/bsec-state.bin"

    [bsec.subscriptions]
    iaq = "ulp"
    static_iaq = "ulp"
    co2_equivalent = "ulp"
    breath_voc_equivalent = "ulp"
    raw_temperature = "ulp"
    raw_pressure = "ulp"
    raw_humidity = "ulp"
    raw_gas = "ulp"
    stabilization_status = "ulp"
    run_in_status = "ulp"
    sensor_heat_compensated_temperature = "ulp"
    sensor_heat_compensated_humidity = "ulp"
    gas_percentage = "ulp"

    [exporter]
    listen_addrs = ["192.168.0.1:1234"]
"#;

static MINIMAL_CONFIG: &str = r#"
    [sensor]
    device = "/dev/i2c-1"
"#;

static MINIMAL_CONFIG_WITH_SECTION_HEADERS: &str = r#"
    [sensor]
    device = "/dev/i2c-1"

    [bsec]

    [exporter]
"#;

/// What the library decides of a configuration file, read with the
/// defaults that hold where the file says nothing.
struct Decided {
    device: String,
    exporter: ExporterConfig,
    config: String,
    state_file: String,
    subscriptions: Vec<RequestedSensorConfiguration>,
}

fn decide(text: &str) -> Decided {
    let root: toml::Value = toml::from_str(text).unwrap();
    let bsec = root.get("bsec");
    let text_of = |section: Option<&toml::Value>, key: &str| {
        section.and_then(|s| s.get(key)).and_then(|v| v.as_str()).map(String::from)
    };
    let subscriptions = match bsec.and_then(|s| s.get("subscriptions")).and_then(|v| v.as_table()) {
        Some(table) => {
            let entries: Vec<(String, SampleRateDef)> = table
                .iter()
                .map(|(k, v)| (k.clone(), sample_rate_from_str(v.as_str().unwrap()).unwrap()))
                .collect();
            subscriptions_from_table(&entries).unwrap()
        }
        None => all_bsec_subscriptions_config(),
    };
    let listen_addrs = root
        .get("exporter")
        .and_then(|s| s.get("listen_addrs"))
        .and_then(|v| v.as_array())
        .map(|a| a.iter().map(|v| v.as_str().unwrap().to_string()).collect());
    Decided {
        device: text_of(root.get("sensor"), "device").unwrap(),
        exporter: match listen_addrs {
            Some(listen_addrs) => ExporterConfig { listen_addrs },
            None => ExporterConfig::default(),
        },
        config: text_of(bsec, "config").unwrap_or_else(default_bsec_config),
        state_file: text_of(bsec, "state_file").unwrap_or_else(default_bsec_state_file),
        subscriptions,
    }
}

#[test]
fn test_reading_full_toml_config() {
    let config = decide(FULL_CONFIG);

    assert_eq!(config.device, "/dev/i2c-1");
    assert_eq!(config.exporter, ExporterConfig { listen_addrs: vec!["192.168.0.1:1234".into()] });
    assert_eq!(config.config, String::from("/etc/linux-bsec-exporter/bsec.conf"));
    assert_eq!(config.state_file, String::from("/var/lib/linux-bsec-exporter/bsec-state.bin"));

    let subscriptions: HashSet<_> = config.subscriptions.into_iter().collect();
    let expected_subscriptions: HashSet<_> = [
        VirtualSensorOutput::Iaq,
        VirtualSensorOutput::StaticIaq,
        VirtualSensorOutput::Co2Equivalent,
        VirtualSensorOutput::BreathVocEquivalent,
        VirtualSensorOutput::RawTemperature,
        VirtualSensorOutput::RawPressure,
        VirtualSensorOutput::RawHumidity,
        VirtualSensorOutput::RawGas,
        VirtualSensorOutput::StabilizationStatus,
        VirtualSensorOutput::RunInStatus,
        VirtualSensorOutput::SensorHeatCompensatedTemperature,
        VirtualSensorOutput::SensorHeatCompensatedHumidity,
        VirtualSensorOutput::GasPercentage,
    ]
    .iter()
    .map(|&sensor| RequestedSensorConfiguration { sensor, sample_rate: SampleRate::Ulp })
    .collect();
    assert_eq!(subscriptions, expected_subscriptions);
}

fn assert_config_defaults(config: Decided) {
    assert_eq!(config.device, "/dev/i2c-1");
    assert_eq!(config.exporter, ExporterConfig { listen_addrs: vec!["localhost:3953".into()] });
    assert_eq!(config.config, "/etc/linux-bsec-exporter/bsec.conf");
    assert_eq!(config.state_file, "/var/lib/linux-bsec-exporter/bsec-state.bin");
    assert_eq!(config.subscriptions, all_bsec_subscriptions_config());
}

#[test]
fn test_config_defaults() {
    assert_config_defaults(decide(MINIMAL_CONFIG));
}

#[test]
fn test_config_defaults_with_section_headers() {
    assert_config_defaults(decide(MINIMAL_CONFIG_WITH_SECTION_HEADERS));
}

#[test]
fn default_subscriptions_are_eleven_sensors_in_low_power_mode() {
    let requests = all_bsec_subscriptions_config();
    let sensors: Vec<VirtualSensorOutput> = requests.iter().map(|r| r.sensor).collect();
    assert_eq!(
        sensors,
        vec![
            VirtualSensorOutput::Co2Equivalent,
            VirtualSensorOutput::BreathVocEquivalent,
            VirtualSensorOutput::RawTemperature,
            VirtualSensorOutput::RawPressure,
            VirtualSensorOutput::RawHumidity,
            VirtualSensorOutput::RawGas,
            VirtualSensorOutput::StabilizationStatus,
            VirtualSensorOutput::RunInStatus,
            VirtualSensorOutput::SensorHeatCompensatedTemperature,
            VirtualSensorOutput::SensorHeatCompensatedHumidity,
            VirtualSensorOutput::GasPercentage,
        ]
    );
    assert!(requests.iter().all(|r| r.sample_rate == SampleRate::Lp));
}

#[test]
fn defaults_are_the_documented_paths() {
    assert_eq!(default_bsec_config(), "/etc/linux-bsec-exporter/bsec.conf");
    assert_eq!(default_bsec_state_file(), "/var/lib/linux-bsec-exporter/bsec-state.bin");
    assert_eq!(default_listen_addrs(), vec![String::from("localhost:3953")]);
    assert_eq!(ExporterConfig::default().listen_addrs, vec![String::from("localhost:3953")]);
}

#[test]
fn every_accepted_name_is_read() {
    let names = output_kind_names();
    assert_eq!(names.len(), 13);
    let sensors: HashSet<VirtualSensorOutput> =
        names.iter().map(|name| output_kind_from_str(name).unwrap()).collect();
    assert_eq!(sensors.len(), 13);
    assert!(!sensors.contains(&VirtualSensorOutput::DebugCompensatedGas));
    assert_eq!(output_kind_from_str("iaq"), Ok(VirtualSensorOutput::Iaq));
    assert_eq!(
        output_kind_from_str("sensor_heat_compensated_humidity"),
        Ok(VirtualSensorOutput::SensorHeatCompensatedHumidity)
    );
}

#[test]
fn unknown_names_are_an_error() {
    for name in ["", "IAQ", "debug_compensated_gas", "stablization_status", "iaq "] {
        let error = output_kind_from_str(name).unwrap_err();
        assert_eq!(error.variant, name);
    }
}

#[test]
fn unknown_name_in_the_table_is_reported() {
    let table = vec![
        (String::from("raw_gas"), SampleRateDef::Lp),
        (String::from("colour"), SampleRateDef::Ulp),
        (String::from("smell"), SampleRateDef::Ulp),
    ];
    assert_eq!(subscriptions_from_table(&table).unwrap_err().variant, "colour");
    assert_eq!(
        subscriptions_from_table(&table[..1]),
        Ok(vec![RequestedSensorConfiguration {
            sample_rate: SampleRate::Lp,
            sensor: VirtualSensorOutput::RawGas
        }])
    );
    assert_eq!(subscriptions_from_table(&[]), Ok(vec![]));
}

#[test]
fn sample_rates_are_spelled_in_lower_case() {
    assert_eq!(sample_rate_from_str("disabled"), Some(SampleRateDef::Disabled));
    assert_eq!(sample_rate_from_str("ulp"), Some(SampleRateDef::Ulp));
    assert_eq!(sample_rate_from_str("continuous"), Some(SampleRateDef::Continuous));
    assert_eq!(sample_rate_from_str("lp"), Some(SampleRateDef::Lp));
    assert_eq!(sample_rate_from_str("Lp"), None);
    assert_eq!(sample_rate_from_str("ulp_measurement_on_demand"), None);
    assert_eq!(SampleRate::from(&SampleRateDef::Disabled), SampleRate::Disabled);
    assert_eq!(SampleRate::from(&SampleRateDef::Ulp), SampleRate::Ulp);
    assert_eq!(SampleRate::from(&SampleRateDef::Continuous), SampleRate::Continuous);
    assert_eq!(SampleRate::from(&SampleRateDef::Lp), SampleRate::Lp);
}

#[test]
fn configuration_blob_loses_its_length_prefix() {
    let file = [4u8, 0, 0, 0, 10, 20, 30, 40];
    assert_eq!(configuration_payload(&file), Some(&file[4..]));
    assert_eq!(configuration_payload(&file[..4]), Some(&file[..0]));
    assert_eq!(configuration_payload(&file[..3]), None);
    assert_eq!(configuration_payload(&[]), None);
}
