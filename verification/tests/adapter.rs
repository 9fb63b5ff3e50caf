use linux_bsec_exporter::blocking::Blocked;
use linux_bsec_exporter::bsec::get_version;
use linux_bsec_exporter::bsec::BmeOutput;
use linux_bsec_exporter::bsec::Bsec;
use linux_bsec_exporter::bsec::EngineSlot;
use linux_bsec_exporter::bsec::OutputSignal;
use linux_bsec_exporter::bsec::RequestedSensorConfiguration;
use linux_bsec_exporter::error::BsecError;
use linux_bsec_exporter::error::Error;
use linux_bsec_exporter::sample_rate::SampleRate;
use linux_bsec_exporter::sensor::PhysicalSensorInput;
use linux_bsec_exporter::sensor::VirtualSensorOutput;
use linux_bsec_exporter::wire::BmeSettings;
use linux_bsec_exporter::wire::InputRecord;
use linux_bsec_exporter::wire::OutputRecord;
use linux_bsec_exporter::wire::SensorConfiguration;
use linux_bsec_exporter::wire::Version;
use linux_bsec_exporter::wire::MAX_PHYSICAL_SENSOR;
use linux_bsec_exporter::wire::MAX_PROPERTY_BLOB_SIZE;
use linux_bsec_exporter::wire::MAX_STATE_BLOB_SIZE;
use std::cell::RefCell;
use std::collections::HashMap;

/// Stands in for the fusion engine: passes raw channels through, asks to be
/// called every three seconds, and keeps blobs as they are given.
struct FakeEngine {
    subscribed: Vec<u8>,
    state: Vec<u8>,
    configuration: Vec<u8>,
}

impl FakeEngine {
    fn new() -> Self {
        FakeEngine { subscribed: vec![], state: vec![7, 7, 7], configuration: vec![] }
    }

    fn init(&mut self) -> i32 {
        0
    }

    fn update_subscription(
        &mut self,
        requested: &[SensorConfiguration],
    ) -> (i32, Vec<SensorConfiguration>, u8) {
        for request in requested {
            self.subscribed.retain(|id| *id != request.sensor_id);
            if request.sample_rate != SampleRate::Disabled.wire_bits() {
                self.subscribed.push(request.sensor_id);
            }
        }
        let mut required =
            vec![SensorConfiguration { sample_rate: 0, sensor_id: 0 }; MAX_PHYSICAL_SENSOR as usize];
        for (slot, id) in [1u8, 2, 3, 4].iter().enumerate() {
            required[slot] =
                SensorConfiguration { sample_rate: SampleRate::Lp.wire_bits(), sensor_id: *id };
        }
        (0, required, 4)
    }

    fn sensor_control(&mut self, time_stamp: i64) -> (i32, BmeSettings) {
        (
            0,
            BmeSettings {
                next_call: time_stamp + 3_000_000_000,
                heater_temperature: 320,
                heating_duration: 150,
                run_gas: 1,
                pressure_oversampling: 5,
                temperature_oversampling: 2,
                humidity_oversampling: 1,
                trigger_measurement: 1,
            },
        )
    }

    fn do_steps(&mut self, inputs: &[InputRecord], n_outputs: u8) -> (i32, Vec<OutputRecord>, u8) {
        let mut outputs = vec![
            OutputRecord {
                time_stamp: 0,
                signal: 0,
                signal_dimensions: 1,
                sensor_id: 0,
                accuracy: 0
            };
            n_outputs as usize
        ];
        let mut written = 0usize;
        for input in inputs {
            let raw = match input.sensor_id {
                3 => 6u8,
                1 => 7,
                2 => 8,
                4 => 9,
                _ => continue,
            };
            if self.subscribed.contains(&raw) && written < outputs.len() {
                outputs[written] = OutputRecord {
                    time_stamp: input.time_stamp,
                    signal: input.signal,
                    signal_dimensions: 1,
                    sensor_id: raw,
                    accuracy: 3,
                };
                written += 1;
            }
        }
        (0, outputs, written as u8)
    }

    fn get_state(&self) -> (i32, Vec<u8>, u32) {
        let mut buffer = vec![0u8; MAX_STATE_BLOB_SIZE as usize];
        buffer[..self.state.len()].copy_from_slice(&self.state);
        (0, buffer, self.state.len() as u32)
    }

    fn set_state(&mut self, state: &[u8]) -> i32 {
        self.state = state.to_vec();
        0
    }

    fn get_configuration(&self) -> (i32, Vec<u8>, u32) {
        let mut buffer = vec![0u8; MAX_PROPERTY_BLOB_SIZE as usize];
        buffer[..self.configuration.len()].copy_from_slice(&self.configuration);
        (0, buffer, self.configuration.len() as u32)
    }

    fn set_configuration(&mut self, configuration: &[u8]) -> i32 {
        self.configuration = configuration.to_vec();
        0
    }
}

#[derive(Default)]
struct FakeTime {
    timestamp_ns: RefCell<i64>,
}

impl FakeTime {
    fn timestamp_ns(&self) -> i64 {
        *self.timestamp_ns.borrow_mut() += 1;
        *self.timestamp_ns.borrow()
    }

    fn advance_by(&self, nanos: u64) {
        *self.timestamp_ns.borrow_mut() += nanos as i64;
    }
}

fn init(slot: &mut EngineSlot, engine: &mut FakeEngine, time: &FakeTime) -> Result<Bsec, Error<()>> {
    let reservation = slot.try_acquire()?;
    Bsec::init(slot, reservation, engine.init(), time.timestamp_ns())
}

fn subscribe(
    bsec: &mut Bsec,
    engine: &mut FakeEngine,
    requests: &[RequestedSensorConfiguration],
) -> Result<usize, Error<()>> {
    let wire = Bsec::subscription_request::<()>(requests)?;
    let (code, required, n_required) = engine.update_subscription(&wire);
    Ok(bsec.update_subscription::<()>(requests, code, &required, n_required)?.len())
}

fn bits(value: f32) -> u32 {
    value.to_bits()
}

#[test]
fn cannot_create_mulitple_bsec_at_the_same_time() {
    let time = FakeTime::default();
    let mut slot = EngineSlot::new();
    let mut engine = FakeEngine::new();
    let first = init(&mut slot, &mut engine, &time).unwrap();
    assert!(init(&mut slot, &mut engine, &time).is_err());
    first.release(&mut slot);
    let _another = init(&mut slot, &mut engine, &time).unwrap();
}

#[test]
fn second_instance_fails_with_the_exclusivity_error() {
    let mut slot = EngineSlot::new();
    let _held = slot.try_acquire::<()>().unwrap();
    assert!(matches!(slot.try_acquire::<()>(), Err(Error::BsecAlreadyInUse)));
    assert!(matches!(slot.try_acquire::<()>(), Err(Error::BsecAlreadyInUse)));
}

#[test]
fn failed_engine_initialization_frees_the_slot() {
    let mut slot = EngineSlot::new();
    let reservation = slot.try_acquire::<()>().unwrap();
    let result = Bsec::init::<()>(&mut slot, reservation, -33, 0);
    assert!(matches!(result, Err(Error::BsecError(BsecError::ConfigFail))));
    // no instance is alive, so the next one can be made
    let reservation = slot.try_acquire::<()>().unwrap();
    let bsec = Bsec::init::<()>(&mut slot, reservation, 0, 0).unwrap();
    assert!(matches!(slot.try_acquire::<()>(), Err(Error::BsecAlreadyInUse)));
    bsec.release(&mut slot);
    assert!(slot.try_acquire::<()>().is_ok());
}

#[test]
fn basic_bsec_operation_smoke_test() {
    let time = FakeTime::default();
    let mut slot = EngineSlot::new();
    let mut engine = FakeEngine::new();
    let readings = vec![
        BmeOutput { sensor: PhysicalSensorInput::Temperature, signal: bits(22.) },
        BmeOutput { sensor: PhysicalSensorInput::Humidity, signal: bits(40.) },
        BmeOutput { sensor: PhysicalSensorInput::Pressure, signal: bits(1000.) },
        BmeOutput { sensor: PhysicalSensorInput::GasResistor, signal: bits(6000.) },
    ];
    let mut bsec = init(&mut slot, &mut engine, &time).unwrap();
    subscribe(
        &mut bsec,
        &mut engine,
        &[
            RequestedSensorConfiguration {
                sample_rate: SampleRate::Lp,
                sensor: VirtualSensorOutput::RawTemperature,
            },
            RequestedSensorConfiguration {
                sample_rate: SampleRate::Lp,
                sensor: VirtualSensorOutput::RawHumidity,
            },
            RequestedSensorConfiguration {
                sample_rate: SampleRate::Lp,
                sensor: VirtualSensorOutput::RawPressure,
            },
            RequestedSensorConfiguration {
                sample_rate: SampleRate::Lp,
                sensor: VirtualSensorOutput::RawGas,
            },
        ],
    )
    .unwrap();

    let (code, settings) = engine.sensor_control(time.timestamp_ns());
    let handle = bsec.start_next_measurement::<()>(code, settings).unwrap();
    assert_eq!(handle.heater_temperature(), 320);
    assert_eq!(handle.heating_duration(), 150);
    assert!(handle.run_gas());
    assert_eq!(handle.pressure_oversampling(), 5);
    assert_eq!(handle.temperature_oversampling(), 2);
    assert_eq!(handle.humidity_oversampling(), 1);
    time.advance_by(bsec.sensor_started::<()>(Ok(0)).unwrap());
    let request = bsec.step_request::<()>(time.timestamp_ns(), Ok(readings)).unwrap();
    assert_eq!(request.n_outputs, 4);
    let (code, buffer, written) = engine.do_steps(&request.inputs, request.n_outputs);
    let outputs = bsec.process_last_measurement::<()>(code, &buffer, written).unwrap();
    assert!(bsec.next_measurement() >= 3_000_000_000);

    let signals: HashMap<VirtualSensorOutput, &OutputSignal> =
        outputs.iter().map(|s| (s.sensor, s)).collect();
    let value = |sensor: VirtualSensorOutput| f32::from_bits(signals.get(&sensor).unwrap().signal) as f64;
    assert!((value(VirtualSensorOutput::RawTemperature) - 22.).abs() < f64::EPSILON);
    assert!((value(VirtualSensorOutput::RawHumidity) - 40.).abs() < f64::EPSILON);
    assert!((value(VirtualSensorOutput::RawPressure) - 1000.).abs() < f64::EPSILON);
    assert!((value(VirtualSensorOutput::RawGas) - 6000.).abs() < f64::EPSILON);
}

#[test]
fn roundtrip_state_smoke_test() {
    let time = FakeTime::default();
    let mut slot = EngineSlot::new();
    let mut engine = FakeEngine::new();
    let mut bsec = init(&mut slot, &mut engine, &time).unwrap();
    let (code, buffer, length) = engine.get_state();
    let state = bsec.get_state::<()>(code, &buffer, length).unwrap();
    assert_eq!(state, vec![7, 7, 7]);
    assert_eq!(Bsec::blob_length::<()>(&state).unwrap(), 3);
    let code = engine.set_state(&state);
    bsec.set_state::<()>(code).unwrap();
    assert_eq!(engine.state, state);
}

#[test]
fn configuration_roundtrip_smoke_test() {
    let time = FakeTime::default();
    let mut slot = EngineSlot::new();
    let mut engine = FakeEngine::new();
    let mut bsec = init(&mut slot, &mut engine, &time).unwrap();
    let file: Vec<u8> = vec![5, 0, 0, 0, 10, 20, 30, 40, 50];
    let config = &file[4..]; // First 4 bytes give config length
    assert_eq!(Bsec::blob_length::<()>(config).unwrap(), 5);
    let code = engine.set_configuration(config);
    bsec.set_configuration::<()>(code).unwrap();
    let (code, buffer, length) = engine.get_configuration();
    assert_eq!(bsec.get_configuration::<()>(code, &buffer, length).unwrap(), config);
}

#[test]
fn get_version_smoke_test() {
    let version = get_version(
        0,
        Version { major: 1, minor: 4, major_bugfix: 8, minor_bugfix: 0 },
    )
    .unwrap();
    assert!(version.0 == 1);
    assert!(version.1 >= 4);
    assert!(version.1 > 4 || version.2 >= 8);
    assert_eq!(version, (1, 4, 8, 0));
    assert_eq!(
        get_version(-34, Version { major: 1, minor: 4, major_bugfix: 8, minor_bugfix: 0 }),
        Err(BsecError::ConfigVersionMismatch)
    );
}

#[test]
fn reset_output_smoke_test() {
    let time = FakeTime::default();
    let mut slot = EngineSlot::new();
    let mut engine = FakeEngine::new();
    let mut bsec = init(&mut slot, &mut engine, &time).unwrap();
    assert_eq!(u8::from(VirtualSensorOutput::Iaq), 1);
    bsec.reset_output::<()>(0).unwrap();
    assert!(matches!(
        bsec.reset_output::<()>(-100),
        Err(Error::BsecError(BsecError::SetInvalidChannelIdentifier))
    ));
}

fn fresh() -> Bsec {
    let mut slot = EngineSlot::new();
    let reservation = slot.try_acquire::<()>().unwrap();
    Bsec::init::<()>(&mut slot, reservation, 0, 17).unwrap()
}

fn request(sensor: VirtualSensorOutput, sample_rate: SampleRate) -> RequestedSensorConfiguration {
    RequestedSensorConfiguration { sample_rate, sensor }
}

fn offered_slots(bsec: &mut Bsec) -> u8 {
    bsec.sensor_started::<()>(Ok(0)).unwrap();
    let request = bsec.step_request::<()>(0, Ok(vec![])).unwrap();
    bsec.process_last_measurement::<()>(0, &[], 0).unwrap();
    request.n_outputs
}

#[test]
fn next_measurement_starts_at_the_time_of_initialization() {
    let bsec = fresh();
    assert_eq!(bsec.next_measurement(), 17);
    assert!(!bsec.measurement_started());
}

#[test]
fn subscriptions_size_the_output_buffer() {
    let mut bsec = fresh();
    let requests = [
        request(VirtualSensorOutput::RawGas, SampleRate::Lp),
        request(VirtualSensorOutput::Iaq, SampleRate::Continuous),
        request(VirtualSensorOutput::RawPressure, SampleRate::UlpMeasurementOnDemand),
    ];
    bsec.update_subscription::<()>(&requests, 0, &[], 0).unwrap();
    assert_eq!(offered_slots(&mut bsec), 3);
    // the one-shot request was used up by that step
    assert_eq!(offered_slots(&mut bsec), 2);
    let requests = [request(VirtualSensorOutput::Iaq, SampleRate::Disabled)];
    bsec.update_subscription::<()>(&requests, 0, &[], 0).unwrap();
    assert_eq!(offered_slots(&mut bsec), 1);
    assert_eq!(offered_slots(&mut bsec), 1);
}

#[test]
fn one_shot_request_for_a_subscribed_sensor_leaves_it_subscribed() {
    let mut bsec = fresh();
    bsec.update_subscription::<()>(&[request(VirtualSensorOutput::RawGas, SampleRate::Lp)], 0, &[], 0)
        .unwrap();
    bsec.update_subscription::<()>(
        &[request(VirtualSensorOutput::RawGas, SampleRate::UlpMeasurementOnDemand)],
        0,
        &[],
        0,
    )
    .unwrap();
    assert_eq!(offered_slots(&mut bsec), 1);
    assert_eq!(offered_slots(&mut bsec), 1);
}

#[test]
fn later_request_for_the_same_sensor_wins() {
    let mut bsec = fresh();
    let requests = [
        request(VirtualSensorOutput::RawGas, SampleRate::Lp),
        request(VirtualSensorOutput::RawGas, SampleRate::Disabled),
    ];
    bsec.update_subscription::<()>(&requests, 0, &[], 0).unwrap();
    assert_eq!(offered_slots(&mut bsec), 0);
}

#[test]
fn rejected_subscription_changes_nothing() {
    let mut bsec = fresh();
    let requests = [request(VirtualSensorOutput::RawGas, SampleRate::Lp)];
    let result = bsec.update_subscription::<()>(&requests, -13, &[], 0);
    assert!(matches!(result, Err(Error::BsecError(BsecError::UpdateSubscriptionDuplicateGate))));
    assert_eq!(offered_slots(&mut bsec), 0);
}

#[test]
fn too_many_subscription_requests_are_refused() {
    let requests = vec![request(VirtualSensorOutput::RawGas, SampleRate::Lp); 256];
    assert!(matches!(
        Bsec::subscription_request::<()>(&requests),
        Err(Error::ArgumentListTooLong)
    ));
    let mut bsec = fresh();
    assert!(matches!(
        bsec.update_subscription::<()>(&requests, 0, &[], 0),
        Err(Error::ArgumentListTooLong)
    ));
    assert_eq!(offered_slots(&mut bsec), 0);
    assert_eq!(Bsec::subscription_request::<()>(&requests[..255]).unwrap().len(), 255);
}

#[test]
fn subscription_request_is_written_in_wire_form() {
    let requests = [
        request(VirtualSensorOutput::GasPercentage, SampleRate::Ulp),
        request(VirtualSensorOutput::Iaq, SampleRate::Disabled),
    ];
    assert_eq!(
        Bsec::subscription_request::<()>(&requests).unwrap(),
        vec![
            SensorConfiguration { sample_rate: 0.0033333f32.to_bits(), sensor_id: 21 },
            SensorConfiguration { sample_rate: 65535.0f32.to_bits(), sensor_id: 1 },
        ]
    );
}

#[test]
fn required_settings_drop_unknown_sensor_ids() {
    let mut bsec = fresh();
    let required = [
        SensorConfiguration { sample_rate: 11, sensor_id: 3 },
        SensorConfiguration { sample_rate: 12, sensor_id: 99 },
        SensorConfiguration { sample_rate: 13, sensor_id: 14 },
        SensorConfiguration { sample_rate: 14, sensor_id: 1 },
    ];
    let settings = bsec.update_subscription::<()>(&[], 0, &required, 3).unwrap();
    assert_eq!(settings.len(), 2);
    assert_eq!(settings[0].sensor, PhysicalSensorInput::Temperature);
    assert_eq!(settings[0].sample_rate, 11);
    assert_eq!(settings[1].sensor, PhysicalSensorInput::HeatSource);
    assert_eq!(settings[1].sample_rate, 13);
    // a count beyond the buffer is cut to the buffer
    let settings = bsec.update_subscription::<()>(&[], 0, &required, 200).unwrap();
    assert_eq!(settings.len(), 3);
}

fn directive(next_call: i64, trigger_measurement: u8) -> BmeSettings {
    BmeSettings {
        next_call,
        heater_temperature: 300,
        heating_duration: 100,
        run_gas: 0,
        pressure_oversampling: 1,
        temperature_oversampling: 2,
        humidity_oversampling: 3,
        trigger_measurement,
    }
}

#[test]
fn directive_without_trigger_would_block() {
    let mut bsec = fresh();
    let result = bsec.start_next_measurement::<()>(0, directive(5_000, 0));
    assert!(matches!(result, Err(Blocked::WouldBlock)));
    assert_eq!(bsec.next_measurement(), 5_000);
    assert!(!bsec.measurement_started());
}

#[test]
fn directive_with_trigger_hands_out_the_settings() {
    let mut bsec = fresh();
    let handle = bsec.start_next_measurement::<()>(0, directive(9_000, 1)).unwrap();
    assert_eq!(bsec.next_measurement(), 9_000);
    assert_eq!(handle.heater_temperature(), 300);
    assert!(!handle.run_gas());
    assert_eq!(handle.humidity_oversampling(), 3);
}

#[test]
fn failed_sensor_control_keeps_the_schedule() {
    let mut bsec = fresh();
    let result = bsec.start_next_measurement::<()>(100, directive(9_000, 1));
    assert!(matches!(
        result,
        Err(Blocked::Other(Error::BsecError(BsecError::SensorControlCallTimingViolation)))
    ));
    assert_eq!(bsec.next_measurement(), 17);
}

#[test]
fn sensor_errors_are_wrapped_as_the_cause() {
    let mut bsec = fresh();
    assert!(matches!(bsec.sensor_started::<u8>(Err(4)), Err(Error::BmeSensorError(4))));
    assert!(!bsec.measurement_started());
    assert_eq!(bsec.sensor_started::<u8>(Ok(1234)).unwrap(), 1234);
    assert!(bsec.measurement_started());
    assert!(matches!(
        bsec.step_request::<u8>(0, Err(Blocked::Other(9))),
        Err(Blocked::Other(Error::BmeSensorError(9)))
    ));
    assert!(matches!(bsec.step_request::<u8>(0, Err(Blocked::WouldBlock)), Err(Blocked::WouldBlock)));
    assert!(bsec.measurement_started());
}

#[test]
fn sensor_not_ready_keeps_the_one_shot_request() {
    let mut bsec = fresh();
    bsec.update_subscription::<()>(
        &[request(VirtualSensorOutput::RawGas, SampleRate::UlpMeasurementOnDemand)],
        0,
        &[],
        0,
    )
    .unwrap();
    bsec.sensor_started::<()>(Ok(0)).unwrap();
    assert!(bsec.step_request::<()>(0, Err(Blocked::WouldBlock)).is_err());
    assert_eq!(bsec.step_request::<()>(0, Ok(vec![])).unwrap().n_outputs, 1);
    assert_eq!(bsec.step_request::<()>(0, Ok(vec![])).unwrap().n_outputs, 0);
}

#[test]
fn readings_share_one_time_stamp() {
    let mut bsec = fresh();
    bsec.sensor_started::<()>(Ok(0)).unwrap();
    let readings = vec![
        BmeOutput { sensor: PhysicalSensorInput::Temperature, signal: 1 },
        BmeOutput { sensor: PhysicalSensorInput::DisableBaselineTracker, signal: 2 },
    ];
    let request = bsec.step_request::<()>(4242, Ok(readings)).unwrap();
    assert_eq!(
        request.inputs,
        vec![
            InputRecord { time_stamp: 4242, signal: 1, signal_dimensions: 1, sensor_id: 3 },
            InputRecord { time_stamp: 4242, signal: 2, signal_dimensions: 1, sensor_id: 23 },
        ]
    );
}

#[test]
fn too_many_readings_are_refused() {
    let mut bsec = fresh();
    bsec.sensor_started::<()>(Ok(0)).unwrap();
    let readings = vec![BmeOutput { sensor: PhysicalSensorInput::Pressure, signal: 0 }; 256];
    assert!(matches!(
        bsec.step_request::<()>(0, Ok(readings)),
        Err(Blocked::Other(Error::ArgumentListTooLong))
    ));
}

#[test]
fn outputs_with_unknown_codes_are_dropped() {
    let mut bsec = fresh();
    let record = |sensor_id: u8, accuracy: u8| OutputRecord {
        time_stamp: 5,
        signal: 77,
        signal_dimensions: 1,
        sensor_id,
        accuracy,
    };
    let outputs = [record(6, 3), record(5, 3), record(9, 4), record(21, 0), record(1, 1)];
    bsec.sensor_started::<()>(Ok(0)).unwrap();
    let signals = bsec.process_last_measurement::<()>(0, &outputs, 4).unwrap();
    assert!(!bsec.measurement_started());
    assert_eq!(signals.len(), 2);
    assert_eq!(signals[0].sensor, VirtualSensorOutput::RawTemperature);
    assert_eq!(signals[0].timestamp_ns, 5);
    assert_eq!(signals[0].signal, 77);
    assert_eq!(signals[1].sensor, VirtualSensorOutput::GasPercentage);
    bsec.sensor_started::<()>(Ok(0)).unwrap();
    assert!(matches!(
        bsec.process_last_measurement::<()>(-2, &outputs, 4),
        Err(Error::BsecError(BsecError::DoStepsValueLimits))
    ));
}

#[test]
fn blob_longer_than_its_buffer_is_refused() {
    let bsec = fresh();
    assert!(matches!(
        bsec.get_state::<()>(0, &[1, 2, 3], 4),
        Err(Error::ArgumentListTooLong)
    ));
    assert_eq!(bsec.get_state::<()>(0, &[1, 2, 3], 2).unwrap(), vec![1, 2]);
    assert!(matches!(
        bsec.get_configuration::<()>(-41, &[1, 2, 3], 2),
        Err(Error::BsecError(BsecError::ConfigInsufficientBuffer))
    ));
}
