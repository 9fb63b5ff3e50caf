//! The engine adapter: the single point of contact with the fusion engine.
//!
//! The engine itself is reached through a foreign call interface that only
//! the surrounding program can use. The adapter therefore never makes a call.
//! Each of its operations comes in two halves: one that says what is to be
//! handed to the engine, and one that takes what the engine answered and
//! decides what follows. Between the two the caller performs the call.
//!
//! The adapter keeps what the engine does not report back: the set of
//! subscribed virtual sensors, the set of one-shot requests that the next
//! step consumes, the time at which the engine wants to be asked again, and
//! whether a physical measurement is under way.

use crate::accuracy::Accuracy;
use crate::blocking::Blocked;
use crate::error::adapter_result;
use crate::error::check_return_code;
use crate::error::BsecError;
use crate::error::ConversionError;
use crate::error::Error;
use crate::error::IntoResult;
use crate::error::BSEC_OK;
use crate::sample_rate::SampleRate;
use crate::sensor::PhysicalSensorInput;
use crate::sensor::VirtualSensorOutput;
use crate::sensor_set::SensorSet;
use crate::wire::BmeSettings;
use crate::wire::InputRecord;
use crate::wire::OutputRecord;
use crate::wire::SensorConfiguration;
use crate::wire::Version;
use crate::wire::MAX_LIST_LENGTH;
use vstd::prelude::*;
use vstd::std_specs::convert::FromSpecImpl;
use vstd::std_specs::convert::TryFromSpecImpl;

verus! {

/// The part of the engine's instruction that concerns the physical sensor.
#[derive(Clone, Copy, Debug)]
pub struct BmeSettingsHandle {
    bme_settings: BmeSettings,
}

impl View for BmeSettingsHandle {
    type V = BmeSettings;

    closed spec fn view(&self) -> BmeSettings {
        self.bme_settings
    }
}

impl BmeSettingsHandle {
    pub fn new(bme_settings: BmeSettings) -> (handle: BmeSettingsHandle)
        ensures
            handle@ == bme_settings,
    {
        BmeSettingsHandle { bme_settings }
    }

    /// Target temperature of the heater plate, in degrees Celsius.
    pub fn heater_temperature(&self) -> (degrees: u16)
        ensures
            degrees == self@.heater_temperature,
    {
        self.bme_settings.heater_temperature
    }

    /// How long the heater is to run, in milliseconds.
    pub fn heating_duration(&self) -> (milliseconds: u16)
        ensures
            milliseconds == self@.heating_duration,
    {
        self.bme_settings.heating_duration
    }

    /// Whether the gas resistance is to be measured.
    pub fn run_gas(&self) -> (enabled: bool)
        ensures
            enabled == (self@.run_gas == 1),
    {
        self.bme_settings.run_gas == 1
    }

    pub fn pressure_oversampling(&self) -> (setting: u8)
        ensures
            setting == self@.pressure_oversampling,
    {
        self.bme_settings.pressure_oversampling
    }

    pub fn temperature_oversampling(&self) -> (setting: u8)
        ensures
            setting == self@.temperature_oversampling,
    {
        self.bme_settings.temperature_oversampling
    }

    pub fn humidity_oversampling(&self) -> (setting: u8)
        ensures
            setting == self@.humidity_oversampling,
    {
        self.bme_settings.humidity_oversampling
    }
}

/// One reading of the physical sensor. `signal` is a binary32 pattern.
#[derive(Clone, Copy, Debug, PartialEq, Eq, Structural)]
pub struct BmeOutput {
    pub signal: u32,
    pub sensor: PhysicalSensorInput,
}

/// The wire record that hands a reading to the engine, stamped with the time
/// that all readings of one step share.
pub open spec fn input_record(time_stamp: i64, reading: BmeOutput) -> InputRecord {
    InputRecord {
        time_stamp,
        signal: reading.signal,
        signal_dimensions: 1,
        sensor_id: reading.sensor.wire_id(),
    }
}

/// One output of the engine. `signal` is a binary32 pattern.
#[derive(Clone, Copy, Debug, PartialEq, Eq, Structural)]
pub struct OutputSignal {
    pub timestamp_ns: i64,
    pub signal: u32,
    pub sensor: VirtualSensorOutput,
    pub accuracy: Accuracy,
}

impl OutputSignal {
    /// What reading an output record yields. The sensor id is read before
    /// the accuracy, so a record that fails on both reports the sensor id.
    pub open spec fn read(output: OutputRecord) -> Result<OutputSignal, ConversionError> {
        match VirtualSensorOutput::read_wire_id(output.sensor_id as u32) {
            Err(error) => Err(error),
            Ok(sensor) => match Accuracy::of_code(output.accuracy) {
                None => Err(ConversionError::InvalidAccuracy(output.accuracy)),
                Some(accuracy) => Ok(
                    OutputSignal {
                        timestamp_ns: output.time_stamp,
                        signal: output.signal,
                        sensor,
                        accuracy,
                    },
                ),
            },
        }
    }
}

impl TryFrom<&OutputRecord> for OutputSignal {
    type Error = ConversionError;

    fn try_from(output: &OutputRecord) -> (result: Result<OutputSignal, ConversionError>) {
        let sensor = match VirtualSensorOutput::try_from(output.sensor_id) {
            Ok(sensor) => sensor,
            Err(error) => {
                return Err(error);
            },
        };
        let accuracy = match Accuracy::try_from(output.accuracy) {
            Ok(accuracy) => accuracy,
            Err(error) => {
                return Err(error);
            },
        };
        Ok(OutputSignal { timestamp_ns: output.time_stamp, signal: output.signal, sensor, accuracy })
    }
}

impl TryFromSpecImpl<&OutputRecord> for OutputSignal {
    open spec fn obeys_try_from_spec() -> bool {
        true
    }

    open spec fn try_from_spec(output: &OutputRecord) -> Result<OutputSignal, ConversionError> {
        OutputSignal::read(*output)
    }
}

/// A request to change the subscription of one virtual sensor.
#[derive(Clone, Copy, Debug, PartialEq, Eq, Hash, Structural)]
pub struct RequestedSensorConfiguration {
    pub sample_rate: SampleRate,
    pub sensor: VirtualSensorOutput,
}

impl RequestedSensorConfiguration {
    /// The wire record that hands this request to the engine.
    pub open spec fn wire(self) -> SensorConfiguration {
        SensorConfiguration {
            sample_rate: self.sample_rate.spec_wire_bits(),
            sensor_id: self.sensor.wire_id(),
        }
    }
}

impl From<&RequestedSensorConfiguration> for SensorConfiguration {
    fn from(sensor_configuration: &RequestedSensorConfiguration) -> (wire: SensorConfiguration) {
        SensorConfiguration {
            sample_rate: sensor_configuration.sample_rate.wire_bits(),
            sensor_id: u8::from(sensor_configuration.sensor),
        }
    }
}

impl FromSpecImpl<&RequestedSensorConfiguration> for SensorConfiguration {
    open spec fn obeys_from_spec() -> bool {
        true
    }

    open spec fn from_spec(sensor_configuration: &RequestedSensorConfiguration) -> SensorConfiguration {
        sensor_configuration.wire()
    }
}

/// A physical channel that the engine needs for the current subscriptions,
/// with the rate at which it needs it. `sample_rate` is a binary32 pattern.
#[derive(Clone, Copy, Debug, PartialEq, Eq, Structural)]
pub struct RequiredSensorSettings {
    pub sample_rate: u32,
    pub sensor: PhysicalSensorInput,
}

impl RequiredSensorSettings {
    /// What reading a sensor configuration of the engine yields.
    pub open spec fn read(sensor_configuration: SensorConfiguration) -> Result<
        RequiredSensorSettings,
        ConversionError,
    > {
        match PhysicalSensorInput::read_wire_id(sensor_configuration.sensor_id as u32) {
            Err(error) => Err(error),
            Ok(sensor) => Ok(
                RequiredSensorSettings { sample_rate: sensor_configuration.sample_rate, sensor },
            ),
        }
    }
}

impl TryFrom<&SensorConfiguration> for RequiredSensorSettings {
    type Error = ConversionError;

    fn try_from(sensor_configuration: &SensorConfiguration) -> (result: Result<
        RequiredSensorSettings,
        ConversionError,
    >) {
        match PhysicalSensorInput::try_from(sensor_configuration.sensor_id) {
            Ok(sensor) => Ok(
                RequiredSensorSettings { sample_rate: sensor_configuration.sample_rate, sensor },
            ),
            Err(error) => Err(error),
        }
    }
}

impl TryFromSpecImpl<&SensorConfiguration> for RequiredSensorSettings {
    open spec fn obeys_try_from_spec() -> bool {
        true
    }

    open spec fn try_from_spec(sensor_configuration: &SensorConfiguration) -> Result<
        RequiredSensorSettings,
        ConversionError,
    > {
        RequiredSensorSettings::read(*sensor_configuration)
    }
}

/// The process-wide flag that admits one engine instance at a time, held as
/// a value. The surrounding program keeps a single slot for the process.
#[derive(Debug)]
pub struct EngineSlot {
    in_use: bool,
}

/// Proof that the slot was taken: an adapter can only be made from one.
#[derive(Debug)]
pub struct Reservation {
    granted: bool,
}

impl EngineSlot {
    /// Whether an engine instance holds the slot.
    pub closed spec fn in_use(self) -> bool {
        self.in_use
    }

    /// The slot after an attempt to take it, granted or not.
    pub closed spec fn occupied(self) -> EngineSlot {
        EngineSlot { in_use: true }
    }

    /// The slot after the instance that held it is gone.
    pub closed spec fn vacated(self) -> EngineSlot {
        EngineSlot { in_use: false }
    }

    /// While an instance is alive no second one can be made, and the failed
    /// attempt changes nothing; once the instance is gone, one can be made
    /// again.
    pub proof fn lemma_exclusive(slot: EngineSlot)
        ensures
            slot.occupied().in_use(),
            slot.in_use() ==> slot.occupied() == slot,
            !slot.vacated().in_use(),
            !slot.occupied().vacated().in_use(),
    {
    }

    /// A slot that nothing holds.
    pub fn new() -> (slot: EngineSlot)
        ensures
            !slot.in_use(),
    {
        EngineSlot { in_use: false }
    }

    /// Takes the slot if it is free. The slot is then held until a failed
    /// [`Bsec::init`] or [`Bsec::release`] gives it back.
    pub fn try_acquire<E>(&mut self) -> (result: Result<Reservation, Error<E>>)
        ensures
            *final(self) == old(self).occupied(),
            final(self).in_use(),
            old(self).in_use() ==> result matches Err(Error::BsecAlreadyInUse),
            !old(self).in_use() ==> result is Ok,
    {
        if self.in_use {
            Err(Error::BsecAlreadyInUse)
        } else {
            self.in_use = true;
            Ok(Reservation { granted: true })
        }
    }
}

/// What the adapter knows, as mathematics.
pub struct BsecView {
    /// Virtual sensors with a standing subscription.
    pub subscribed: Set<VirtualSensorOutput>,
    /// Virtual sensors with a one-shot request that the next step consumes.
    pub one_shot: Set<VirtualSensorOutput>,
    /// When the engine wants to be asked again, in nanoseconds.
    pub next_measurement: i64,
    /// Whether the physical sensor was started and not yet read out.
    pub measuring: bool,
}

impl BsecView {
    /// The virtual sensors for which the next step must offer an output slot.
    pub open spec fn wanted(self) -> Set<VirtualSensorOutput> {
        self.subscribed.union(self.one_shot)
    }

    /// The effect of one subscription request.
    pub open spec fn subscribe(self, request: RequestedSensorConfiguration) -> BsecView {
        match request.sample_rate {
            SampleRate::Disabled => BsecView {
                subscribed: self.subscribed.remove(request.sensor),
                one_shot: self.one_shot.remove(request.sensor),
                ..self
            },
            SampleRate::UlpMeasurementOnDemand => BsecView {
                one_shot: self.one_shot.insert(request.sensor),
                ..self
            },
            _ => BsecView { subscribed: self.subscribed.insert(request.sensor), ..self },
        }
    }

    /// The effect of a list of subscription requests, taken in order.
    pub open spec fn subscribe_all(self, requests: Seq<RequestedSensorConfiguration>) -> BsecView
        decreases requests.len(),
    {
        if requests.len() == 0 {
            self
        } else {
            self.subscribe_all(requests.drop_last()).subscribe(requests.last())
        }
    }

    /// The effect of an engine step on the bookkeeping: the one-shot requests
    /// are used up.
    pub open spec fn stepped(self) -> BsecView {
        BsecView { one_shot: Set::empty(), ..self }
    }

    /// A list of requests leaves a sensor that none of them names as it
    /// was, and changes nothing but the two sets.
    pub proof fn lemma_unnamed_sensor_is_left_alone(
        self,
        requests: Seq<RequestedSensorConfiguration>,
        sensor: VirtualSensorOutput,
    )
        requires
            forall|k: int| 0 <= k < requests.len() ==> requests[k].sensor != sensor,
        ensures
            self.subscribe_all(requests).subscribed.contains(sensor) == self.subscribed.contains(
                sensor,
            ),
            self.subscribe_all(requests).one_shot.contains(sensor) == self.one_shot.contains(
                sensor,
            ),
            self.subscribe_all(requests).next_measurement == self.next_measurement,
            self.subscribe_all(requests).measuring == self.measuring,
        decreases requests.len(),
    {
        if requests.len() > 0 {
            self.lemma_unnamed_sensor_is_left_alone(requests.drop_last(), sensor);
        }
    }

    /// In a list of requests for distinct sensors, each request does to its
    /// sensor what it would do alone.
    pub proof fn lemma_each_request_takes_effect(
        self,
        requests: Seq<RequestedSensorConfiguration>,
        i: int,
    )
        requires
            0 <= i < requests.len(),
            forall|a: int, b: int|
                0 <= a < b < requests.len() ==> requests[a].sensor != requests[b].sensor,
        ensures
            self.subscribe_all(requests).subscribed.contains(requests[i].sensor) == self.subscribe(
                requests[i],
            ).subscribed.contains(requests[i].sensor),
            self.subscribe_all(requests).one_shot.contains(requests[i].sensor) == self.subscribe(
                requests[i],
            ).one_shot.contains(requests[i].sensor),
        decreases requests.len(),
    {
        let earlier = requests.drop_last();
        if i == requests.len() - 1 {
            self.lemma_unnamed_sensor_is_left_alone(earlier, requests[i].sensor);
        } else {
            self.lemma_each_request_takes_effect(earlier, i);
        }
    }

    /// What a list of requests for distinct sensors does to the sensors for
    /// which output slots are offered.
    ///
    /// A request that disables a sensor takes it out of the next step and of
    /// every later one. A one-shot request puts its sensor into the next
    /// step; after that step the sensor is offered a slot only if it had a
    /// standing subscription before. Any other request puts its sensor into
    /// the next step and keeps it there.
    pub proof fn lemma_subscription_effect(
        self,
        requests: Seq<RequestedSensorConfiguration>,
        i: int,
    )
        requires
            0 <= i < requests.len(),
            forall|a: int, b: int|
                0 <= a < b < requests.len() ==> requests[a].sensor != requests[b].sensor,
        ensures
            ({
                let after = self.subscribe_all(requests);
                let sensor = requests[i].sensor;
                match requests[i].sample_rate {
                    SampleRate::Disabled => {
                        &&& !after.wanted().contains(sensor)
                        &&& !after.stepped().wanted().contains(sensor)
                    },
                    SampleRate::UlpMeasurementOnDemand => {
                        &&& after.wanted().contains(sensor)
                        &&& after.stepped().wanted().contains(sensor) == self.subscribed.contains(
                            sensor,
                        )
                    },
                    _ => {
                        &&& after.wanted().contains(sensor)
                        &&& after.stepped().wanted().contains(sensor)
                    },
                }
            }),
    {
        self.lemma_each_request_takes_effect(requests, i);
    }
}

/// The engine's list of required physical channels, read leniently: an entry
/// whose sensor id names no channel is left out.
pub open spec fn required_settings(reported: Seq<SensorConfiguration>) -> Seq<
    RequiredSensorSettings,
> {
    reported.filter_map(
        |sensor_configuration: SensorConfiguration|
            match RequiredSensorSettings::read(sensor_configuration) {
                Ok(settings) => Some(settings),
                Err(_) => None,
            },
    )
}

/// The engine's outputs of one step, read leniently: an entry whose sensor
/// id or accuracy names nothing is left out.
pub open spec fn output_signals(returned: Seq<OutputRecord>) -> Seq<OutputSignal> {
    returned.filter_map(
        |output: OutputRecord|
            match OutputSignal::read(output) {
                Ok(signal) => Some(signal),
                Err(_) => None,
            },
    )
}

/// The entries of a buffer that the engine says it has filled.
pub open spec fn filled<T>(buffer: Seq<T>, count: int) -> Seq<T> {
    if count <= buffer.len() {
        buffer.take(count)
    } else {
        buffer
    }
}

/// What the adapter makes of a blob that the engine wrote into a buffer.
pub open spec fn blob_outcome<E>(return_code: i32, buffer: Seq<u8>, length: u32) -> Result<
    Seq<u8>,
    Error<E>,
> {
    if return_code != BSEC_OK {
        Err(Error::BsecError(BsecError::of_code(return_code)))
    } else if length > buffer.len() {
        Err(Error::ArgumentListTooLong)
    } else {
        Ok(buffer.take(length as int))
    }
}

/// The length of a blob as the wire protocol writes it, if it can.
pub open spec fn wire_length<E>(blob: Seq<u8>) -> Result<u32, Error<E>> {
    if blob.len() > u32::MAX {
        Err(Error::ArgumentListTooLong)
    } else {
        Ok(blob.len() as u32)
    }
}

/// A blob that the adapter handed out can be handed back as it is: it is
/// the bytes that the engine wrote, and its length fits the wire.
pub proof fn lemma_blob_round_trip<E>(buffer: Seq<u8>, length: u32)
    requires
        length <= buffer.len(),
    ensures
        blob_outcome::<E>(BSEC_OK, buffer, length) == Ok::<Seq<u8>, Error<E>>(
            buffer.take(length as int),
        ),
        wire_length::<E>(buffer.take(length as int)) == Ok::<u32, Error<E>>(length),
{
}

/// What is handed to the engine for one step.
#[derive(Debug)]
pub struct StepRequest {
    /// The readings, stamped with one shared time.
    pub inputs: Vec<InputRecord>,
    /// How many outputs the engine may return.
    pub n_outputs: u8,
}

/// The engine adapter.
#[derive(Debug)]
pub struct Bsec {
    subscribed: SensorSet,
    ulp_plus_queue: SensorSet,
    next_measurement: i64,
    measuring: bool,
}

impl View for Bsec {
    type V = BsecView;

    closed spec fn view(&self) -> BsecView {
        BsecView {
            subscribed: self.subscribed@,
            one_shot: self.ulp_plus_queue@,
            next_measurement: self.next_measurement,
            measuring: self.measuring,
        }
    }
}

impl Bsec {
    /// Makes the adapter once the slot is taken and the engine has answered
    /// its one-time initialization call. `time_stamp` is the current time.
    ///
    /// If the engine complained there is no instance, and the slot is free
    /// again. Otherwise the slot stays as the reservation left it, until the
    /// instance is released.
    pub fn init<E>(
        slot: &mut EngineSlot,
        reservation: Reservation,
        return_code: i32,
        time_stamp: i64,
    ) -> (result: Result<Bsec, Error<E>>)
        ensures
            return_code != BSEC_OK ==> *final(slot) == old(slot).vacated() && !final(slot).in_use()
                && result == Err::<Bsec, Error<E>>(
                Error::BsecError(BsecError::of_code(return_code)),
            ),
            return_code == BSEC_OK ==> *final(slot) == *old(slot) && (result matches Ok(bsec)
                && bsec@ == (BsecView {
                subscribed: Set::empty(),
                one_shot: Set::empty(),
                next_measurement: time_stamp,
                measuring: false,
            })),
    {
        match check_return_code(return_code) {
            Err(error) => {
                slot.in_use = false;
                Err(error)
            },
            Ok(()) => Ok(
                Bsec {
                    subscribed: SensorSet::empty(),
                    ulp_plus_queue: SensorSet::empty(),
                    next_measurement: time_stamp,
                    measuring: false,
                },
            ),
        }
    }

    /// Ends the instance and gives the slot back.
    pub fn release(self, slot: &mut EngineSlot)
        ensures
            *final(slot) == old(slot).vacated(),
            !final(slot).in_use(),
    {
        slot.in_use = false;
    }

    /// The subscription requests in wire form, as they are to be handed to
    /// the engine. Fails if their number does not fit into one byte.
    pub fn subscription_request<E>(requested_outputs: &[RequestedSensorConfiguration]) -> (result:
        Result<Vec<SensorConfiguration>, Error<E>>)
        ensures
            requested_outputs@.len() > MAX_LIST_LENGTH ==> result matches Err(
                Error::ArgumentListTooLong,
            ),
            requested_outputs@.len() <= MAX_LIST_LENGTH ==> (result matches Ok(list) && list@
                == requested_outputs@.map_values(
                |request: RequestedSensorConfiguration| request.wire(),
            )),
    {
        if requested_outputs.len() > MAX_LIST_LENGTH {
            return Err(Error::ArgumentListTooLong);
        }
        let mut list: Vec<SensorConfiguration> = Vec::new();
        let mut i: usize = 0;
        while i < requested_outputs.len()
            invariant
                i <= requested_outputs.len(),
                list@ == requested_outputs@.take(i as int).map_values(
                    |request: RequestedSensorConfiguration| request.wire(),
                ),
            decreases requested_outputs.len() - i,
        {
            list.push(SensorConfiguration::from(&requested_outputs[i]));
            i = i + 1;
            proof {
                assert(list@ =~= requested_outputs@.take(i as int).map_values(
                    |request: RequestedSensorConfiguration| request.wire(),
                ));
            }
        }
        proof {
            assert(requested_outputs@.take(i as int) =~= requested_outputs@);
        }
        Ok(list)
    }

    /// Takes the engine's answer to a subscription update. `required` is the
    /// buffer that the engine filled with the physical channels it now
    /// needs, `n_required` the number of entries it says it wrote.
    ///
    /// If the engine accepted the update, every request is entered into the
    /// adapter's bookkeeping, in order; otherwise nothing changes.
    pub fn update_subscription<E>(
        &mut self,
        requested_outputs: &[RequestedSensorConfiguration],
        return_code: i32,
        required: &[SensorConfiguration],
        n_required: u8,
    ) -> (result: Result<Vec<RequiredSensorSettings>, Error<E>>)
        ensures
            requested_outputs@.len() > MAX_LIST_LENGTH ==> final(self)@ == old(self)@ && (
            result matches Err(Error::ArgumentListTooLong)),
            requested_outputs@.len() <= MAX_LIST_LENGTH && return_code != BSEC_OK ==> final(self)@
                == old(self)@ && result == Err::<Vec<RequiredSensorSettings>, Error<E>>(
                Error::BsecError(BsecError::of_code(return_code)),
            ),
            requested_outputs@.len() <= MAX_LIST_LENGTH && return_code == BSEC_OK ==> final(self)@
                == old(self)@.subscribe_all(requested_outputs@) && (result matches Ok(settings)
                && settings@ == required_settings(filled(required@, n_required as int))),
    {
        if requested_outputs.len() > MAX_LIST_LENGTH {
            return Err(Error::ArgumentListTooLong);
        }
        match check_return_code(return_code) {
            Err(error) => {
                return Err(error);
            },
            Ok(()) => {},
        }
        let mut i: usize = 0;
        while i < requested_outputs.len()
            invariant
                i <= requested_outputs.len(),
                self@ == old(self)@.subscribe_all(requested_outputs@.take(i as int)),
            decreases requested_outputs.len() - i,
        {
            let changed = requested_outputs[i];
            match changed.sample_rate {
                SampleRate::Disabled => {
                    self.subscribed.remove(changed.sensor);
                    self.ulp_plus_queue.remove(changed.sensor);
                },
                SampleRate::UlpMeasurementOnDemand => {
                    self.ulp_plus_queue.insert(changed.sensor);
                },
                _ => {
                    self.subscribed.insert(changed.sensor);
                },
            }
            proof {
                assert(requested_outputs@.take(i + 1).drop_last() =~= requested_outputs@.take(
                    i as int,
                ));
            }
            i = i + 1;
        }
        proof {
            assert(requested_outputs@.take(i as int) =~= requested_outputs@);
        }
        let count: usize = if (n_required as usize) <= required.len() {
            n_required as usize
        } else {
            required.len()
        };
        let mut settings: Vec<RequiredSensorSettings> = Vec::new();
        let mut k: usize = 0;
        while k < count
            invariant
                k <= count <= required.len(),
                settings@ == required_settings(required@.take(k as int)),
            decreases count - k,
        {
            match RequiredSensorSettings::try_from(&required[k]) {
                Ok(entry) => {
                    settings.push(entry);
                },
                Err(_) => {},
            }
            proof {
                assert(required@.take(k + 1).drop_last() =~= required@.take(k as int));
            }
            k = k + 1;
        }
        proof {
            assert(required@.take(count as int) =~= filled(required@, n_required as int));
        }
        Ok(settings)
    }

    /// When the engine wants to be asked for its next instruction, in
    /// nanoseconds: the `next_call` of the last instruction, or the time of
    /// initialization if there was none yet.
    pub fn next_measurement(&self) -> (time_stamp: i64)
        ensures
            time_stamp == self@.next_measurement,
    {
        self.next_measurement
    }

    /// Whether the physical sensor was started and not yet read out.
    pub fn measurement_started(&self) -> (started: bool)
        ensures
            started == self@.measuring,
    {
        self.measuring
    }

    /// Takes the engine's instruction for the next measurement, which the
    /// caller obtained by asking the engine with the current time.
    ///
    /// An instruction that the engine gave without complaint moves the next
    /// scheduling time to its `next_call`. If it asks for no measurement the
    /// answer is [`Blocked::WouldBlock`], and the sensor is to be left
    /// alone; otherwise the answer holds the settings with which the sensor
    /// is to be started.
    pub fn start_next_measurement<E>(&mut self, return_code: i32, bme_settings: BmeSettings) -> (result:
        Result<BmeSettingsHandle, Blocked<Error<E>>>)
        ensures
            return_code != BSEC_OK ==> final(self)@ == old(self)@ && result == Err::<
                BmeSettingsHandle,
                Blocked<Error<E>>,
            >(Blocked::Other(Error::BsecError(BsecError::of_code(return_code)))),
            return_code == BSEC_OK ==> final(self)@ == (BsecView {
                next_measurement: bme_settings.next_call,
                ..old(self)@
            }),
            return_code == BSEC_OK && bme_settings.trigger_measurement != 1 ==> result == Err::<
                BmeSettingsHandle,
                Blocked<Error<E>>,
            >(Blocked::WouldBlock),
            return_code == BSEC_OK && bme_settings.trigger_measurement == 1 ==> (
            result matches Ok(handle) && handle@ == bme_settings),
    {
        match return_code.into_result() {
            Err(error) => {
                return Err(Blocked::Other(Error::BsecError(error)));
            },
            Ok(()) => {},
        }
        self.next_measurement = bme_settings.next_call;
        if bme_settings.trigger_measurement != 1 {
            return Err(Blocked::WouldBlock);
        }
        Ok(BmeSettingsHandle::new(bme_settings))
    }

    /// Takes the physical sensor's answer to being started: the time that
    /// the measurement will take, in nanoseconds, or the driver's error.
    ///
    /// After a successful start a measurement is under way, and its duration
    /// is handed on unchanged. A failure is wrapped as the cause and changes
    /// nothing.
    pub fn sensor_started<E>(&mut self, outcome: Result<u64, E>) -> (result: Result<u64, Error<E>>)
        ensures
            match outcome {
                Ok(duration) => final(self)@ == (BsecView { measuring: true, ..old(self)@ })
                    && result == Ok::<u64, Error<E>>(duration),
                Err(error) => final(self)@ == old(self)@ && result == Err::<u64, Error<E>>(
                    Error::BmeSensorError(error),
                ),
            },
    {
        match outcome {
            Ok(duration) => {
                self.measuring = true;
                Ok(duration)
            },
            Err(error) => Err(Error::BmeSensorError(error)),
        }
    }

    /// Takes the physical sensor's answer to being polled and, if it holds
    /// readings, says what is to be handed to the engine for the next step.
    /// `time_stamp` is the current time, which all readings then share.
    ///
    /// A sensor that is not ready, or that failed, changes nothing: the
    /// first is handed on as it is, the second wrapped as the cause. With
    /// readings in hand the one-shot requests count as used up, whatever
    /// follows. The step offers one output slot for each virtual sensor that
    /// was subscribed or requested once. More readings than fit into a list
    /// on the wire are refused.
    pub fn step_request<E>(
        &mut self,
        time_stamp: i64,
        measurement: Result<Vec<BmeOutput>, Blocked<E>>,
    ) -> (result: Result<StepRequest, Blocked<Error<E>>>)
        requires
            old(self)@.measuring,
        ensures
            old(self)@.wanted().finite(),
            match measurement {
                Err(Blocked::WouldBlock) => final(self)@ == old(self)@ && result == Err::<
                    StepRequest,
                    Blocked<Error<E>>,
                >(Blocked::WouldBlock),
                Err(Blocked::Other(error)) => final(self)@ == old(self)@ && result == Err::<
                    StepRequest,
                    Blocked<Error<E>>,
                >(Blocked::Other(Error::BmeSensorError(error))),
                Ok(readings) => final(self)@ == old(self)@.stepped() && if readings@.len()
                    > MAX_LIST_LENGTH {
                    result == Err::<StepRequest, Blocked<Error<E>>>(
                        Blocked::Other(Error::ArgumentListTooLong),
                    )
                } else {
                    result matches Ok(request) && request.inputs@ == readings@.map_values(
                        |reading: BmeOutput| input_record(time_stamp, reading),
                    ) && request.n_outputs == old(self)@.wanted().len()
                },
            },
    {
        let wanted = self.subscribed.union(self.ulp_plus_queue);
        let n_outputs = wanted.len();
        let readings = match measurement {
            Ok(readings) => readings,
            Err(Blocked::WouldBlock) => {
                return Err(Blocked::WouldBlock);
            },
            Err(Blocked::Other(error)) => {
                return Err(Blocked::Other(Error::BmeSensorError(error)));
            },
        };
        self.ulp_plus_queue = SensorSet::empty();
        if readings.len() > MAX_LIST_LENGTH {
            return Err(Blocked::Other(Error::ArgumentListTooLong));
        }
        let mut inputs: Vec<InputRecord> = Vec::new();
        let mut i: usize = 0;
        while i < readings.len()
            invariant
                i <= readings.len(),
                inputs@ == readings@.take(i as int).map_values(
                    |reading: BmeOutput| input_record(time_stamp, reading),
                ),
            decreases readings.len() - i,
        {
            let reading = readings[i];
            inputs.push(
                InputRecord {
                    time_stamp,
                    signal: reading.signal,
                    signal_dimensions: 1,
                    sensor_id: u8::from(reading.sensor),
                },
            );
            i = i + 1;
            proof {
                assert(inputs@ =~= readings@.take(i as int).map_values(
                    |reading: BmeOutput| input_record(time_stamp, reading),
                ));
            }
        }
        proof {
            assert(readings@.take(i as int) =~= readings@);
        }
        Ok(StepRequest { inputs, n_outputs })
    }

    /// Takes the engine's answer to a step: its return code, the buffer it
    /// wrote outputs into, and the number of outputs it says it wrote.
    ///
    /// A measurement must be under way: without one there was nothing to
    /// hand to the engine. The measurement is over either way. If the
    /// engine did not complain,
    /// the answer holds its outputs in the order it gave them, without
    /// those whose sensor id or accuracy names nothing.
    pub fn process_last_measurement<E>(
        &mut self,
        return_code: i32,
        outputs: &[OutputRecord],
        n_outputs: u8,
    ) -> (result: Result<Vec<OutputSignal>, Error<E>>)
        requires
            old(self)@.measuring,
        ensures
            final(self)@ == (BsecView { measuring: false, ..old(self)@ }),
            return_code != BSEC_OK ==> result == Err::<Vec<OutputSignal>, Error<E>>(
                Error::BsecError(BsecError::of_code(return_code)),
            ),
            return_code == BSEC_OK ==> (result matches Ok(signals) && signals@ == output_signals(
                filled(outputs@, n_outputs as int),
            )),
    {
        self.measuring = false;
        match check_return_code(return_code) {
            Err(error) => {
                return Err(error);
            },
            Ok(()) => {},
        }
        let count: usize = if (n_outputs as usize) <= outputs.len() {
            n_outputs as usize
        } else {
            outputs.len()
        };
        let mut signals: Vec<OutputSignal> = Vec::new();
        let mut k: usize = 0;
        while k < count
            invariant
                k <= count <= outputs.len(),
                signals@ == output_signals(outputs@.take(k as int)),
            decreases count - k,
        {
            match OutputSignal::try_from(&outputs[k]) {
                Ok(signal) => {
                    signals.push(signal);
                },
                Err(_) => {},
            }
            proof {
                assert(outputs@.take(k + 1).drop_last() =~= outputs@.take(k as int));
            }
            k = k + 1;
        }
        proof {
            assert(outputs@.take(count as int) =~= filled(outputs@, n_outputs as int));
        }
        Ok(signals)
    }

    /// The length of a state or configuration blob as the wire protocol
    /// writes it. Fails if the blob is too long for that.
    pub fn blob_length<E>(blob: &[u8]) -> (result: Result<u32, Error<E>>)
        ensures
            result == wire_length::<E>(blob@),
    {
        if blob.len() > u32::MAX as usize {
            Err(Error::ArgumentListTooLong)
        } else {
            Ok(blob.len() as u32)
        }
    }

    /// Takes the engine's answer to a request for its state: its return
    /// code, the buffer it wrote into, and the number of bytes it says it
    /// wrote. The answer is those bytes, and a failure if the engine
    /// complained or claims more bytes than the buffer has.
    pub fn get_state<E>(&self, return_code: i32, state: &[u8], state_length: u32) -> (result:
        Result<Vec<u8>, Error<E>>)
        ensures
            match blob_outcome::<E>(return_code, state@, state_length) {
                Ok(blob) => result matches Ok(bytes) && bytes@ == blob,
                Err(error) => result == Err::<Vec<u8>, Error<E>>(error),
            },
    {
        written_blob(return_code, state, state_length)
    }

    /// Takes the engine's answer to a state blob that was handed to it. The
    /// adapter's own bookkeeping is not part of that state and stays as it
    /// is.
    pub fn set_state<E>(&mut self, return_code: i32) -> (result: Result<(), Error<E>>)
        ensures
            final(self)@ == old(self)@,
            result == adapter_result::<E>(return_code),
    {
        check_return_code(return_code)
    }

    /// Takes the engine's answer to a request for its configuration, as
    /// [`Bsec::get_state`] does for its state.
    pub fn get_configuration<E>(
        &self,
        return_code: i32,
        serialized_settings: &[u8],
        serialized_settings_length: u32,
    ) -> (result: Result<Vec<u8>, Error<E>>)
        ensures
            match blob_outcome::<E>(return_code, serialized_settings@, serialized_settings_length) {
                Ok(blob) => result matches Ok(bytes) && bytes@ == blob,
                Err(error) => result == Err::<Vec<u8>, Error<E>>(error),
            },
    {
        written_blob(return_code, serialized_settings, serialized_settings_length)
    }

    /// Takes the engine's answer to a configuration blob that was handed to
    /// it.
    pub fn set_configuration<E>(&mut self, return_code: i32) -> (result: Result<(), Error<E>>)
        ensures
            final(self)@ == old(self)@,
            result == adapter_result::<E>(return_code),
    {
        check_return_code(return_code)
    }

    /// Takes the engine's answer to a request to forget the history of one
    /// virtual sensor, which is named to the engine by its wire id.
    /// Subscriptions are not touched.
    pub fn reset_output<E>(&mut self, return_code: i32) -> (result: Result<(), Error<E>>)
        ensures
            final(self)@ == old(self)@,
            result == adapter_result::<E>(return_code),
    {
        check_return_code(return_code)
    }
}

fn written_blob<E>(return_code: i32, buffer: &[u8], length: u32) -> (result: Result<
    Vec<u8>,
    Error<E>,
>)
    ensures
        match blob_outcome::<E>(return_code, buffer@, length) {
            Ok(blob) => result matches Ok(bytes) && bytes@ == blob,
            Err(error) => result == Err::<Vec<u8>, Error<E>>(error),
        },
{
    match check_return_code(return_code) {
        Err(error) => {
            return Err(error);
        },
        Ok(()) => {},
    }
    if length as usize > buffer.len() {
        return Err(Error::ArgumentListTooLong);
    }
    let mut bytes: Vec<u8> = Vec::new();
    let mut i: usize = 0;
    while i < length as usize
        invariant
            i <= length <= buffer.len(),
            bytes@ == buffer@.take(i as int),
        decreases length - i,
    {
        bytes.push(buffer[i]);
        i = i + 1;
        proof {
            assert(bytes@ =~= buffer@.take(i as int));
        }
    }
    Ok(bytes)
}

/// Takes the engine's answer to a request for its version: the four parts
/// in the order major, minor, major bug fix, minor bug fix.
pub fn get_version(return_code: i32, version: Version) -> (result: Result<
    (u8, u8, u8, u8),
    BsecError,
>)
    ensures
        return_code != BSEC_OK ==> result == Err::<(u8, u8, u8, u8), BsecError>(
            BsecError::of_code(return_code),
        ),
        return_code == BSEC_OK ==> result == Ok::<(u8, u8, u8, u8), BsecError>(
            (version.major, version.minor, version.major_bugfix, version.minor_bugfix),
        ),
{
    match return_code.into_result() {
        Err(error) => Err(error),
        Ok(()) => Ok((version.major, version.minor, version.major_bugfix, version.minor_bugfix)),
    }
}

} // verus!
