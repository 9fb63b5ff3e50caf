//! The scheduler that drives the duty cycle.
//!
//! Sleeping, talking to the engine, the sensor, the disk and the readers of
//! the results are all things that only the surrounding program can do. The
//! scheduler is therefore a state machine: the program tells it what
//! happened, together with the current time, and is told what to do next.
//! It performs that and reports back, until it is told to finish or that
//! the run has failed.
//!
//! One tick of the cycle: wait until the engine wants to be asked, ask it
//! for its instruction, start the sensor if it says so, wait for the
//! measurement, read it out, hand it to the engine, publish the outputs,
//! save the engine's state if that has not been done for a minute, and
//! look for a request to shut down. The first tick begins as soon as the
//! saved state is restored; a request to shut down is only ever looked at
//! at the end of a tick. On shutdown the state is saved once more.

use crate::blocking::Blocked;
use crate::bsec::blob_outcome;
use crate::bsec::input_record;
use crate::bsec::output_signals;
use crate::bsec::filled;
use crate::bsec::BmeOutput;
use crate::bsec::BmeSettingsHandle;
use crate::bsec::Bsec;
use crate::bsec::BsecView;
use crate::bsec::OutputSignal;
use crate::bsec::StepRequest;
use crate::error::BsecError;
use crate::error::Error;
use crate::error::BSEC_OK;
use crate::wire::BmeSettings;
use crate::wire::OutputRecord;
use crate::wire::MAX_LIST_LENGTH;
use vstd::prelude::*;

verus! {

/// Nanoseconds after which the engine's state is saved again.
pub const STATE_SAVE_INTERVAL_NS: i64 = 60_000_000_000;

/// What the scheduler is waiting for.
#[derive(Clone, Copy, Debug, PartialEq, Eq, Structural)]
pub enum Stage {
    /// Nothing has happened yet.
    Created,
    /// The saved state is being looked up.
    Loading,
    /// The engine is taking the saved state.
    Restoring,
    /// At the end of a tick: the shutdown signal is being looked at.
    Boundary,
    /// Asleep until the engine wants to be asked.
    Waiting,
    /// The engine is being asked for its instruction.
    Asking,
    /// The sensor is being started.
    Starting,
    /// Asleep while the sensor measures.
    Settling,
    /// The sensor is being polled.
    Polling,
    /// The engine is doing its step.
    Stepping,
    /// The outputs are being published.
    Publishing,
    /// The engine is handing out its state.
    Snapshotting,
    /// The state is being saved.
    Persisting,
    /// The run has ended after a shutdown request.
    Finished,
    /// The run has ended with a failure.
    Failed,
}

/// What the surrounding program reports.
#[derive(Debug)]
pub enum Event<E> {
    /// The run begins.
    Started,
    /// The saved state was looked up: a blob, or none on a cold start.
    Loaded(Option<Vec<u8>>),
    /// The saved state could not be read.
    LoadFailed,
    /// The engine answered the state handed to it with this return code.
    Restored(i32),
    /// The shutdown signal was looked at; `true` if shutdown is requested.
    ShutdownPolled(bool),
    /// The time asked for has been slept.
    Slept,
    /// The engine answered the question for its instruction.
    Instructed(i32, BmeSettings),
    /// The sensor was told to start: the time in nanoseconds that the
    /// measurement takes, or the driver's error.
    SensorStarted(Result<u64, E>),
    /// The sensor was polled.
    Measured(Result<Vec<BmeOutput>, Blocked<E>>),
    /// The engine did its step: return code, output buffer, and the number
    /// of outputs it says it wrote.
    Stepped(i32, Vec<OutputRecord>, u8),
    /// The outputs reached the readers' cell.
    Published,
    /// The outputs could not be published.
    PublishFailed,
    /// The engine handed out its state: return code, buffer, and the number
    /// of bytes it says it wrote.
    StateFetched(i32, Vec<u8>, u32),
    /// The state was saved.
    Saved,
    /// The state could not be saved.
    SaveFailed,
}

/// Why a run ended early.
#[derive(Clone, Debug)]
pub enum Failure<E> {
    /// The engine adapter reported an error.
    Bsec(Error<E>),
    /// The saved state could not be read or written.
    Persistence,
    /// The outputs could not be published.
    Publication,
    /// The scheduler was told of something it had not asked for.
    OutOfTurn,
}

/// What the surrounding program is to do next.
#[derive(Debug)]
pub enum Action<E> {
    /// Look up the saved state and report `Loaded` or `LoadFailed`.
    LoadState,
    /// Hand this state to the engine and report `Restored`.
    SetState(Vec<u8>),
    /// Let other tasks run, look at the shutdown signal without waiting,
    /// and report `ShutdownPolled`.
    PollShutdown,
    /// Sleep at least this many nanoseconds and report `Slept`.
    Sleep(u64),
    /// Ask the engine for its instruction, giving it this time, and report
    /// `Instructed`.
    SensorControl(i64),
    /// Start the sensor with these settings and report `SensorStarted`.
    StartMeasurement(BmeSettingsHandle),
    /// Poll the sensor and report `Measured`.
    GetMeasurement,
    /// Let the engine do a step on these inputs and report `Stepped`.
    DoSteps(StepRequest),
    /// Put these outputs into the readers' cell and report `Published` or
    /// `PublishFailed`.
    Publish(Vec<OutputSignal>),
    /// Ask the engine for its state and report `StateFetched`.
    GetState,
    /// Save this state and report `Saved` or `SaveFailed`.
    SaveState(Vec<u8>),
    /// The run is over; take the adapter back.
    Finish,
    /// The run has failed; nothing more is to be done.
    Fail(Failure<E>),
}

/// What the scheduler knows, as mathematics.
pub struct MonitorView {
    pub bsec: BsecView,
    /// When the engine's state was last saved, or when the run began.
    pub last_state_save: i64,
    pub stage: Stage,
    /// Whether shutdown was requested.
    pub closing: bool,
}

impl MonitorView {
    /// The sensor is only waited for or polled, and the engine only
    /// stepped, while a measurement is under way. This holds of a new
    /// scheduler and is kept by every step.
    pub open spec fn wf(self) -> bool {
        (self.stage is Settling || self.stage is Polling || self.stage is Stepping)
            ==> self.bsec.measuring
    }

    /// The run fails for the given reason.
    pub open spec fn fails<E>(self, post: MonitorView, action: Action<E>, failure: Failure<E>) -> bool {
        &&& post == MonitorView { stage: Stage::Failed, ..self }
        &&& action == Action::Fail(failure)
    }

    /// A tick begins: if the engine wants to be asked only later, that time
    /// is slept first; otherwise the engine is asked at once.
    pub open spec fn begins_tick<E>(self, now: i64, post: MonitorView, action: Action<E>) -> bool {
        if self.bsec.next_measurement - now > 0 {
            &&& post == MonitorView { stage: Stage::Waiting, ..self }
            &&& action == Action::<E>::Sleep((self.bsec.next_measurement - now) as u64)
        } else {
            &&& post == MonitorView { stage: Stage::Asking, ..self }
            &&& action == Action::<E>::SensorControl(now)
        }
    }

    /// Whether it is time to save the engine's state again.
    pub open spec fn save_is_due(self, now: i64) -> bool {
        now - self.last_state_save >= STATE_SAVE_INTERVAL_NS
    }

    /// The scheduler's rule: in state `self`, told of `event` at time `now`,
    /// it goes to state `post` and asks for `action`.
    pub open spec fn transition<E>(
        self,
        now: i64,
        event: Event<E>,
        post: MonitorView,
        action: Action<E>,
    ) -> bool {
        match self.stage {
            Stage::Created => match event {
                Event::Started => {
                    &&& post == MonitorView { stage: Stage::Loading, last_state_save: now, ..self }
                    &&& action is LoadState
                },
                _ => self.fails(post, action, Failure::OutOfTurn),
            },
            Stage::Loading => match event {
                Event::Loaded(None) => self.begins_tick(now, post, action),
                Event::Loaded(Some(blob)) => if blob@.len() > u32::MAX {
                    self.fails(post, action, Failure::Bsec(Error::ArgumentListTooLong))
                } else {
                    &&& post == MonitorView { stage: Stage::Restoring, ..self }
                    &&& action matches Action::SetState(state)
                    &&& state@ == blob@
                },
                Event::LoadFailed => self.fails(post, action, Failure::Persistence),
                _ => self.fails(post, action, Failure::OutOfTurn),
            },
            Stage::Restoring => match event {
                Event::Restored(return_code) => if return_code == BSEC_OK {
                    self.begins_tick(now, post, action)
                } else {
                    self.fails(
                        post,
                        action,
                        Failure::Bsec(Error::BsecError(BsecError::of_code(return_code))),
                    )
                },
                _ => self.fails(post, action, Failure::OutOfTurn),
            },
            Stage::Boundary => match event {
                Event::ShutdownPolled(requested) => if requested {
                    &&& post == MonitorView { stage: Stage::Snapshotting, closing: true, ..self }
                    &&& action is GetState
                } else {
                    self.begins_tick(now, post, action)
                },
                _ => self.fails(post, action, Failure::OutOfTurn),
            },
            Stage::Waiting => match event {
                Event::Slept => {
                    &&& post == MonitorView { stage: Stage::Asking, ..self }
                    &&& action == Action::<E>::SensorControl(now)
                },
                _ => self.fails(post, action, Failure::OutOfTurn),
            },
            Stage::Asking => match event {
                Event::Instructed(return_code, bme_settings) => if return_code != BSEC_OK {
                    self.fails(
                        post,
                        action,
                        Failure::Bsec(Error::BsecError(BsecError::of_code(return_code))),
                    )
                } else {
                    let instructed = MonitorView {
                        bsec: BsecView { next_measurement: bme_settings.next_call, ..self.bsec },
                        ..self
                    };
                    if bme_settings.trigger_measurement == 1 {
                        &&& post == MonitorView { stage: Stage::Starting, ..instructed }
                        &&& action matches Action::StartMeasurement(handle)
                        &&& handle@ == bme_settings
                    } else {
                        instructed.begins_tick(now, post, action)
                    }
                },
                _ => self.fails(post, action, Failure::OutOfTurn),
            },
            Stage::Starting => match event {
                Event::SensorStarted(Ok(duration)) => {
                    &&& post == MonitorView {
                        stage: Stage::Settling,
                        bsec: BsecView { measuring: true, ..self.bsec },
                        ..self
                    }
                    &&& action == Action::<E>::Sleep(duration)
                },
                Event::SensorStarted(Err(error)) => self.fails(
                    post,
                    action,
                    Failure::Bsec(Error::BmeSensorError(error)),
                ),
                _ => self.fails(post, action, Failure::OutOfTurn),
            },
            Stage::Settling => match event {
                Event::Slept => {
                    &&& post == MonitorView { stage: Stage::Polling, ..self }
                    &&& action is GetMeasurement
                },
                _ => self.fails(post, action, Failure::OutOfTurn),
            },
            Stage::Polling => match event {
                Event::Measured(_) if !self.bsec.measuring => self.fails(
                    post,
                    action,
                    Failure::OutOfTurn,
                ),
                Event::Measured(Err(Blocked::WouldBlock)) => {
                    &&& post == self
                    &&& action is GetMeasurement
                },
                Event::Measured(Err(Blocked::Other(error))) => self.fails(
                    post,
                    action,
                    Failure::Bsec(Error::BmeSensorError(error)),
                ),
                Event::Measured(Ok(readings)) => {
                    let consumed = MonitorView { bsec: self.bsec.stepped(), ..self };
                    if readings@.len() > MAX_LIST_LENGTH {
                        consumed.fails(post, action, Failure::Bsec(Error::ArgumentListTooLong))
                    } else {
                        &&& post == MonitorView { stage: Stage::Stepping, ..consumed }
                        &&& action matches Action::DoSteps(request)
                        &&& request.inputs@ == readings@.map_values(
                            |reading: BmeOutput| input_record(now, reading),
                        )
                        &&& request.n_outputs == self.bsec.wanted().len()
                    }
                },
                _ => self.fails(post, action, Failure::OutOfTurn),
            },
            Stage::Stepping => match event {
                Event::Stepped(_, _, _) if !self.bsec.measuring => self.fails(
                    post,
                    action,
                    Failure::OutOfTurn,
                ),
                Event::Stepped(return_code, outputs, n_outputs) => {
                    let done = MonitorView {
                        bsec: BsecView { measuring: false, ..self.bsec },
                        ..self
                    };
                    if return_code != BSEC_OK {
                        done.fails(
                            post,
                            action,
                            Failure::Bsec(Error::BsecError(BsecError::of_code(return_code))),
                        )
                    } else {
                        &&& post == MonitorView { stage: Stage::Publishing, ..done }
                        &&& action matches Action::Publish(signals)
                        &&& signals@ == output_signals(filled(outputs@, n_outputs as int))
                    }
                },
                _ => self.fails(post, action, Failure::OutOfTurn),
            },
            Stage::Publishing => match event {
                Event::Published => if self.save_is_due(now) {
                    &&& post == MonitorView {
                        stage: Stage::Snapshotting,
                        last_state_save: now,
                        ..self
                    }
                    &&& action is GetState
                } else {
                    &&& post == MonitorView { stage: Stage::Boundary, ..self }
                    &&& action is PollShutdown
                },
                Event::PublishFailed => self.fails(post, action, Failure::Publication),
                _ => self.fails(post, action, Failure::OutOfTurn),
            },
            Stage::Snapshotting => match event {
                Event::StateFetched(return_code, buffer, length) => match blob_outcome::<E>(
                    return_code,
                    buffer@,
                    length,
                ) {
                    Ok(blob) => {
                        &&& post == MonitorView { stage: Stage::Persisting, ..self }
                        &&& action matches Action::SaveState(state)
                        &&& state@ == blob
                    },
                    Err(error) => self.fails(post, action, Failure::Bsec(error)),
                },
                _ => self.fails(post, action, Failure::OutOfTurn),
            },
            Stage::Persisting => match event {
                Event::Saved => if self.closing {
                    &&& post == MonitorView { stage: Stage::Finished, ..self }
                    &&& action is Finish
                } else {
                    &&& post == MonitorView { stage: Stage::Boundary, ..self }
                    &&& action is PollShutdown
                },
                Event::SaveFailed => self.fails(post, action, Failure::Persistence),
                _ => self.fails(post, action, Failure::OutOfTurn),
            },
            Stage::Finished => {
                &&& post == self
                &&& action is Finish
            },
            Stage::Failed => {
                &&& post == self
                &&& action == Action::<E>::Fail(Failure::OutOfTurn)
            },
        }
    }
}

impl MonitorView {
    /// Every step keeps the scheduler well formed. In a well-formed
    /// scheduler neither a poll of the sensor nor a step of the engine
    /// that was asked for is turned away as out of turn.
    pub proof fn lemma_step_keeps_wf<E>(
        self,
        now: i64,
        event: Event<E>,
        post: MonitorView,
        action: Action<E>,
    )
        requires
            self.wf(),
            self.transition(now, event, post, action),
        ensures
            post.wf(),
            self.stage is Polling && event is Measured ==> action != Action::<E>::Fail(
                Failure::OutOfTurn,
            ),
            self.stage is Stepping && event is Stepped ==> action != Action::<E>::Fail(
                Failure::OutOfTurn,
            ),
    {
    }

    /// The shutdown signal is looked at only at the end of a tick: after
    /// the outputs were published and no save was due, or after the save
    /// that was due. A request to shut down therefore never ends a run
    /// before its first tick, nor in the middle of one.
    pub proof fn lemma_shutdown_is_polled_after_a_tick<E>(
        self,
        now: i64,
        event: Event<E>,
        post: MonitorView,
        action: Action<E>,
    )
        requires
            self.transition(now, event, post, action),
        ensures
            action is PollShutdown <==> post.stage is Boundary && !(self.stage is Boundary),
            action is PollShutdown ==> (self.stage is Publishing && event is Published
                && !self.save_is_due(now)) || (self.stage is Persisting && event is Saved
                && !self.closing),
            self.stage is Loading || self.stage is Restoring ==> !(action is PollShutdown) && !(
            action is GetState) && !(action is Finish),
    {
    }

    /// An instruction that asks for no measurement leaves the sensor alone:
    /// it is neither started nor polled. The scheduler notes when the
    /// engine wants to be asked next, then waits for that time or asks
    /// again.
    pub proof fn lemma_not_yet_leaves_sensor_alone<E>(
        self,
        now: i64,
        bme_settings: BmeSettings,
        post: MonitorView,
        action: Action<E>,
    )
        requires
            self.stage is Asking,
            bme_settings.trigger_measurement != 1,
            self.transition(now, Event::<E>::Instructed(BSEC_OK, bme_settings), post, action),
        ensures
            !(action is StartMeasurement),
            !(action is GetMeasurement),
            post.bsec.next_measurement == bme_settings.next_call,
            post.bsec.measuring == self.bsec.measuring,
            action is Sleep || action is SensorControl,
            post.stage is Waiting || post.stage is Asking,
    {
    }

    /// An instruction that asks for a measurement has the sensor started
    /// once, with the settings of the instruction. The time that the sensor
    /// reports for the measurement is then slept in full, and only after
    /// that is the sensor polled.
    pub proof fn lemma_measurement_is_waited_for<E>(
        self,
        times: (i64, i64, i64),
        bme_settings: BmeSettings,
        duration: u64,
        posts: (MonitorView, MonitorView, MonitorView),
        actions: (Action<E>, Action<E>, Action<E>),
    )
        requires
            self.stage is Asking,
            bme_settings.trigger_measurement == 1,
            self.transition(
                times.0,
                Event::<E>::Instructed(BSEC_OK, bme_settings),
                posts.0,
                actions.0,
            ),
            posts.0.transition(
                times.1,
                Event::<E>::SensorStarted(Ok(duration)),
                posts.1,
                actions.1,
            ),
            posts.1.transition(times.2, Event::<E>::Slept, posts.2, actions.2),
        ensures
            actions.0 matches Action::StartMeasurement(handle) && handle@ == bme_settings,
            actions.1 == Action::<E>::Sleep(duration),
            actions.2 is GetMeasurement,
            posts.2.stage is Polling,
            posts.2.bsec.measuring,
    {
    }

    /// The sensor is started only on an instruction that asks for it, and
    /// polled only after the sleep that follows its start or after a poll
    /// that found it not ready. That sleep is entered only from a
    /// successful start, and lasts as long as the sensor said.
    pub proof fn lemma_sensor_is_used_in_turn<E>(
        self,
        now: i64,
        event: Event<E>,
        post: MonitorView,
        action: Action<E>,
    )
        requires
            self.transition(now, event, post, action),
        ensures
            action is StartMeasurement ==> self.stage is Asking && (
            event matches Event::Instructed(return_code, bme_settings) && return_code == BSEC_OK
                && bme_settings.trigger_measurement == 1),
            action is GetMeasurement ==> (self.stage is Settling && event is Slept) || (
            self.stage is Polling && event matches Event::Measured(Err(Blocked::WouldBlock))),
            post.stage is Settling ==> self.stage is Starting && (
            event matches Event::SensorStarted(Ok(duration)) && action == Action::<E>::Sleep(
                duration,
            )),
    {
    }

    /// After the outputs of a tick are published, the engine's state is
    /// fetched for saving exactly if a minute or more has passed since the
    /// last save, and the time of the last save moves to now; otherwise the
    /// tick is over.
    pub proof fn lemma_autosave_cadence<E>(
        self,
        now: i64,
        post: MonitorView,
        action: Action<E>,
    )
        requires
            self.stage is Publishing,
            self.transition(now, Event::<E>::Published, post, action),
        ensures
            now - self.last_state_save >= STATE_SAVE_INTERVAL_NS ==> action is GetState
                && post.stage is Snapshotting && post.last_state_save == now,
            now - self.last_state_save < STATE_SAVE_INTERVAL_NS ==> action is PollShutdown
                && post.stage is Boundary && post.last_state_save == self.last_state_save,
    {
    }

    /// A fetched state is saved as the engine wrote it, and a state is
    /// saved only when one was fetched. A state is fetched only when a save
    /// is due after a tick or when shutdown is requested.
    pub proof fn lemma_state_is_saved_in_turn<E>(
        self,
        now: i64,
        event: Event<E>,
        post: MonitorView,
        action: Action<E>,
    )
        requires
            self.transition(now, event, post, action),
        ensures
            action is SaveState ==> self.stage is Snapshotting && (
            event matches Event::StateFetched(return_code, buffer, length) && return_code
                == BSEC_OK && length <= buffer@.len() && (action matches Action::SaveState(state)
                && state@ == buffer@.take(length as int))),
            action is GetState ==> (self.stage is Publishing && event is Published
                && self.save_is_due(now)) || (self.stage is Boundary && event
                == Event::<E>::ShutdownPolled(true)),
            action is PollShutdown ==> post.stage is Boundary,
            post.stage is Boundary ==> action is PollShutdown,
    {
    }

    /// The state that one run saves is the state that the next run hands
    /// to the engine: the bytes that the engine wrote, unchanged.
    pub proof fn lemma_saved_state_is_restored_unchanged<E>(
        self,
        next_run: MonitorView,
        times: (i64, i64),
        buffer: Vec<u8>,
        length: u32,
        saved: Vec<u8>,
        posts: (MonitorView, MonitorView),
        actions: (Action<E>, Action<E>),
    )
        requires
            self.stage is Snapshotting,
            next_run.stage is Loading,
            length <= buffer@.len(),
            self.transition(
                times.0,
                Event::<E>::StateFetched(BSEC_OK, buffer, length),
                posts.0,
                actions.0,
            ),
            actions.0 matches Action::SaveState(state) && state@ == saved@,
            next_run.transition(times.1, Event::<E>::Loaded(Some(saved)), posts.1, actions.1),
        ensures
            saved@ == buffer@.take(length as int),
            actions.1 matches Action::SetState(state) && state@ == buffer@.take(length as int),
            posts.1.stage is Restoring,
    {
    }

    /// On a request to shut down, whenever the state was last saved, the
    /// state is fetched and saved once, and the run is over: whatever is
    /// reported after that, nothing more is asked for.
    pub proof fn lemma_shutdown_saves_once<E>(
        self,
        times: (i64, i64, i64, i64),
        buffer: Vec<u8>,
        length: u32,
        later: Event<E>,
        posts: (MonitorView, MonitorView, MonitorView, MonitorView),
        actions: (Action<E>, Action<E>, Action<E>, Action<E>),
    )
        requires
            self.stage is Boundary,
            length <= buffer@.len(),
            self.transition(times.0, Event::<E>::ShutdownPolled(true), posts.0, actions.0),
            posts.0.transition(
                times.1,
                Event::<E>::StateFetched(BSEC_OK, buffer, length),
                posts.1,
                actions.1,
            ),
            posts.1.transition(times.2, Event::<E>::Saved, posts.2, actions.2),
            posts.2.transition(times.3, later, posts.3, actions.3),
        ensures
            actions.0 is GetState,
            actions.1 matches Action::SaveState(state) && state@ == buffer@.take(length as int),
            actions.2 is Finish,
            posts.2.stage is Finished,
            posts.2.bsec == self.bsec,
            actions.3 is Finish,
            posts.3 == posts.2,
    {
    }
}

/// The scheduler.
#[derive(Debug)]
pub struct Monitor {
    bsec: Bsec,
    last_state_save: i64,
    stage: Stage,
    closing: bool,
}

impl View for Monitor {
    type V = MonitorView;

    closed spec fn view(&self) -> MonitorView {
        MonitorView {
            bsec: self.bsec@,
            last_state_save: self.last_state_save,
            stage: self.stage,
            closing: self.closing,
        }
    }
}

impl Monitor {
    /// A scheduler for an adapter that is set up and subscribed.
    pub fn new(bsec: Bsec) -> (monitor: Monitor)
        ensures
            monitor@ == (MonitorView {
                bsec: bsec@,
                last_state_save: 0,
                stage: Stage::Created,
                closing: false,
            }),
    {
        Monitor { bsec, last_state_save: 0, stage: Stage::Created, closing: false }
    }

    /// What the scheduler is waiting for.
    pub fn stage(&self) -> (stage: Stage)
        ensures
            stage == self@.stage,
    {
        self.stage
    }

    /// Ends the scheduler and hands the adapter back.
    pub fn into_bsec(self) -> (bsec: Bsec)
        ensures
            bsec@ == self@.bsec,
    {
        self.bsec
    }

    fn fail<E>(&mut self, failure: Failure<E>) -> (action: Action<E>)
        ensures
            old(self)@.fails(final(self)@, action, failure),
    {
        self.stage = Stage::Failed;
        Action::Fail(failure)
    }

    fn begin_tick<E>(&mut self, now: i64) -> (action: Action<E>)
        ensures
            old(self)@.begins_tick(now, final(self)@, action),
    {
        let due: i128 = self.bsec.next_measurement() as i128 - now as i128;
        if due > 0 {
            self.stage = Stage::Waiting;
            Action::Sleep(due as u64)
        } else {
            self.stage = Stage::Asking;
            Action::SensorControl(now)
        }
    }

    /// Tells the scheduler what happened and when, and learns what is to be
    /// done next.
    pub fn step<E>(&mut self, now: i64, event: Event<E>) -> (action: Action<E>)
        ensures
            old(self)@.transition(now, event, final(self)@, action),
    {
        match self.stage {
            Stage::Created => match event {
                Event::Started => {
                    self.last_state_save = now;
                    self.stage = Stage::Loading;
                    Action::LoadState
                },
                _ => self.fail(Failure::OutOfTurn),
            },
            Stage::Loading => match event {
                Event::Loaded(None) => self.begin_tick(now),
                Event::Loaded(Some(blob)) => match Bsec::blob_length::<E>(blob.as_slice()) {
                    Ok(_) => {
                        self.stage = Stage::Restoring;
                        Action::SetState(blob)
                    },
                    Err(error) => self.fail(Failure::Bsec(error)),
                },
                Event::LoadFailed => self.fail(Failure::Persistence),
                _ => self.fail(Failure::OutOfTurn),
            },
            Stage::Restoring => match event {
                Event::Restored(return_code) => match self.bsec.set_state::<E>(return_code) {
                    Ok(()) => self.begin_tick(now),
                    Err(error) => self.fail(Failure::Bsec(error)),
                },
                _ => self.fail(Failure::OutOfTurn),
            },
            Stage::Boundary => match event {
                Event::ShutdownPolled(requested) => {
                    if requested {
                        self.closing = true;
                        self.stage = Stage::Snapshotting;
                        Action::GetState
                    } else {
                        self.begin_tick(now)
                    }
                },
                _ => self.fail(Failure::OutOfTurn),
            },
            Stage::Waiting => match event {
                Event::Slept => {
                    self.stage = Stage::Asking;
                    Action::SensorControl(now)
                },
                _ => self.fail(Failure::OutOfTurn),
            },
            Stage::Asking => match event {
                Event::Instructed(return_code, bme_settings) => match self.bsec.start_next_measurement::<
                    E,
                >(return_code, bme_settings) {
                    Ok(handle) => {
                        self.stage = Stage::Starting;
                        Action::StartMeasurement(handle)
                    },
                    Err(Blocked::WouldBlock) => self.begin_tick(now),
                    Err(Blocked::Other(error)) => self.fail(Failure::Bsec(error)),
                },
                _ => self.fail(Failure::OutOfTurn),
            },
            Stage::Starting => match event {
                Event::SensorStarted(outcome) => match self.bsec.sensor_started(outcome) {
                    Ok(duration) => {
                        self.stage = Stage::Settling;
                        Action::Sleep(duration)
                    },
                    Err(error) => self.fail(Failure::Bsec(error)),
                },
                _ => self.fail(Failure::OutOfTurn),
            },
            Stage::Settling => match event {
                Event::Slept => {
                    self.stage = Stage::Polling;
                    Action::GetMeasurement
                },
                _ => self.fail(Failure::OutOfTurn),
            },
            Stage::Polling => match event {
                Event::Measured(measurement) => {
                    if !self.bsec.measurement_started() {
                        return self.fail(Failure::OutOfTurn);
                    }
                    match self.bsec.step_request(now, measurement) {
                        Ok(request) => {
                            self.stage = Stage::Stepping;
                            Action::DoSteps(request)
                        },
                        Err(Blocked::WouldBlock) => Action::GetMeasurement,
                        Err(Blocked::Other(error)) => self.fail(Failure::Bsec(error)),
                    }
                },
                _ => self.fail(Failure::OutOfTurn),
            },
            Stage::Stepping => match event {
                Event::Stepped(return_code, outputs, n_outputs) => {
                    if !self.bsec.measurement_started() {
                        return self.fail(Failure::OutOfTurn);
                    }
                    match self.bsec.process_last_measurement::<E>(
                        return_code,
                        outputs.as_slice(),
                        n_outputs,
                    ) {
                        Ok(signals) => {
                            self.stage = Stage::Publishing;
                            Action::Publish(signals)
                        },
                        Err(error) => self.fail(Failure::Bsec(error)),
                    }
                },
                _ => self.fail(Failure::OutOfTurn),
            },
            Stage::Publishing => match event {
                Event::Published => {
                    if now as i128 - self.last_state_save as i128 >= STATE_SAVE_INTERVAL_NS as i128 {
                        self.last_state_save = now;
                        self.stage = Stage::Snapshotting;
                        Action::GetState
                    } else {
                        self.stage = Stage::Boundary;
                        Action::PollShutdown
                    }
                },
                Event::PublishFailed => self.fail(Failure::Publication),
                _ => self.fail(Failure::OutOfTurn),
            },
            Stage::Snapshotting => match event {
                Event::StateFetched(return_code, buffer, length) => match self.bsec.get_state::<E>(
                    return_code,
                    buffer.as_slice(),
                    length,
                ) {
                    Ok(state) => {
                        self.stage = Stage::Persisting;
                        Action::SaveState(state)
                    },
                    Err(error) => self.fail(Failure::Bsec(error)),
                },
                _ => self.fail(Failure::OutOfTurn),
            },
            Stage::Persisting => match event {
                Event::Saved => {
                    if self.closing {
                        self.stage = Stage::Finished;
                        Action::Finish
                    } else {
                        self.stage = Stage::Boundary;
                        Action::PollShutdown
                    }
                },
                Event::SaveFailed => self.fail(Failure::Persistence),
                _ => self.fail(Failure::OutOfTurn),
            },
            Stage::Finished => Action::Finish,
            Stage::Failed => Action::Fail(Failure::OutOfTurn),
        }
    }
}

} // verus!
