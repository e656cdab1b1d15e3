//! The command protocol, as a machine that is fed events and names
//! actions.
//!
//! An operation is a fixed conversation with the sensor:
//!
//! | operation | conversation                                                        |
//! |-----------|---------------------------------------------------------------------|
//! | reset     | reset command, then 20 ms of settling                               |
//! | calibrate | calibrate command, poll until idle, one more status query           |
//! | read      | trigger command, poll until idle, fetch and check one data frame    |
//!
//! Polling asks for the status byte and, while it reports busy, waits 10 ms
//! and asks again, for as long as it takes. The driver never does any of
//! this itself. It owns the bookkeeping: [`Aht20`] says which [`Action`]
//! comes next, the caller performs it on the bus or the timer, and hands
//! the outcome back as an [`Event`].

use crate::checksum::frame_crc;
use crate::error::Error;
use crate::frame::{decode, decoded, payload};
use crate::reading::{Humidity, Temperature};
use crate::status::{busy, calibrated, StatusFlags};
use vstd::prelude::*;

verus! {

/// The bus address of the sensor.
pub const I2C_ADDRESS: u8 = 0x38;

/// The byte that is written ahead of every read.
pub const PROBE: u8 = 0x00;

/// How long the sensor needs to settle after a reset, in milliseconds.
pub const RESET_SETTLE_MS: u32 = 20;

/// How long to wait between two status queries, in milliseconds.
pub const POLL_INTERVAL_MS: u32 = 10;

/// A command that the sensor takes without sending anything back.
#[derive(Clone, Copy, Debug, PartialEq, Eq, Structural)]
pub enum Command {
    /// Restart the sensor.
    SoftReset,
    /// Run the self-calibration.
    Calibrate,
    /// Start one measurement.
    TriggerMeasurement,
}

impl Command {
    /// The bytes that go over the wire.
    pub open spec fn wire(self) -> Seq<u8> {
        match self {
            Command::SoftReset => seq![0xBAu8],
            Command::Calibrate => seq![0xE1u8, 0x08u8, 0x00u8],
            Command::TriggerMeasurement => seq![0xACu8, 0x33u8, 0x00u8],
        }
    }

    /// The bytes that go over the wire.
    pub fn bytes(self) -> (out: &'static [u8])
        ensures
            out@ == self.wire(),
    {
        match self {
            Command::SoftReset => &[0xBA],
            Command::Calibrate => &[0xE1, 0x08, 0x00],
            Command::TriggerMeasurement => &[0xAC, 0x33, 0x00],
        }
    }
}

/// One thing for the caller to do on the driver's behalf.
#[derive(Clone, Copy, Debug, PartialEq, Eq, Structural)]
pub enum Action {
    /// Write a command to the sensor.
    Write(Command),
    /// Write the probe byte, then read the status byte back.
    ReadStatus,
    /// Write the probe byte, then read a data frame back.
    ReadFrame,
    /// Suspend for this many milliseconds.
    Delay(u32),
}

impl Action {
    /// The bytes that the action writes to the sensor; none for a delay.
    pub open spec fn wire(self) -> Seq<u8> {
        match self {
            Action::Write(command) => command.wire(),
            Action::ReadStatus | Action::ReadFrame => seq![PROBE],
            Action::Delay(_) => Seq::empty(),
        }
    }

    /// The bytes to write to the sensor; none for a delay.
    pub fn outgoing(self) -> (out: &'static [u8])
        ensures
            out@ == self.wire(),
    {
        match self {
            Action::Write(command) => command.bytes(),
            Action::ReadStatus | Action::ReadFrame => &[PROBE],
            Action::Delay(_) => &[],
        }
    }
}

/// What came of an action, over the error type of the bus.
#[derive(Debug)]
pub enum Event<E> {
    /// A write went through, or a delay ran out.
    Completed,
    /// A status query brought this byte.
    Status(u8),
    /// A data fetch brought these bytes.
    Frame([u8; 7]),
    /// The bus transaction failed.
    BusError(E),
}

/// What the driver says after an event.
#[derive(Debug)]
pub enum Step<E> {
    /// The operation goes on: perform this action and report back.
    Perform(Action),
    /// The operation is done and has nothing to hand over.
    Ready,
    /// The measurement is done; here is what the sensor saw.
    Reading(Humidity, Temperature),
    /// The operation was given up.
    Failed(Error<E>),
}

/// The two operations that poll the sensor until it is idle.
#[derive(Clone, Copy, Debug, PartialEq, Eq, Structural)]
pub enum Task {
    /// Self-calibration.
    Calibrate,
    /// One measurement.
    Measure,
}

impl Task {
    /// The command that opens the task.
    pub open spec fn opening(self) -> Command {
        match self {
            Task::Calibrate => Command::Calibrate,
            Task::Measure => Command::TriggerMeasurement,
        }
    }
}

/// What comes after a reset.
#[derive(Clone, Copy, Debug, PartialEq, Eq, Structural)]
pub enum Sequel {
    /// Nothing: the reset stands alone.
    Nothing,
    /// A calibration: the reset opens the bring-up of the sensor.
    Calibration,
}

/// Where the driver stands in its conversation with the sensor. Every
/// state but `Idle` has exactly one action in flight.
#[derive(Clone, Copy, Debug, PartialEq, Eq, Structural)]
pub enum State {
    /// Nothing is in flight.
    Idle,
    /// The reset command is being written.
    Resetting(Sequel),
    /// The sensor is settling after a reset.
    Settling(Sequel),
    /// The opening command of a task is being written.
    Commanding(Task),
    /// A status query is out, to learn whether the sensor is still busy.
    Polling(Task),
    /// The sensor was busy; the poll interval is running.
    Waiting(Task),
    /// The sensor went idle after the calibrate command; a second status
    /// query is out, to learn whether the calibration took.
    Confirming,
    /// The sensor went idle after the trigger command; the data fetch is
    /// out.
    Fetching,
}

/// The action that is in flight in a state.
pub open spec fn pending(state: State) -> Option<Action> {
    match state {
        State::Idle => None,
        State::Resetting(_) => Some(Action::Write(Command::SoftReset)),
        State::Settling(_) => Some(Action::Delay(RESET_SETTLE_MS)),
        State::Commanding(task) => Some(Action::Write(task.opening())),
        State::Polling(_) => Some(Action::ReadStatus),
        State::Waiting(_) => Some(Action::Delay(POLL_INTERVAL_MS)),
        State::Confirming => Some(Action::ReadStatus),
        State::Fetching => Some(Action::ReadFrame),
    }
}

/// Whether an event can be the outcome of an action: a write completes
/// or fails, a read brings what was asked for or fails, and a delay can
/// only run out.
pub open spec fn answers<E>(action: Action, event: Event<E>) -> bool {
    match action {
        Action::Write(_) => event is Completed || event is BusError,
        Action::ReadStatus => event is Status || event is BusError,
        Action::ReadFrame => event is Frame || event is BusError,
        Action::Delay(_) => event is Completed,
    }
}

/// Whether a state takes an event: something is in flight, and the event
/// answers it.
pub open spec fn accepts<E>(state: State, event: Event<E>) -> bool {
    match pending(state) {
        Some(action) => answers(action, event),
        None => false,
    }
}

/// The state that follows when `state` takes `event`. The operation ends,
/// and the driver falls idle, on a bus error, after the settling time of a
/// reset that stands alone, on the confirming status byte of a
/// calibration, and on the data frame of a measurement.
pub open spec fn successor<E>(state: State, event: Event<E>) -> State
    recommends
        accepts(state, event),
{
    match (state, event) {
        (State::Resetting(sequel), Event::Completed) => State::Settling(sequel),
        (State::Settling(Sequel::Calibration), Event::Completed) => State::Commanding(Task::Calibrate),
        (State::Commanding(task), Event::Completed) => State::Polling(task),
        (State::Polling(task), Event::Status(status)) => if busy(status) {
            State::Waiting(task)
        } else {
            match task {
                Task::Calibrate => State::Confirming,
                Task::Measure => State::Fetching,
            }
        },
        (State::Waiting(task), Event::Completed) => State::Polling(task),
        _ => State::Idle,
    }
}

/// What an operation that ends with `event` in `state` comes to.
pub open spec fn conclusion<E>(state: State, event: Event<E>) -> Step<E>
    recommends
        accepts(state, event),
        successor(state, event) is Idle,
{
    match event {
        Event::BusError(e) => Step::Failed(Error::I2c(e)),
        Event::Status(status) => if calibrated(status) {
            Step::Ready
        } else {
            Step::Failed(Error::Uncalibrated)
        },
        Event::Frame(frame) => match decoded::<E>(frame@, frame_crc(payload(frame@))) {
            Ok((humidity, temperature)) => Step::Reading(humidity, temperature),
            Err(e) => Step::Failed(e),
        },
        Event::Completed => Step::Ready,
    }
}

/// What the driver says when `state` takes `event`: the action of the
/// state that follows, or, where the operation ends, what it came to.
pub open spec fn reply<E>(state: State, event: Event<E>) -> Step<E>
    recommends
        accepts(state, event),
{
    match pending(successor(state, event)) {
        Some(action) => Step::Perform(action),
        None => conclusion(state, event),
    }
}

/// AHT20 driver.
///
/// The driver keeps track of the operation under way and of nothing
/// else: whether the sensor is busy or calibrated is asked of the sensor
/// each time.
pub struct Aht20 {
    state: State,
}

impl View for Aht20 {
    type V = State;

    closed spec fn view(&self) -> State {
        self.state
    }
}

impl Aht20 {
    /// Creates a driver that is about to bring the sensor up: a reset,
    /// followed by a calibration. Returns the driver and the first action
    /// of that conversation, the reset command.
    ///
    /// The bring-up fails if the reset or the calibration fails; see
    /// [`lemma_bring_up_outcome`](crate::trace::lemma_bring_up_outcome).
    pub fn new() -> (fresh: (Aht20, Action))
        ensures
            fresh.0@ == State::Resetting(Sequel::Calibration),
            fresh.1 == Action::Write(Command::SoftReset),
            pending(fresh.0@) == Some(fresh.1),
    {
        (Aht20 { state: State::Resetting(Sequel::Calibration) }, Action::Write(Command::SoftReset))
    }

    /// Starts a self-calibration and returns its first action, the
    /// calibrate command. Whatever was in flight is abandoned.
    ///
    /// The sensor is polled until it is idle and then asked once more for
    /// its status; the calibration succeeds if that status byte carries
    /// the calibration flag. See
    /// [`lemma_calibration_outcome`](crate::trace::lemma_calibration_outcome).
    pub fn calibrate(&mut self) -> (first: Action)
        ensures
            final(self)@ == State::Commanding(Task::Calibrate),
            first == Action::Write(Command::Calibrate),
            pending(final(self)@) == Some(first),
    {
        self.state = State::Commanding(Task::Calibrate);
        Action::Write(Command::Calibrate)
    }

    /// Starts a soft reset and returns its first action, the reset
    /// command. Whatever was in flight is abandoned.
    ///
    /// The command is followed by the settling time and by nothing else;
    /// see [`lemma_reset_outcome`](crate::trace::lemma_reset_outcome).
    pub fn reset(&mut self) -> (first: Action)
        ensures
            final(self)@ == State::Resetting(Sequel::Nothing),
            first == Action::Write(Command::SoftReset),
            pending(final(self)@) == Some(first),
    {
        self.state = State::Resetting(Sequel::Nothing);
        Action::Write(Command::SoftReset)
    }

    /// Starts a measurement and returns its first action, the trigger
    /// command. Whatever was in flight is abandoned.
    ///
    /// The sensor is polled until it is idle, and one data frame is
    /// fetched and decoded; see
    /// [`lemma_measurement_outcome`](crate::trace::lemma_measurement_outcome).
    pub fn read(&mut self) -> (first: Action)
        ensures
            final(self)@ == State::Commanding(Task::Measure),
            first == Action::Write(Command::TriggerMeasurement),
            pending(final(self)@) == Some(first),
    {
        self.state = State::Commanding(Task::Measure);
        Action::Write(Command::TriggerMeasurement)
    }

    /// The state of the conversation.
    pub fn state(&self) -> (state: State)
        ensures
            state == self@,
    {
        self.state
    }

    /// The action in flight, if any.
    pub fn pending(&self) -> (action: Option<Action>)
        ensures
            action == pending(self@),
    {
        match self.state {
            State::Idle => None,
            State::Resetting(_) => Some(Action::Write(Command::SoftReset)),
            State::Settling(_) => Some(Action::Delay(RESET_SETTLE_MS)),
            State::Commanding(Task::Calibrate) => Some(Action::Write(Command::Calibrate)),
            State::Commanding(Task::Measure) => Some(Action::Write(Command::TriggerMeasurement)),
            State::Polling(_) | State::Confirming => Some(Action::ReadStatus),
            State::Waiting(_) => Some(Action::Delay(POLL_INTERVAL_MS)),
            State::Fetching => Some(Action::ReadFrame),
        }
    }

    /// Takes the outcome of the action in flight and says how the
    /// operation goes on.
    ///
    /// An event that does not answer the action in flight is turned away
    /// with `None` and changes nothing. Any step other than
    /// [`Step::Perform`] ends the operation and leaves the driver idle;
    /// there are no retries and no partial results.
    pub fn advance<E>(&mut self, event: Event<E>) -> (step: Option<Step<E>>)
        ensures
            step is Some <==> accepts(old(self)@, event),
            step matches Some(said) ==> said == reply(old(self)@, event) && final(self)@ == successor(
                old(self)@,
                event,
            ),
            step is None ==> final(self)@ == old(self)@,
            step matches Some(said) ==> (said matches Step::Perform(action) ==> pending(final(self)@) == Some(
                action,
            )),
            step matches Some(said) ==> (said is Perform <==> !(final(self)@ is Idle)),
    {
        match (self.state, event) {
            (State::Idle, _) => None,
            (State::Resetting(sequel), Event::Completed) => {
                self.state = State::Settling(sequel);
                Some(Step::Perform(Action::Delay(RESET_SETTLE_MS)))
            },
            (State::Settling(Sequel::Calibration), Event::Completed) => {
                self.state = State::Commanding(Task::Calibrate);
                Some(Step::Perform(Action::Write(Command::Calibrate)))
            },
            (State::Settling(Sequel::Nothing), Event::Completed) => {
                self.state = State::Idle;
                Some(Step::Ready)
            },
            (State::Commanding(task), Event::Completed) => {
                self.state = State::Polling(task);
                Some(Step::Perform(Action::ReadStatus))
            },
            (State::Waiting(task), Event::Completed) => {
                self.state = State::Polling(task);
                Some(Step::Perform(Action::ReadStatus))
            },
            (State::Polling(task), Event::Status(status)) => {
                if StatusFlags::from_bits_retain(status).is_busy() {
                    self.state = State::Waiting(task);
                    Some(Step::Perform(Action::Delay(POLL_INTERVAL_MS)))
                } else {
                    match task {
                        Task::Calibrate => {
                            self.state = State::Confirming;
                            Some(Step::Perform(Action::ReadStatus))
                        },
                        Task::Measure => {
                            self.state = State::Fetching;
                            Some(Step::Perform(Action::ReadFrame))
                        },
                    }
                }
            },
            (State::Confirming, Event::Status(status)) => {
                self.state = State::Idle;
                if StatusFlags::from_bits_retain(status).is_calibrated() {
                    Some(Step::Ready)
                } else {
                    Some(Step::Failed(Error::Uncalibrated))
                }
            },
            (State::Fetching, Event::Frame(frame)) => {
                self.state = State::Idle;
                match decode::<E>(&frame) {
                    Ok((humidity, temperature)) => Some(Step::Reading(humidity, temperature)),
                    Err(e) => Some(Step::Failed(e)),
                }
            },
            (State::Settling(_), _) | (State::Waiting(_), _) => None,
            (_, Event::BusError(e)) => {
                self.state = State::Idle;
                Some(Step::Failed(Error::from(e)))
            },
            _ => None,
        }
    }
}

} // verus!
