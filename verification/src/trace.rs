//! Whole conversations.
//!
//! The protocol module says what the driver does with one event. The
//! statements here are about runs of events: that polling goes on for as
//! long as the sensor reports busy, and what each operation comes to in
//! the end.

use crate::checksum::frame_crc;
use crate::error::Error;
use crate::frame::{decoded, payload};
use crate::protocol::{
    accepts, pending, reply, successor, Action, Command, Event, Sequel, State, Step, Task,
    POLL_INTERVAL_MS, RESET_SETTLE_MS,
};
use crate::status::{busy, calibrated};
use vstd::prelude::*;

verus! {

/// The state after one event: the successor if the state takes the event,
/// the state itself if it turns the event away.
pub open spec fn after<E>(state: State, event: Event<E>) -> State {
    if accepts(state, event) {
        successor(state, event)
    } else {
        state
    }
}

/// The state after a run of events.
pub open spec fn run<E>(state: State, events: Seq<Event<E>>) -> State
    decreases events.len(),
{
    if events.len() == 0 {
        state
    } else {
        run(after(state, events.first()), events.drop_first())
    }
}

/// What the driver says to the last event of a run, or `None` if it turns
/// that event away.
pub open spec fn last_word<E>(state: State, events: Seq<Event<E>>) -> Option<Step<E>>
    recommends
        events.len() > 0,
{
    let before = run(state, events.drop_last());
    if accepts(before, events.last()) {
        Some(reply(before, events.last()))
    } else {
        None
    }
}

/// The events of polling a sensor that answers with each of `statuses` in
/// turn and is left alone for the poll interval after each answer.
pub open spec fn rounds<E>(statuses: Seq<u8>) -> Seq<Event<E>>
    decreases statuses.len(),
{
    if statuses.len() == 0 {
        Seq::empty()
    } else {
        seq![Event::Status(statuses.first()), Event::Completed] + rounds(statuses.drop_first())
    }
}

/// Whether every status byte of a sequence reports busy.
pub open spec fn all_busy(statuses: Seq<u8>) -> bool {
    forall|i: int| 0 <= i < statuses.len() ==> busy(#[trigger] statuses[i])
}

/// A run can be taken in two parts.
pub proof fn lemma_run_split<E>(state: State, first: Seq<Event<E>>, second: Seq<Event<E>>)
    ensures
        run(state, first + second) == run(run(state, first), second),
    decreases first.len(),
{
    if first.len() == 0 {
        assert(first + second =~= second);
    } else {
        assert((first + second).first() == first.first());
        assert((first + second).drop_first() =~= first.drop_first() + second);
        lemma_run_split(after(state, first.first()), first.drop_first(), second);
    }
}

/// One round of polling a busy sensor: the driver asks for the poll
/// interval, then for the status byte again, and stands where it stood.
pub proof fn lemma_busy_round<E>(task: Task, status: u8)
    requires
        busy(status),
    ensures
        reply::<E>(State::Polling(task), Event::Status(status)) == Step::<E>::Perform(
            Action::Delay(POLL_INTERVAL_MS),
        ),
        successor::<E>(State::Polling(task), Event::Status(status)) == State::Waiting(task),
        reply::<E>(State::Waiting(task), Event::Completed) == Step::<E>::Perform(Action::ReadStatus),
        successor::<E>(State::Waiting(task), Event::Completed) == State::Polling(task),
{
}

/// Polling has no bound: however many times the sensor reports busy, the
/// driver is still polling afterwards.
pub proof fn lemma_polling_goes_on<E>(task: Task, statuses: Seq<u8>)
    requires
        all_busy(statuses),
    ensures
        run(State::Polling(task), rounds::<E>(statuses)) == State::Polling(task),
    decreases statuses.len(),
{
    if statuses.len() > 0 {
        let round: Seq<Event<E>> = seq![Event::Status(statuses.first()), Event::Completed];
        let rest = statuses.drop_first();
        assert(busy(statuses[0]));
        assert(all_busy(rest)) by {
            assert forall|i: int| 0 <= i < rest.len() implies busy(#[trigger] rest[i]) by {
                assert(rest[i] == statuses[i + 1]);
            }
        }
        lemma_one_round::<E>(task, statuses.first());
        lemma_run_split(State::Polling(task), round, rounds::<E>(rest));
        lemma_polling_goes_on::<E>(task, rest);
    }
}

proof fn lemma_one_round<E>(task: Task, status: u8)
    requires
        busy(status),
    ensures
        run::<E>(State::Polling(task), seq![Event::Status(status), Event::Completed]) == State::Polling(task),
{
    let round: Seq<Event<E>> = seq![Event::Status(status), Event::Completed];
    let tail: Seq<Event<E>> = seq![Event::Completed];
    assert(round.drop_first() =~= tail);
    assert(tail.drop_first() =~= Seq::<Event<E>>::empty());
    assert(run(State::Polling(task), round) == run(State::Waiting(task), tail));
    assert(run(State::Waiting(task), tail) == run(
        State::Polling(task),
        Seq::<Event<E>>::empty(),
    ));
}

/// The events of a task that runs without a bus error: the opening
/// command goes through, the sensor reports busy for a while, then idle,
/// and `last` answers the action that closes the task.
pub open spec fn smooth<E>(busy_statuses: Seq<u8>, idle_status: u8, last: Event<E>) -> Seq<Event<E>> {
    seq![Event::Completed] + rounds(busy_statuses) + seq![Event::Status(idle_status), last]
}

/// Where a task stands before its last event: the calibration is waiting
/// for the confirming status byte, the measurement for the data frame.
pub proof fn lemma_task_reaches_its_end<E>(task: Task, busy_statuses: Seq<u8>, idle_status: u8, last: Event<E>)
    requires
        all_busy(busy_statuses),
        !busy(idle_status),
    ensures
        run(State::Commanding(task), smooth(busy_statuses, idle_status, last).drop_last()) == (match task {
            Task::Calibrate => State::Confirming,
            Task::Measure => State::Fetching,
        }),
{
    let opening: Seq<Event<E>> = seq![Event::Completed];
    let polls = rounds::<E>(busy_statuses);
    let closing: Seq<Event<E>> = seq![Event::Status(idle_status)];
    let events = smooth(busy_statuses, idle_status, last);
    assert(events.drop_last() =~= opening + polls + closing);
    lemma_run_split(State::Commanding(task), opening + polls, closing);
    lemma_run_split(State::Commanding(task), opening, polls);
    assert(opening.drop_first() =~= Seq::<Event<E>>::empty());
    assert(run(State::Commanding(task), opening) == run(
        State::Polling(task),
        Seq::<Event<E>>::empty(),
    ));
    lemma_polling_goes_on::<E>(task, busy_statuses);
    assert(closing.drop_first() =~= Seq::<Event<E>>::empty());
    assert(run(State::Polling(task), closing) == run(
        after(State::Polling(task), closing.first()),
        Seq::<Event<E>>::empty(),
    ));
}

/// A calibration that meets no bus error succeeds exactly if the status
/// byte read after the sensor went idle carries the calibration flag, and
/// fails as uncalibrated otherwise. Either way the driver is idle
/// afterwards.
pub proof fn lemma_calibration_outcome<E>(busy_statuses: Seq<u8>, idle_status: u8, confirming: u8)
    requires
        all_busy(busy_statuses),
        !busy(idle_status),
    ensures
        last_word::<E>(
            State::Commanding(Task::Calibrate),
            smooth(busy_statuses, idle_status, Event::Status(confirming)),
        ) == Some(
            if calibrated(confirming) {
                Step::<E>::Ready
            } else {
                Step::<E>::Failed(Error::Uncalibrated)
            },
        ),
        run::<E>(
            State::Commanding(Task::Calibrate),
            smooth(busy_statuses, idle_status, Event::Status(confirming)),
        ) == State::Idle,
{
    let last: Event<E> = Event::Status(confirming);
    let events = smooth(busy_statuses, idle_status, last);
    lemma_task_reaches_its_end(Task::Calibrate, busy_statuses, idle_status, last);
    lemma_run_last(State::Commanding(Task::Calibrate), events);
}

/// A sensor that always answers with one status byte that reports neither
/// busy nor calibrated makes a calibration fail as uncalibrated, not with
/// a bus error.
pub proof fn lemma_uncalibrated_sensor_fails_calibration<E>(status: u8)
    requires
        !busy(status),
        !calibrated(status),
    ensures
        last_word::<E>(
            State::Commanding(Task::Calibrate),
            seq![Event::Completed, Event::Status(status), Event::Status(status)],
        ) == Some(Step::<E>::Failed(Error::Uncalibrated)),
{
    let none = Seq::<u8>::empty();
    lemma_calibration_outcome::<E>(none, status, status);
    assert(rounds::<E>(none) =~= Seq::<Event<E>>::empty());
    assert(smooth::<E>(none, status, Event::Status(status)) =~= seq![
        Event::Completed,
        Event::Status(status),
        Event::Status(status),
    ]);
}

/// A measurement that meets no bus error comes to what its data frame
/// decodes to: the two readings, or the error that the frame earns.
pub proof fn lemma_measurement_outcome<E>(busy_statuses: Seq<u8>, idle_status: u8, frame: [u8; 7])
    requires
        all_busy(busy_statuses),
        !busy(idle_status),
    ensures
        last_word::<E>(
            State::Commanding(Task::Measure),
            smooth(busy_statuses, idle_status, Event::Frame(frame)),
        ) == Some(
            match decoded::<E>(frame@, frame_crc(payload(frame@))) {
                Ok((humidity, temperature)) => Step::<E>::Reading(humidity, temperature),
                Err(e) => Step::<E>::Failed(e),
            },
        ),
        run::<E>(
            State::Commanding(Task::Measure),
            smooth(busy_statuses, idle_status, Event::Frame(frame)),
        ) == State::Idle,
{
    let last: Event<E> = Event::Frame(frame);
    let events = smooth(busy_statuses, idle_status, last);
    lemma_task_reaches_its_end(Task::Measure, busy_statuses, idle_status, last);
    lemma_run_last(State::Commanding(Task::Measure), events);
}

/// A measurement that has come to its data frame fails with a checksum
/// error exactly if the frame's last byte is not the checksum of the six
/// before it, whatever else the frame holds. No reading comes out of such
/// a frame, and the driver is idle afterwards.
pub proof fn lemma_corrupt_frame_fails_measurement<E>(frame: [u8; 7])
    ensures
        accepts::<E>(State::Fetching, Event::Frame(frame)),
        reply::<E>(State::Fetching, Event::Frame(frame)) == Step::<E>::Failed(Error::Checksum) <==> frame[6]
            != frame_crc(payload(frame@)),
        successor::<E>(State::Fetching, Event::Frame(frame)) == State::Idle,
{
}

/// A reset that stands alone is the reset command followed by the
/// settling time. It can fail only with a bus error on that one command:
/// it reads nothing that a checksum or a calibration flag could be
/// missing from.
pub proof fn lemma_reset_outcome<E>(event: Event<E>)
    ensures
        pending(State::Resetting(Sequel::Nothing)) == Some(Action::Write(Command::SoftReset)),
        last_word::<E>(State::Resetting(Sequel::Nothing), seq![Event::Completed, Event::Completed]) == Some(
            Step::<E>::Ready,
        ),
        accepts(State::Resetting(Sequel::Nothing), event) ==> reply(State::Resetting(Sequel::Nothing), event)
            == (match event {
            Event::BusError(e) => Step::Failed(Error::I2c(e)),
            _ => Step::Perform(Action::Delay(RESET_SETTLE_MS)),
        }),
        accepts(State::Settling(Sequel::Nothing), event) ==> reply(State::Settling(Sequel::Nothing), event)
            == Step::<E>::Ready,
{
    let both: Seq<Event<E>> = seq![Event::Completed, Event::Completed];
    let one: Seq<Event<E>> = seq![Event::Completed];
    assert(both.drop_last() =~= one);
    assert(one.drop_first() =~= Seq::<Event<E>>::empty());
    assert(run(State::Resetting(Sequel::Nothing), one) == run(
        State::Settling(Sequel::Nothing),
        Seq::<Event<E>>::empty(),
    ));
}

/// Bringing the sensor up is a reset with a calibration on its heels:
/// once the reset command and the settling time are through, the driver
/// stands where a calibration starts and has asked for the calibrate
/// command.
pub proof fn lemma_bring_up_is_reset_then_calibration<E>()
    ensures
        run::<E>(State::Resetting(Sequel::Calibration), seq![Event::Completed, Event::Completed])
            == State::Commanding(Task::Calibrate),
        last_word::<E>(State::Resetting(Sequel::Calibration), seq![Event::Completed, Event::Completed])
            == Some(Step::<E>::Perform(Action::Write(Command::Calibrate))),
{
    let both: Seq<Event<E>> = seq![Event::Completed, Event::Completed];
    let one: Seq<Event<E>> = seq![Event::Completed];
    assert(both.drop_last() =~= one);
    assert(both.drop_first() =~= one);
    assert(one.drop_first() =~= Seq::<Event<E>>::empty());
    assert(run(State::Resetting(Sequel::Calibration), one) == run(
        State::Settling(Sequel::Calibration),
        Seq::<Event<E>>::empty(),
    ));
    assert(run(State::Settling(Sequel::Calibration), one) == run(
        State::Commanding(Task::Calibrate),
        Seq::<Event<E>>::empty(),
    ));
}

/// Bringing the sensor up without a bus error comes to what the
/// calibration at its end comes to.
pub proof fn lemma_bring_up_outcome<E>(busy_statuses: Seq<u8>, idle_status: u8, confirming: u8)
    requires
        all_busy(busy_statuses),
        !busy(idle_status),
    ensures
        last_word::<E>(
            State::Resetting(Sequel::Calibration),
            seq![Event::Completed, Event::Completed] + smooth(
                busy_statuses,
                idle_status,
                Event::Status(confirming),
            ),
        ) == Some(
            if calibrated(confirming) {
                Step::<E>::Ready
            } else {
                Step::<E>::Failed(Error::Uncalibrated)
            },
        ),
{
    let reset: Seq<Event<E>> = seq![Event::Completed, Event::Completed];
    let task = smooth::<E>(busy_statuses, idle_status, Event::Status(confirming));
    let events = reset + task;
    lemma_bring_up_is_reset_then_calibration::<E>();
    lemma_calibration_outcome::<E>(busy_statuses, idle_status, confirming);
    assert(events.drop_last() =~= reset + task.drop_last());
    assert(events.last() == task.last());
    lemma_run_split(State::Resetting(Sequel::Calibration), reset, task.drop_last());
}

/// A bus error ends whatever operation is on the bus, in the first place
/// it occurs, and comes out unchanged.
pub proof fn lemma_bus_error_ends_operation<E>(state: State, e: E)
    requires
        accepts(state, Event::BusError(e)),
    ensures
        reply(state, Event::BusError(e)) == Step::Failed(Error::I2c(e)),
        successor(state, Event::BusError(e)) == State::Idle,
{
}

/// The state after a run is the state after its last event, taken from the
/// state after the events before.
proof fn lemma_run_last<E>(state: State, events: Seq<Event<E>>)
    requires
        events.len() > 0,
    ensures
        run(state, events) == after(run(state, events.drop_last()), events.last()),
{
    let last: Seq<Event<E>> = seq![events.last()];
    assert(events =~= events.drop_last() + last);
    lemma_run_split(state, events.drop_last(), last);
    assert(last.drop_first() =~= Seq::<Event<E>>::empty());
    assert(run(run(state, events.drop_last()), last) == run(
        after(run(state, events.drop_last()), last.first()),
        Seq::<Event<E>>::empty(),
    ));
}

} // verus!
