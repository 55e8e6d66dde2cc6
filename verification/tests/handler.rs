use std::sync::atomic::{AtomicUsize, Ordering};
use std::sync::Arc;

use chrono::{DateTime, Duration, Utc};

use sensd::action::{IOCommand, Operation, Reader, Routine, SchedRoutineHandler, Shared, Writer};
use sensd::errors::{Error, ErrorKind, ErrorType};
use sensd::io::{DeviceContainer, DeviceMetadata, IODirection, IOKind, Output, RawValue};
use sensd::storage::Log;
use sensd::time::{Span, Timestamp};

/// A command that writes nothing and succeeds.
struct Accept;

impl Writer for Accept {
    fn write(&self, _value: RawValue) -> Result<(), ErrorType> {
        Ok(())
    }
}

/// A command that always fails.
struct Refuse;

impl Writer for Refuse {
    fn write(&self, _value: RawValue) -> Result<(), ErrorType> {
        Err(Error::new(ErrorKind::CommandError, "refused"))
    }
}

/// A command that counts how often it ran.
struct Count(Arc<AtomicUsize>);

impl Writer for Count {
    fn write(&self, _value: RawValue) -> Result<(), ErrorType> {
        self.0.fetch_add(1, Ordering::SeqCst);
        Ok(())
    }
}

fn accept() -> IOCommand {
    IOCommand::Output(Shared::new(Arc::new(Accept)))
}

fn refuse() -> IOCommand {
    IOCommand::Output(Shared::new(Arc::new(Refuse)))
}

fn count(counter: &Arc<AtomicUsize>) -> IOCommand {
    IOCommand::Output(Shared::new(Arc::new(Count(counter.clone()))))
}

fn stamp(at: DateTime<Utc>) -> Timestamp {
    Timestamp::new(at.timestamp(), at.timestamp_subsec_nanos())
}

fn at(nanos: i128) -> Timestamp {
    Timestamp { nanos }
}

fn device(id: u32) -> DeviceMetadata {
    DeviceMetadata::new(String::from("valve"), id, IOKind::Flow, IODirection::Out)
}

fn routine(due: i128, id: u32, command: IOCommand) -> Routine {
    Routine::new(at(due), device(id), RawValue::Binary(true), command)
}

/// Output devices with a log each, under the ids `0 .. count`.
fn outputs(count: u32) -> DeviceContainer<Output> {
    let mut outputs = DeviceContainer::default();
    for id in 0..count {
        outputs.insert(id, Output::new("valve", id, Some(IOKind::Flow)).init_log()).unwrap();
    }
    outputs
}

fn logged(outputs: &DeviceContainer<Output>, id: u32) -> usize {
    outputs.get(&id).unwrap().log().unwrap().len()
}

#[test]
fn test_push() {
    let metadata = DeviceMetadata::default();
    let command = accept();

    let timestamp = stamp(Utc::now() + Duration::microseconds(5));
    let value = RawValue::Binary(true);

    let routine = Routine::new(timestamp, metadata, value, command);

    let mut scheduled = SchedRoutineHandler::default();
    assert_eq!(0, scheduled.scheduled().into_iter().count());

    scheduled.push(routine);
    assert_eq!(1, scheduled.scheduled().into_iter().count());

    // Add second routine
    let metadata = DeviceMetadata::default();
    let command = accept();

    let timestamp = stamp(Utc::now() + Duration::microseconds(5));
    let value = RawValue::Binary(true);

    let routine = Routine::new(timestamp, metadata, value, command);

    scheduled.push(routine);
    assert_eq!(2, scheduled.scheduled().into_iter().count());
}

#[test]
fn test_attempt() {
    let metadata = DeviceMetadata::default();
    let mut log = Log::new(metadata.id, None);

    let command = accept();

    let first = Utc::now() + Duration::microseconds(30);
    let timestamp = stamp(first);
    let value = RawValue::Binary(true);

    let routine = Routine::new(timestamp, metadata, value, command);

    let mut scheduled = SchedRoutineHandler::default();

    scheduled.push(routine);

    // Add second routine
    let metadata = DeviceMetadata::default();
    let command = accept();

    let second = Utc::now() + Duration::microseconds(120);
    let ts2 = stamp(second);
    let value = RawValue::Binary(true);

    let routine = Routine::new(ts2, metadata, value, command);
    scheduled.push(routine);

    while Utc::now() < first {
        assert_eq!(2, scheduled.scheduled().into_iter().count());
        scheduled.attempt_routines(&mut log).unwrap();
    }
    scheduled.attempt_routines(&mut log).unwrap();
    while Utc::now() < second {
        assert_eq!(1, scheduled.scheduled().into_iter().count());
        scheduled.attempt_routines(&mut log).unwrap();
    }
    scheduled.attempt_routines(&mut log).unwrap();
    assert_eq!(0, scheduled.scheduled().into_iter().count());
    assert_eq!(2, log.len());
}

#[test]
fn routines_in_the_future_stay() {
    let mut scheduled = SchedRoutineHandler::default();
    scheduled.push(routine(1_001, 1, accept()));
    scheduled.push(routine(2_000, 2, accept()));
    scheduled.push(routine(i128::MAX, 3, accept()));
    let mut outputs = outputs(4);

    let results = scheduled.attempt_routines_at(at(1_000), &mut outputs);

    assert!(results.is_empty());
    assert_eq!(0, logged(&outputs, 1) + logged(&outputs, 2) + logged(&outputs, 3));
    assert_eq!(3, scheduled.scheduled().len());
    assert_eq!(1, scheduled.scheduled()[0].metadata().id);
    assert_eq!(2, scheduled.scheduled()[1].metadata().id);
    assert_eq!(3, scheduled.scheduled()[2].metadata().id);
}

#[test]
fn a_due_routine_is_removed_and_the_others_stay() {
    let mut scheduled = SchedRoutineHandler::default();
    scheduled.push(routine(5_000, 1, accept()));
    scheduled.push(routine(1_000, 2, accept()));
    scheduled.push(routine(6_000, 3, accept()));
    let mut outputs = outputs(4);

    let results = scheduled.attempt_routines_at(at(1_000), &mut outputs);

    assert_eq!(1, results.len());
    let event = results[0].as_ref().unwrap();
    assert_eq!(&[*event], outputs.get(&2).unwrap().log().unwrap().events());
    assert_eq!(0, logged(&outputs, 1) + logged(&outputs, 3));
    assert_eq!(2, event.id);
    assert_eq!(at(1_000), event.timestamp);
    assert_eq!(IODirection::Out, event.direction);
    assert_eq!(IOKind::Flow, event.data.kind);
    assert_eq!(RawValue::Binary(true), event.data.value);

    assert_eq!(2, scheduled.scheduled().len());
    assert_eq!(1, scheduled.scheduled()[0].metadata().id);
    assert_eq!(at(5_000), scheduled.scheduled()[0].timestamp());
    assert_eq!(3, scheduled.scheduled()[1].metadata().id);
    assert_eq!(at(6_000), scheduled.scheduled()[1].timestamp());
}

#[test]
fn a_routine_runs_once_over_repeated_passes() {
    let counter = Arc::new(AtomicUsize::new(0));
    let mut scheduled = SchedRoutineHandler::default();
    scheduled.push(routine(1_000, 1, count(&counter)));
    scheduled.push(routine(3_000, 2, count(&counter)));
    let mut outputs = outputs(3);

    assert_eq!(1, scheduled.attempt_routines_at(at(2_000), &mut outputs).len());
    assert_eq!(1, counter.load(Ordering::SeqCst));
    assert_eq!(0, scheduled.attempt_routines_at(at(2_000), &mut outputs).len());
    assert_eq!(0, scheduled.attempt_routines_at(at(2_999), &mut outputs).len());
    assert_eq!(1, counter.load(Ordering::SeqCst));
    assert_eq!(1, scheduled.scheduled().len());

    assert_eq!(1, scheduled.attempt_routines_at(at(3_000), &mut outputs).len());
    assert_eq!(0, scheduled.attempt_routines_at(at(4_000), &mut outputs).len());
    assert_eq!(2, counter.load(Ordering::SeqCst));
    assert!(scheduled.scheduled().is_empty());
    assert_eq!(1, logged(&outputs, 1));
    assert_eq!(1, logged(&outputs, 2));
}

#[test]
fn all_due_routines_run_and_the_scheduler_is_empty() {
    let counter = Arc::new(AtomicUsize::new(0));
    let mut scheduled = SchedRoutineHandler::default();
    for id in 0..25u32 {
        scheduled.push(routine(i128::from(id), id, count(&counter)));
    }
    assert_eq!(25, scheduled.scheduled().len());
    let mut outputs = outputs(25);

    let results = scheduled.attempt_routines_at(at(24), &mut outputs);

    assert_eq!(25, results.len());
    assert!((0..25).all(|id| logged(&outputs, id) == 1));
    assert_eq!(25, counter.load(Ordering::SeqCst));
    assert!(scheduled.scheduled().is_empty());
    for (place, result) in results.iter().enumerate() {
        assert_eq!(place as u32, result.as_ref().unwrap().id);
    }
}

#[test]
fn a_routine_is_due_from_its_time_on() {
    let routine = routine(1_000, 1, accept());
    assert!(!routine.is_due(at(999)));
    assert!(routine.is_due(at(1_000)));
    assert!(routine.is_due(at(1_001)));
    assert!(!routine.is_due(at(i128::MIN)));
    assert!(routine.is_due(at(i128::MAX)));
}

#[test]
fn an_attempt_before_the_time_does_nothing() {
    let counter = Arc::new(AtomicUsize::new(0));
    let routine = routine(1_000, 1, count(&counter));
    let mut log = Log::new(1, None);

    assert!(routine.attempt(at(999), &mut log).is_none());
    assert_eq!(0, counter.load(Ordering::SeqCst));
    assert!(log.is_empty());

    let outcome = routine.attempt(at(1_000), &mut log).unwrap();
    assert_eq!(1, counter.load(Ordering::SeqCst));
    let effect = outcome.unwrap();
    assert_eq!(at(1_000), effect.timestamp);
    assert_eq!(&[effect], log.events());
}

#[test]
fn an_effect_that_the_log_does_not_take_is_an_error() {
    let counter = Arc::new(AtomicUsize::new(0));
    let routine = routine(1_000, 1, count(&counter));
    let mut other = Log::new(2, None);

    let error = routine.attempt(at(1_000), &mut other).unwrap().unwrap_err();

    // the command ran, and the log of another device is as it was
    assert_eq!(ErrorKind::ContainerError, error.kind());
    assert_eq!(1, counter.load(Ordering::SeqCst));
    assert!(other.is_empty());
}

#[test]
fn a_failing_command_is_reported_and_does_not_stop_the_pass() {
    let counter = Arc::new(AtomicUsize::new(0));
    let mut scheduled = SchedRoutineHandler::default();
    scheduled.push(routine(10, 1, count(&counter)));
    scheduled.push(routine(10, 2, refuse()));
    scheduled.push(routine(10, 3, count(&counter)));
    scheduled.push(routine(99, 4, count(&counter)));
    let mut outputs = outputs(5);

    let results = scheduled.attempt_routines_at(at(10), &mut outputs);

    assert_eq!(3, results.len());
    assert_eq!(1, logged(&outputs, 1));
    assert_eq!(0, logged(&outputs, 2));
    assert_eq!(1, logged(&outputs, 3));
    assert_eq!(1, results[0].as_ref().unwrap().id);
    let error = results[1].as_ref().unwrap_err();
    assert_eq!(ErrorKind::CommandError, error.kind());
    assert_eq!("refused", error.message());
    assert_eq!(3, results[2].as_ref().unwrap().id);
    assert_eq!(2, counter.load(Ordering::SeqCst));

    assert_eq!(1, scheduled.scheduled().len());
    assert_eq!(4, scheduled.scheduled()[0].metadata().id);
}

#[test]
fn a_routine_holds_what_it_was_made_of() {
    let routine = Routine::new(at(77), device(9), RawValue::Int(-3), accept());
    assert_eq!(at(77), routine.timestamp());
    assert_eq!(&device(9), routine.metadata());
    assert_eq!(RawValue::Int(-3), routine.value());
    assert_eq!(IODirection::Out, routine.command().direction());
}

#[test]
fn conclude_turns_the_result_of_the_command_into_the_effect() {
    let routine = Routine::new(at(77), device(9), RawValue::PosInt8(4), accept());

    let event = routine.conclude(at(80), Ok(None)).unwrap();
    assert_eq!(9, event.id);
    assert_eq!(at(80), event.timestamp);
    assert_eq!(RawValue::PosInt8(4), event.data.value);

    let error = routine.conclude(at(80), Err(Error::new(ErrorKind::CommandError, "stuck"))).unwrap_err();
    assert_eq!(Error::new(ErrorKind::CommandError, "stuck"), error);
}

#[test]
fn logged_records_an_effect_and_hands_an_error_on() {
    let mut log = Log::new(9, None);
    let routine = Routine::new(at(77), device(9), RawValue::PosInt8(4), accept());
    let effect = routine.conclude(at(80), Ok(None)).unwrap();

    assert_eq!(Ok(effect), Routine::logged(Ok(effect), &mut log));
    assert_eq!(&[effect], log.events());

    let error = Error::new(ErrorKind::CommandError, "stuck");
    assert_eq!(Err(error.clone()), Routine::logged(Err(error), &mut log));
    assert_eq!(1, log.len());

    let mut other = Log::new(8, None);
    assert_eq!(ErrorKind::ContainerError, Routine::logged(Ok(effect), &mut other).unwrap_err().kind());
    assert!(other.is_empty());
}

#[test]
fn pushes_and_passes_in_turn_run_every_routine_once() {
    let counter = Arc::new(AtomicUsize::new(0));
    let mut scheduled = SchedRoutineHandler::default();
    let mut log = Log::new(0, None);
    let mut ran: usize = 0;
    let mut pushed: usize = 0;
    let mut seed: u64 = 0x2545_f491_4f6c_dd1d;
    for step in 0..1_000i128 {
        seed ^= seed << 13;
        seed ^= seed >> 7;
        seed ^= seed << 17;
        if seed % 3 != 0 {
            let delay = i128::from(seed % 50);
            scheduled.push(routine(step + delay, 0, count(&counter)));
            pushed += 1;
        } else {
            ran += scheduled.attempt_routines_at(at(step), &mut log).len();
            assert!(scheduled.scheduled().iter().all(|left| !left.is_due(at(step))));
        }
        assert_eq!(pushed, ran + scheduled.scheduled().len());
        assert_eq!(ran, counter.load(Ordering::SeqCst));
        assert_eq!(ran, log.len());
    }
    ran += scheduled.attempt_routines_at(at(1_100), &mut log).len();
    assert_eq!(pushed, ran);
    assert_eq!(pushed, log.len());
    assert_eq!(pushed, counter.load(Ordering::SeqCst));
    assert!(scheduled.scheduled().is_empty());
}

#[test]
fn due_routines_can_be_taken_first_and_run_later() {
    let counter = Arc::new(AtomicUsize::new(0));
    let mut scheduled = SchedRoutineHandler::default();
    scheduled.push(routine(10, 1, count(&counter)));
    scheduled.push(routine(30, 2, count(&counter)));
    scheduled.push(routine(20, 3, count(&counter)));

    let mut taken = scheduled.take_due(at(20));

    // nothing has run, and what is due has left the scheduler
    assert_eq!(0, counter.load(Ordering::SeqCst));
    assert_eq!(1, scheduled.scheduled().len());
    assert_eq!(2, scheduled.scheduled()[0].metadata().id);
    assert_eq!(2, taken.scheduled().len());
    assert_eq!(1, taken.scheduled()[0].metadata().id);
    assert_eq!(3, taken.scheduled()[1].metadata().id);
    assert!(scheduled.take_due(at(20)).scheduled().is_empty());

    // a push in between does not touch what was taken
    scheduled.push(routine(0, 4, count(&counter)));
    let mut outputs = outputs(4);
    let results = taken.attempt_routines_at(at(25), &mut outputs);
    assert_eq!(2, results.len());
    assert_eq!(1, logged(&outputs, 1));
    assert_eq!(1, logged(&outputs, 3));
    assert_eq!(at(25), results[0].as_ref().unwrap().timestamp);
    assert_eq!(2, counter.load(Ordering::SeqCst));
    assert!(taken.scheduled().is_empty());
    assert_eq!(2, scheduled.scheduled().len());
}

#[test]
fn a_delay_is_counted_from_the_clock() {
    let before = Timestamp::now().unwrap();
    let later = before.plus(Span::seconds(3_600));
    let mut scheduled = SchedRoutineHandler::default();
    scheduled.push(Routine::new(later, device(1), RawValue::Binary(true), accept()));
    scheduled.push(Routine::new(before, device(2), RawValue::Binary(true), accept()));
    let mut outputs = outputs(3);

    let results = scheduled.attempt_routines(&mut outputs).unwrap();

    assert_eq!(1, results.len());
    let event = results[0].as_ref().unwrap();
    assert_eq!(2, event.id);
    assert!(event.timestamp.reached(before));
    assert_eq!(1, scheduled.scheduled().len());
    assert_eq!(1, scheduled.scheduled()[0].metadata().id);
}

struct Fixed;

impl Reader for Fixed {
    fn read(&self) -> RawValue {
        RawValue::Int(5)
    }
}

#[test]
fn a_due_routine_with_a_reading_command_succeeds_where_the_log_takes_its_effect() {
    let routine = routine(10, 1, IOCommand::Input(Shared::new(Arc::new(Fixed))));
    let mut log = Log::new(1, None);
    let effect = routine.attempt(at(10), &mut log).unwrap().unwrap();
    assert_eq!(RawValue::Binary(true), effect.data.value);
    assert_eq!(&[effect], log.events());
}

#[test]
fn operations_are_pushes_and_passes() {
    let counter = Arc::new(AtomicUsize::new(0));
    let mut scheduled = SchedRoutineHandler::default();
    let mut log = Log::new(0, None);

    assert!(scheduled.apply(Operation::Push(routine(20, 0, count(&counter))), &mut log).is_empty());
    assert!(scheduled.apply(Operation::Push(routine(10, 0, count(&counter))), &mut log).is_empty());
    assert_eq!(2, scheduled.scheduled().len());
    assert!(scheduled.apply(Operation::Attempt(at(9)), &mut log).is_empty());
    let results = scheduled.apply(Operation::Attempt(at(10)), &mut log);
    assert_eq!(1, results.len());
    assert_eq!(at(10), results[0].as_ref().unwrap().timestamp);
    assert_eq!(1, scheduled.scheduled().len());
    assert_eq!(at(20), scheduled.scheduled()[0].timestamp());
    assert_eq!(1, counter.load(Ordering::SeqCst));
    assert_eq!(1, log.len());
}

#[test]
fn a_run_of_operations_runs_every_routine_once() {
    let counter = Arc::new(AtomicUsize::new(0));
    let mut log = Log::new(0, None);
    let mut operations = Vec::new();
    let mut pushed: usize = 0;
    for step in 0..300i128 {
        if step % 4 == 3 {
            operations.push(Operation::Attempt(at(step)));
        } else {
            operations.push(Operation::Push(routine(step + (step * 7) % 11, 0, count(&counter))));
            pushed += 1;
        }
    }
    operations.push(Operation::Attempt(at(250)));

    let (scheduled, results) = SchedRoutineHandler::replay(operations, &mut log);

    assert_eq!(pushed, results.len() + scheduled.scheduled().len());
    assert_eq!(results.len(), counter.load(Ordering::SeqCst));
    assert_eq!(results.len(), log.len());
    assert!(results.iter().all(|result| result.is_ok()));
    assert!(scheduled.scheduled().iter().all(|left| !left.is_due(at(250))));
    assert!(!scheduled.scheduled().is_empty());
}
