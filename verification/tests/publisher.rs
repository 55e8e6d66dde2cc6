use std::sync::atomic::{AtomicUsize, Ordering};
use std::sync::{Arc, Mutex};

use sensd::action::{
    Action, Actuator, BoxedAction, Comparison, IOCommand, Publisher, Routine, SchedRoutineHandler, Shared, Threshold,
    Writer,
};
use sensd::errors::ErrorType;
use sensd::io::{DeviceMetadata, IOData, IODirection, IOEvent, IOKind, RawValue};
use sensd::storage::Log;
use sensd::time::{Span, Timestamp};

/// A command that counts how often it ran.
struct Count(Arc<AtomicUsize>);

impl Writer for Count {
    fn write(&self, _value: RawValue) -> Result<(), ErrorType> {
        self.0.fetch_add(1, Ordering::SeqCst);
        Ok(())
    }
}

/// An evaluator that notes the order in which it was called, and schedules
/// nothing.
struct Probe {
    label: u32,
    calls: Arc<Mutex<Vec<u32>>>,
}

impl Action for Probe {
    fn emits(&self, _data: IOEvent) -> Option<Routine> {
        None
    }

    fn evaluate(&mut self, _data: &IOEvent, _scheduler: &mut SchedRoutineHandler) {
        self.calls.lock().unwrap().push(self.label);
    }
}

fn at(nanos: i128) -> Timestamp {
    Timestamp { nanos }
}

fn reading(value: RawValue, nanos: i128) -> IOEvent {
    IOEvent {
        id: 1,
        timestamp: at(nanos),
        direction: IODirection::In,
        data: IOData { kind: IOKind::AmbientTemperature, value },
    }
}

fn actuator(id: u32, counter: &Arc<AtomicUsize>) -> Actuator {
    Actuator::new(
        DeviceMetadata::new(String::from("fan"), id, IOKind::Flow, IODirection::Out),
        IOCommand::Output(Shared::new(Arc::new(Count(counter.clone())))),
    )
}

fn threshold(limit: i32, trigger: Comparison) -> Threshold {
    Threshold::new(String::from("limit"), RawValue::Int(limit), trigger)
}

#[test]
fn a_threshold_above_its_limit_schedules_one_routine() {
    let counter = Arc::new(AtomicUsize::new(0));
    let mut evaluator = threshold(10, Comparison::GreaterThan).set_output(actuator(7, &counter));
    let mut scheduler = SchedRoutineHandler::default();

    evaluator.evaluate(&reading(RawValue::Int(15), 500), &mut scheduler);

    assert_eq!(1, scheduler.scheduled().len());
    let routine = &scheduler.scheduled()[0];
    assert_eq!(at(500), routine.timestamp());
    assert_eq!(7, routine.metadata().id);
    assert_eq!(RawValue::Binary(true), routine.value());
    // nothing has run yet
    assert_eq!(0, counter.load(Ordering::SeqCst));
}

#[test]
fn a_threshold_below_its_limit_schedules_nothing() {
    let counter = Arc::new(AtomicUsize::new(0));
    let mut evaluator = threshold(10, Comparison::GreaterThan).set_output(actuator(7, &counter));
    let mut scheduler = SchedRoutineHandler::default();

    evaluator.evaluate(&reading(RawValue::Int(5), 500), &mut scheduler);
    evaluator.evaluate(&reading(RawValue::Int(10), 600), &mut scheduler);

    assert!(scheduler.scheduled().is_empty());
}

#[test]
fn a_threshold_without_a_device_compares_and_schedules_nothing() {
    let mut evaluator = threshold(10, Comparison::GreaterThan);
    let mut scheduler = SchedRoutineHandler::default();

    assert!(!evaluator.is_armed());
    assert!(evaluator.exceeded(RawValue::Int(15)));
    evaluator.evaluate(&reading(RawValue::Int(15), 500), &mut scheduler);

    assert!(scheduler.scheduled().is_empty());
}

#[test]
fn a_threshold_keeps_what_it_was_made_of() {
    let counter = Arc::new(AtomicUsize::new(0));
    let evaluator = threshold(10, Comparison::LessOrEqual);
    assert_eq!("limit", evaluator.name());
    assert_eq!(RawValue::Int(10), evaluator.threshold());
    assert_eq!(Comparison::LessOrEqual, evaluator.trigger());
    assert_eq!(Span::zero(), evaluator.delay());
    assert!(!evaluator.is_armed());
    assert!(evaluator.exceeded(RawValue::Int(10)));
    assert!(!evaluator.exceeded(RawValue::Int(11)));

    let evaluator = evaluator.set_output(actuator(1, &counter)).set_delay(Span::seconds(2));
    assert!(evaluator.is_armed());
    assert_eq!(Span::seconds(2), evaluator.delay());
    assert_eq!(RawValue::Int(10), evaluator.threshold());
}

#[test]
fn a_configured_delay_defers_the_routine() {
    let counter = Arc::new(AtomicUsize::new(0));
    let mut publisher = Publisher::default();
    publisher.subscribe(
        threshold(10, Comparison::GreaterThan)
            .set_output(actuator(7, &counter))
            .set_delay(Span::nanoseconds(250))
            .into_boxed(),
    );

    publisher.propagate(&reading(RawValue::Int(11), 1_000));

    assert_eq!(at(1_250), publisher.handler_ref().scheduled()[0].timestamp());
    let mut log = Log::new(7, None);
    assert!(publisher.attempt_routines_at(at(1_249), &mut log).is_empty());
    assert_eq!(0, counter.load(Ordering::SeqCst));
    assert_eq!(1, publisher.attempt_routines_at(at(1_250), &mut log).len());
    assert_eq!(1, counter.load(Ordering::SeqCst));
    assert_eq!(1, log.len());
}

#[test]
fn evaluators_are_called_in_the_order_in_which_they_subscribed() {
    let calls = Arc::new(Mutex::new(Vec::new()));
    let mut publisher = Publisher::default();
    for label in [3u32, 1, 2] {
        publisher.subscribe(BoxedAction::new(Probe { label, calls: calls.clone() }));
    }
    assert_eq!(3, publisher.subscribers().len());

    publisher.propagate(&reading(RawValue::Int(0), 0));
    assert_eq!(vec![3, 1, 2], *calls.lock().unwrap());

    publisher.notify(&reading(RawValue::Int(0), 1));
    assert_eq!(vec![3, 1, 2, 3, 1, 2], *calls.lock().unwrap());
}

#[test]
fn routines_join_the_scheduler_in_the_order_of_the_evaluators() {
    let counter = Arc::new(AtomicUsize::new(0));
    let mut publisher = Publisher::default();
    publisher.subscribe(threshold(10, Comparison::GreaterThan).set_output(actuator(30, &counter)).into_boxed());
    publisher.subscribe(threshold(99, Comparison::GreaterThan).set_output(actuator(31, &counter)).into_boxed());
    publisher.subscribe(threshold(10, Comparison::NotEqual).set_output(actuator(32, &counter)).into_boxed());
    publisher.subscribe(threshold(20, Comparison::LessThan).set_output(actuator(33, &counter)).into_boxed());

    publisher.propagate(&reading(RawValue::Int(15), 40));

    let ids: Vec<u32> = publisher.handler_ref().scheduled().iter().map(|routine| routine.metadata().id).collect();
    assert_eq!(vec![30, 32, 33], ids);
}

#[test]
fn a_publisher_without_evaluators_schedules_nothing() {
    let mut publisher = Publisher::default();
    assert!(publisher.subscribers().is_empty());
    publisher.propagate(&reading(RawValue::Int(15), 40));
    assert!(publisher.handler_ref().scheduled().is_empty());
    let mut log = Log::new(0, None);
    assert!(publisher.attempt_routines(&mut log).unwrap().is_empty());
    assert!(log.is_empty());
}

#[test]
fn the_borrowed_scheduler_is_the_publishers_own() {
    let counter = Arc::new(AtomicUsize::new(0));
    let mut publisher = Publisher::default();
    let routine = Routine::new(
        at(5),
        DeviceMetadata::default(),
        RawValue::Binary(false),
        IOCommand::Output(Shared::new(Arc::new(Count(counter.clone())))),
    );

    publisher.handler_ref().push(routine);

    assert_eq!(1, publisher.handler_ref().scheduled().len());
    let mut log = Log::new(0, None);
    let results = publisher.attempt_routines_at(at(5), &mut log);
    assert_eq!(1, results.len());
    assert_eq!(1, log.len());
    assert_eq!(RawValue::Binary(false), results[0].as_ref().unwrap().data.value);
    assert_eq!(1, counter.load(Ordering::SeqCst));
    assert!(publisher.handler_ref().scheduled().is_empty());
}

#[test]
fn from_a_reading_to_the_log_of_the_device() {
    let counter = Arc::new(AtomicUsize::new(0));
    let mut log = Log::new(7, None);
    let mut publisher = Publisher::default();
    publisher.subscribe(threshold(100, Comparison::GreaterOrEqual).set_output(actuator(7, &counter)).into_boxed());

    publisher.propagate(&reading(RawValue::Int(100), 900));

    assert_eq!(1, publisher.handler_ref().scheduled().len());
    assert!(publisher.handler_ref().scheduled()[0].is_due(at(900)));

    let results = publisher.attempt_routines_at(at(950), &mut log);

    assert_eq!(1, results.len());
    assert!(results[0].is_ok());
    assert!(publisher.handler_ref().scheduled().is_empty());
    assert_eq!(1, counter.load(Ordering::SeqCst));
    assert_eq!(1, log.len());
    let effect = log.events()[0];
    assert_eq!(7, effect.id);
    assert_eq!(at(950), effect.timestamp);
    assert_eq!(IODirection::Out, effect.direction);
    assert_eq!(IOKind::Flow, effect.data.kind);
    assert_eq!(RawValue::Binary(true), effect.data.value);
    // a second pass finds nothing
    assert!(publisher.attempt_routines_at(at(951), &mut log).is_empty());
    assert_eq!(1, counter.load(Ordering::SeqCst));
    assert_eq!(1, log.len());
}

#[test]
fn an_actuator_makes_routines_for_its_device() {
    let counter = Arc::new(AtomicUsize::new(0));
    let actuator = actuator(4, &counter);
    let routine = actuator.create_routine_at(RawValue::PosInt8(9), Span::milliseconds(1), at(2_000_000));
    assert_eq!(at(3_000_000), routine.timestamp());
    assert_eq!(4, routine.metadata().id);
    assert_eq!("fan", routine.metadata().name);
    assert_eq!(RawValue::PosInt8(9), routine.value());
    let copy = actuator.clone();
    assert_eq!(actuator.metadata, copy.metadata);
}
