use vstd::prelude::*;

use crate::action::actions::{Action, BoxedAction};
use crate::action::actuator::Actuator;
use crate::action::comparison::Comparison;
use crate::action::handler::SchedRoutineHandler;
use crate::action::routine::Routine;
use crate::io::event::IOEvent;
use crate::io::types::raw::RawValue;
use crate::time::{Span, Timestamp};

verus! {

/// Switches an output device on when a reading stands in a given relation to
/// a threshold.
///
/// On such a reading it schedules a write of `Binary(true)` to the device it
/// is bound to, due at the time of the reading plus the configured delay
/// (none unless one is set: as soon as possible). Bound to no device it still
/// compares, and schedules nothing: that is a valid configuration, and
/// [`Threshold::is_armed`] tells the two apart.
///
/// The time stamped on the reading stands for the present. An evaluator
/// reads no clock: a device shows it each reading as the reading is taken,
/// stamped with the time at which it was taken, so that the two are one. A
/// reading that bears another time moves the due time with it: stamped in the
/// past, its routine is due at once; stamped in the future, its routine waits
/// until then.
pub struct Threshold {
    name: String,
    threshold: RawValue,
    trigger: Comparison,
    output: Option<Actuator>,
    delay: Span,
}

impl Threshold {
    /// An evaluator that is bound to no device and has no delay.
    pub fn new(name: String, threshold: RawValue, trigger: Comparison) -> (t: Threshold)
        ensures
            t.name() == name,
            t.threshold() == threshold,
            t.trigger() == trigger,
            t.output() is None,
            t.delay() == (Span { nanos: 0 }),
    {
        Threshold { name, threshold, trigger, output: None, delay: Span::zero() }
    }

    /// Binds the evaluator to `output`, in place of the device it was bound
    /// to before, if any.
    pub fn set_output(self, output: Actuator) -> (t: Threshold)
        ensures
            t.output() == Some(output),
            t.name() == self.name(),
            t.threshold() == self.threshold(),
            t.trigger() == self.trigger(),
            t.delay() == self.delay(),
    {
        Threshold { name: self.name, threshold: self.threshold, trigger: self.trigger, output: Some(output), delay: self.delay }
    }

    /// Sets the time to let pass between a reading and the write it causes.
    pub fn set_delay(self, delay: Span) -> (t: Threshold)
        ensures
            t.delay() == delay,
            t.name() == self.name(),
            t.threshold() == self.threshold(),
            t.trigger() == self.trigger(),
            t.output() == self.output(),
    {
        Threshold { name: self.name, threshold: self.threshold, trigger: self.trigger, output: self.output, delay }
    }

    pub closed spec fn spec_name(&self) -> &String {
        &self.name
    }

    #[verifier::when_used_as_spec(spec_name)]
    pub fn name(&self) -> (name: &String)
        ensures
            name == self.name(),
    {
        &self.name
    }

    pub closed spec fn spec_threshold(&self) -> RawValue {
        self.threshold
    }

    #[verifier::when_used_as_spec(spec_threshold)]
    pub fn threshold(&self) -> (threshold: RawValue)
        ensures
            threshold == self.threshold(),
    {
        self.threshold
    }

    pub closed spec fn spec_trigger(&self) -> Comparison {
        self.trigger
    }

    #[verifier::when_used_as_spec(spec_trigger)]
    pub fn trigger(&self) -> (trigger: Comparison)
        ensures
            trigger == self.trigger(),
    {
        self.trigger
    }

    pub closed spec fn spec_delay(&self) -> Span {
        self.delay
    }

    #[verifier::when_used_as_spec(spec_delay)]
    pub fn delay(&self) -> (delay: Span)
        ensures
            delay == self.delay(),
    {
        self.delay
    }

    /// The device that the evaluator is bound to, if any.
    pub closed spec fn output(&self) -> Option<Actuator> {
        self.output
    }

    /// Whether the evaluator is bound to a device, so that it can act.
    pub open spec fn spec_is_armed(&self) -> bool {
        self.output() is Some
    }

    #[verifier::when_used_as_spec(spec_is_armed)]
    pub fn is_armed(&self) -> (armed: bool)
        ensures
            armed == self.is_armed(),
    {
        self.output.is_some()
    }

    /// This evaluator, ready to subscribe to a publisher.
    pub fn into_boxed(self) -> (boxed: BoxedAction)
        ensures
            boxed == BoxedAction::Threshold(self),
    {
        BoxedAction::Threshold(self)
    }

    /// Whether `value` stands in the evaluator's relation to its threshold.
    pub open spec fn spec_exceeded(&self, value: RawValue) -> bool {
        self.trigger().holds(value.magnitude(), self.threshold().magnitude())
    }

    #[verifier::when_used_as_spec(spec_exceeded)]
    pub fn exceeded(&self, value: RawValue) -> (exceeded: bool)
        ensures
            exceeded == self.exceeded(value),
    {
        self.trigger.matches(value, self.threshold)
    }
}

impl Threshold {
    /// A reading that meets the condition of an evaluator that is bound to a
    /// device causes one routine: a write of `Binary(true)` to that device,
    /// which is due once the delay has passed after the reading, and at once
    /// where there is no delay. Its effect at `now` is that value on that
    /// device at that time.
    pub proof fn lemma_schedules(self, data: IOEvent, now: Timestamp)
        requires
            self.is_armed(),
            self.exceeded(data.data.value),
        ensures
            self.emits(data) is Some,
            self.emits(data).unwrap().timestamp() == data.timestamp.plus(self.delay()),
            self.emits(data).unwrap().is_due(now) <==> now.reached(data.timestamp.plus(self.delay())),
            self.delay()@ == 0 ==> self.emits(data).unwrap().is_due(data.timestamp),
            self.emits(data).unwrap().effect(now) == IOEvent::of(
                self.output().unwrap().metadata,
                now,
                RawValue::Binary(true),
            ),
    {
        broadcast use Routine::lemma_new;
    }

    /// An evaluator that is bound to no device, or whose condition the
    /// reading does not meet, causes nothing.
    pub proof fn lemma_stays_quiet(self, data: IOEvent)
        requires
            !self.is_armed() || !self.exceeded(data.data.value),
        ensures
            self.emits(data) is None,
    {
    }
}

impl Action for Threshold {
    /// A write of `Binary(true)` to the bound device, due after the
    /// configured delay from the time of the reading, where the reading
    /// stands in the relation to the threshold and a device is bound;
    /// nothing otherwise. The time of the reading, `data.timestamp`, stands
    /// for the present.
    open spec fn emits(&self, data: IOEvent) -> Option<Routine> {
        if self.exceeded(data.data.value) && self.output() is Some {
            Some(self.output().unwrap().routine(RawValue::Binary(true), self.delay(), data.timestamp))
        } else {
            None
        }
    }

    fn evaluate(&mut self, data: &IOEvent, scheduler: &mut SchedRoutineHandler)
        ensures
            *final(self) == *old(self),
    {
        if self.exceeded(data.data.value) {
            match &self.output {
                Some(output) => {
                    scheduler.push(output.create_routine_at(RawValue::Binary(true), self.delay, data.timestamp));
                },
                None => {},
            }
        }
    }
}

} // verus!
