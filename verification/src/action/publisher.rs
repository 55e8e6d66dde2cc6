use vstd::prelude::*;

use crate::action::actions::{Action, BoxedAction};
use crate::action::handler::SchedRoutineHandler;
use crate::action::routine::Routine;
use crate::action::threshold::Threshold;
use crate::errors::{ErrorKind, ErrorType};
use crate::io::event::IOEvent;
use crate::io::types::raw::RawValue;
use crate::storage::chronicle::Chronicle;
use crate::storage::log::{Log, LogView};
use crate::time::Timestamp;

verus! {

/// The evaluators of one input device, and the routines that they have
/// scheduled.
///
/// A publisher belongs to one input device. Every reading of the device is
/// shown to every evaluator, in the order in which they subscribed. The
/// publisher owns its scheduler: nothing else holds it, and whoever is to
/// push into it or to run it borrows it from the publisher.
pub struct Publisher {
    actions: Vec<BoxedAction>,
    scheduled: SchedRoutineHandler,
}

/// What a publisher holds.
pub struct PublisherView {
    /// The evaluators, in the order in which they subscribed.
    pub actions: Seq<BoxedAction>,
    /// The routines that wait in the publisher's scheduler, oldest first.
    pub routines: Seq<Routine>,
}

impl PublisherView {
    /// Whether `after` is what a publisher in this state may be once the
    /// reading `data` has been shown to its evaluators: the routines that
    /// they schedule on it have joined the routines that wait, in the order
    /// of the evaluators; the evaluators are as many as before, and every
    /// threshold evaluator is as it was.
    pub open spec fn shown(self, data: IOEvent, after: PublisherView) -> bool {
        &&& after.routines == self.routines + Publisher::emitted(self.actions, data)
        &&& after.actions.len() == self.actions.len()
        &&& forall|i: int|
            0 <= i < self.actions.len() && self.actions[i] is Threshold ==> #[trigger] after.actions[i]
                == self.actions[i]
    }
}

impl View for Publisher {
    type V = PublisherView;

    closed spec fn view(&self) -> PublisherView {
        PublisherView { actions: self.actions@, routines: self.scheduled@ }
    }
}

impl Default for Publisher {
    fn default() -> (publisher: Publisher)
        ensures
            publisher@ == (PublisherView { actions: Seq::empty(), routines: Seq::empty() }),
    {
        Publisher { actions: Vec::new(), scheduled: SchedRoutineHandler::default() }
    }
}

impl Publisher {
    /// The routines that the evaluators `actions` schedule on the reading
    /// `data`: what the first schedules, then what the second schedules, and
    /// so on.
    pub open spec fn emitted(actions: Seq<BoxedAction>, data: IOEvent) -> Seq<Routine> {
        actions.filter_map(|action: BoxedAction| action.emits(data))
    }

    /// Runs the routines that are due at `now`, removes them, and records
    /// their effects in `log`: a pass of
    /// [`SchedRoutineHandler::attempt_routines_at`] over the publisher's
    /// scheduler.
    pub fn attempt_routines_at<C: Chronicle>(&mut self, now: Timestamp, log: &mut C) -> (results: Vec<
        Result<IOEvent, ErrorType>,
    >)
        ensures
            final(self)@.routines == SchedRoutineHandler::pending(old(self)@.routines, now),
            results@.len() == SchedRoutineHandler::due(old(self)@.routines, now).len(),
            forall|k: int|
                0 <= k < results@.len() ==> (#[trigger] results@[k] matches Ok(event) ==> event
                    == SchedRoutineHandler::due(old(self)@.routines, now)[k].effect(now)),
            final(log)@ == crate::storage::chronicle::after_all::<C>(old(log)@, results@),
            final(self)@.actions == old(self)@.actions,
    {
        self.scheduled.attempt_routines_at(now, log)
    }

    /// Runs the routines that are due by the system clock, removes them, and
    /// records their effects in `log`. Where the clock cannot be read, the
    /// result is `ClockError`, nothing is run and nothing changes.
    pub fn attempt_routines<C: Chronicle>(&mut self, log: &mut C) -> (r: Result<
        Vec<Result<IOEvent, ErrorType>>,
        ErrorType,
    >)
        ensures
            match r {
                Ok(results) => {
                    &&& exists|now: Timestamp|
                        now.on_clock() && SchedRoutineHandler::attempted(
                            old(self)@.routines,
                            now,
                            final(self)@.routines,
                            results@,
                        )
                    &&& final(log)@ == crate::storage::chronicle::after_all::<C>(old(log)@, results@)
                    &&& final(self)@.actions == old(self)@.actions
                },
                Err(e) => e.kind == ErrorKind::ClockError && final(self)@ == old(self)@ && final(log)@ == old(log)@,
            },
    {
        let r = self.scheduled.attempt_routines(log);
        proof {
            if r is Ok {
                let now = choose|now: Timestamp|
                    now.on_clock() && SchedRoutineHandler::attempted(
                        old(self).scheduled@,
                        now,
                        self.scheduled@,
                        r->Ok_0@,
                    );
                assert(now.on_clock() && SchedRoutineHandler::attempted(
                    old(self)@.routines,
                    now,
                    self@.routines,
                    r->Ok_0@,
                ));
            }
        }
        r
    }

    /// The evaluators, in the order in which they subscribed.
    pub fn subscribers(&self) -> (subscribers: &[BoxedAction])
        ensures
            subscribers@ == self@.actions,
    {
        self.actions.as_slice()
    }

    /// Adds an evaluator after those that have subscribed already.
    pub fn subscribe(&mut self, subscriber: BoxedAction)
        ensures
            final(self)@.actions == old(self)@.actions.push(subscriber),
            final(self)@.routines == old(self)@.routines,
    {
        self.actions.push(subscriber)
    }

    /// Shows the reading `data` to every evaluator, once each, in the order
    /// in which they subscribed. The routines that they schedule join the
    /// scheduler in that order, behind those that wait already.
    pub fn propagate(&mut self, data: &IOEvent)
        ensures
            final(self)@.routines == old(self)@.routines + Self::emitted(old(self)@.actions, *data),
            final(self)@.actions.len() == old(self)@.actions.len(),
            forall|i: int|
                0 <= i < old(self)@.actions.len() && old(self)@.actions[i] is Threshold
                    ==> #[trigger] final(self)@.actions[i] == old(self)@.actions[i],
    {
        let count: usize = self.actions.len();
        let mut index: usize = 0;
        while index < count
            invariant
                index <= count,
                count == self.actions@.len(),
                count == old(self).actions@.len(),
                forall|k: int| index <= k < count ==> self.actions@[k] == old(self).actions@[k],
                forall|k: int|
                    0 <= k < index && old(self).actions@[k] is Threshold ==> self.actions@[k] == old(self).actions@[k],
                self.scheduled@ == old(self).scheduled@ + Self::emitted(old(self).actions@.take(index as int), *data),
            decreases count - index,
        {
            proof {
                lemma_emitted_next(old(self).actions@, index as int, *data);
            }
            self.actions[index].evaluate(data, &mut self.scheduled);
            index = index + 1;
        }
        proof {
            assert(old(self).actions@.take(count as int) =~= old(self).actions@);
        }
    }

    /// Shows the reading `data` to every evaluator: another name for
    /// [`Self::propagate`].
    pub fn notify(&mut self, data: &IOEvent)
        ensures
            old(self)@.shown(*data, final(self)@),
    {
        self.propagate(data)
    }

    /// Lends the publisher's scheduler, for pushing a routine that no
    /// reading caused or for looking at those that wait.
    pub fn handler_ref(&mut self) -> (handler: &mut SchedRoutineHandler)
        ensures
            handler@ == old(self)@.routines,
            final(self)@.routines == final(handler)@,
            final(self)@.actions == old(self)@.actions,
    {
        &mut self.scheduled
    }
}

impl Publisher {
    /// Registration order is invocation order: what an evaluator schedules
    /// on a reading comes behind what the evaluators before it schedule, and
    /// a lone evaluator contributes its own routine or nothing.
    pub proof fn lemma_registration_order(actions: Seq<BoxedAction>, action: BoxedAction, data: IOEvent)
        ensures
            Self::emitted(actions.push(action), data) == Self::emitted(actions, data) + Self::emitted(
                seq![action],
                data,
            ),
            Self::emitted(seq![action], data) == (match action.emits(data) {
                Some(routine) => seq![routine],
                None => Seq::<Routine>::empty(),
            }),
            Self::emitted(Seq::<BoxedAction>::empty(), data) == Seq::<Routine>::empty(),
    {
        let all = actions.push(action);
        assert(all.take(actions.len() as int) =~= actions);
        lemma_emitted_next(all, actions.len() as int, data);
        lemma_emitted_next(seq![action], 0, data);
    }

    /// From a reading to its effect: a publisher in which nothing waits and
    /// whose one evaluator is a threshold evaluator that is bound to a device
    /// and has no delay. A reading that meets the condition leaves one
    /// routine in the scheduler. A pass at the time of the reading or later
    /// runs that routine and no other, and leaves the scheduler empty; its
    /// effect is a write of `Binary(true)` to the bound device at the time of
    /// the pass. Where the command succeeds, the log of that device receives
    /// that one event, behind the events that it holds.
    pub proof fn lemma_reading_to_effect(threshold: Threshold, data: IOEvent, now: Timestamp, log: LogView)
        requires
            threshold.is_armed(),
            threshold.exceeded(data.data.value),
            threshold.delay()@ == 0,
            now.reached(data.timestamp),
            log.id == threshold.output().unwrap().metadata.id,
        ensures
            Self::emitted(seq![BoxedAction::Threshold(threshold)], data).len() == 1,
            SchedRoutineHandler::pending(Self::emitted(seq![BoxedAction::Threshold(threshold)], data), now)
                == Seq::<Routine>::empty(),
            SchedRoutineHandler::due(Self::emitted(seq![BoxedAction::Threshold(threshold)], data), now)
                == Self::emitted(seq![BoxedAction::Threshold(threshold)], data),
            Self::emitted(seq![BoxedAction::Threshold(threshold)], data)[0].effect(now) == IOEvent::of(
                threshold.output().unwrap().metadata,
                now,
                RawValue::Binary(true),
            ),
            Log::takes(log, Self::emitted(seq![BoxedAction::Threshold(threshold)], data)[0].effect(now)),
            crate::storage::chronicle::after_all::<Log>(
                log,
                seq![
                    Ok::<IOEvent, ErrorType>(
                        Self::emitted(seq![BoxedAction::Threshold(threshold)], data)[0].effect(now),
                    ),
                ],
            ).events == log.events.push(
                Self::emitted(seq![BoxedAction::Threshold(threshold)], data)[0].effect(now),
            ),
    {
        let action = BoxedAction::Threshold(threshold);
        Self::lemma_registration_order(Seq::empty(), action, data);
        threshold.lemma_schedules(data, now);
        SchedRoutineHandler::lemma_all_due(Self::emitted(seq![action], data), now);
        let effect = Self::emitted(seq![action], data)[0].effect(now);
        crate::storage::chronicle::lemma_after_all_push::<Log>(log, Seq::empty(), Ok(effect));
    }

    /// Three evaluators are each shown a reading once, in the order in which
    /// they subscribed: what they schedule is what the first schedules, then
    /// what the second schedules, then what the third schedules.
    pub proof fn lemma_three_in_order(first: BoxedAction, second: BoxedAction, third: BoxedAction, data: IOEvent)
        ensures
            Self::emitted(seq![first, second, third], data) == Self::emitted(seq![first], data) + Self::emitted(
                seq![second],
                data,
            ) + Self::emitted(seq![third], data),
    {
        Self::lemma_registration_order(seq![first, second], third, data);
        Self::lemma_registration_order(seq![first], second, data);
        assert(seq![first].push(second) =~= seq![first, second]);
        assert(seq![first, second].push(third) =~= seq![first, second, third]);
    }
}

/// One evaluator more: what it schedules comes after what the others schedule.
proof fn lemma_emitted_next(actions: Seq<BoxedAction>, n: int, data: IOEvent)
    requires
        0 <= n < actions.len(),
    ensures
        Publisher::emitted(actions.take(n + 1), data) == (match actions[n].emits(data) {
            Some(routine) => Publisher::emitted(actions.take(n), data).push(routine),
            None => Publisher::emitted(actions.take(n), data),
        }),
        Publisher::emitted(actions.take(0), data) == Seq::<Routine>::empty(),
{
    assert(actions.take(n + 1).drop_last() =~= actions.take(n));
}

} // verus!
