use vstd::prelude::*;

use crate::action::handler::SchedRoutineHandler;
use crate::action::routine::Routine;
use crate::action::threshold::Threshold;
use crate::io::event::IOEvent;

verus! {

/// A unit of decision: it is shown every reading of one input device, and on
/// each it may schedule one routine.
///
/// An implementation may keep state of its own between readings. It leaves
/// the routines that already wait alone, and adds at most one.
pub trait Action: Send {
    /// The routine that this evaluator, as it stands, schedules on the
    /// reading `data`; `None` where it schedules nothing.
    spec fn emits(&self, data: IOEvent) -> Option<Routine>;

    /// Shows the evaluator the reading `data`. Where it decides to act, it
    /// pushes its routine into `scheduler`.
    fn evaluate(&mut self, data: &IOEvent, scheduler: &mut SchedRoutineHandler)
        ensures
            final(scheduler)@ == (match old(self).emits(*data) {
                Some(routine) => old(scheduler)@.push(routine),
                None => old(scheduler)@,
            }),
    ;
}

/// An evaluator as a publisher holds it: one of the kinds that the library
/// knows, or any other behind a box.
pub enum BoxedAction {
    Threshold(Threshold),
    Other(Box<dyn Action>),
}

impl BoxedAction {
    /// Boxes an evaluator of a kind of the caller's own: the result holds
    /// that evaluator, as it was given, behind a box.
    pub fn new<A: Action + 'static>(action: A) -> (boxed: BoxedAction)
        ensures
            boxed == BoxedAction::Other(Box::new(action)),
    {
        BoxedAction::Other(Box::new(action))
    }
}

impl Action for BoxedAction {
    /// What the evaluator inside schedules.
    open spec fn emits(&self, data: IOEvent) -> Option<Routine> {
        match self {
            BoxedAction::Threshold(threshold) => threshold.emits(data),
            BoxedAction::Other(action) => action.emits(data),
        }
    }

    /// A threshold evaluator stays as it is. An evaluator of another kind is
    /// afterwards what its own `evaluate` left.
    fn evaluate(&mut self, data: &IOEvent, scheduler: &mut SchedRoutineHandler)
        ensures
            *old(self) is Threshold ==> *final(self) == *old(self),
    {
        match self {
            BoxedAction::Threshold(threshold) => threshold.evaluate(data, scheduler),
            BoxedAction::Other(action) => action.evaluate(data, scheduler),
        }
    }
}

} // verus!
