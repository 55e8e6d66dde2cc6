//! What holds of a scheduler over any run of pushes and passes.
//!
//! Each operation on a scheduler has the scheduler to itself while it runs, so
//! whatever the callers and however they take turns, the scheduler sees one
//! sequence of operations. The laws here hold of every such sequence.

use vstd::prelude::*;

use crate::action::handler::SchedRoutineHandler;
use crate::action::routine::Routine;
use crate::errors::ErrorType;
use crate::io::event::IOEvent;
use crate::storage::chronicle::Chronicle;
use crate::time::Timestamp;

verus! {

/// One operation on a scheduler: the push of a routine, or a pass at a time.
pub enum Operation {
    Push(Routine),
    Attempt(Timestamp),
}

impl SchedRoutineHandler {
    /// Does `operation` to the scheduler: [`Self::push`] for a push, and
    /// [`Self::attempt_routines_at`], with its results, for a pass. This is
    /// the step of which the laws below speak.
    pub fn apply<C: Chronicle>(&mut self, operation: Operation, log: &mut C) -> (results: Vec<
        Result<IOEvent, ErrorType>,
    >)
        ensures
            match operation {
                Operation::Push(routine) => {
                    &&& final(self)@ == old(self)@.push(routine)
                    &&& results@.len() == 0
                    &&& final(log)@ == old(log)@
                },
                Operation::Attempt(now) => {
                    &&& final(self)@ == Self::pending(old(self)@, now)
                    &&& results@.len() == Self::due(old(self)@, now).len()
                    &&& forall|k: int|
                        0 <= k < results@.len() ==> (#[trigger] results@[k] matches Ok(event) ==> event
                            == Self::due(old(self)@, now)[k].effect(now))
                    &&& final(log)@ == crate::storage::chronicle::after_all::<C>(old(log)@, results@)
                },
            },
    {
        match operation {
            Operation::Push(routine) => {
                self.push(routine);
                Vec::new()
            },
            Operation::Attempt(now) => self.attempt_routines_at(now, log),
        }
    }

    /// Does `operations`, one after the other, to a scheduler that is empty
    /// at first, and gives the scheduler and the results of all the passes.
    ///
    /// The routines that wait in the end are [`Self::waiting`] of the
    /// operations, and the passes have run [`Self::ran`] of them, each once:
    /// there is one result for each. So the laws below, which speak of
    /// `waiting` and `ran`, hold of every run of `push` and
    /// `attempt_routines_at`.
    pub fn replay<C: Chronicle>(operations: Vec<Operation>, log: &mut C) -> (r: (
        SchedRoutineHandler,
        Vec<Result<IOEvent, ErrorType>>,
    ))
        ensures
            r.0@ == Self::waiting(operations@),
            r.1@.len() == Self::ran(operations@).len(),
            final(log)@ == crate::storage::chronicle::after_all::<C>(old(log)@, r.1@),
    {
        let ghost all = operations@;
        let mut operations = operations;
        let mut scheduler = SchedRoutineHandler::default();
        let mut results: Vec<Result<IOEvent, ErrorType>> = Vec::new();
        let ghost mut done: int = 0;
        while operations.len() > 0
            invariant
                0 <= done <= all.len(),
                operations@ == all.skip(done),
                scheduler@ == Self::waiting(all.take(done)),
                results@.len() == Self::ran(all.take(done)).len(),
                log@ == crate::storage::chronicle::after_all::<C>(old(log)@, results@),
            decreases operations@.len(),
        {
            let ghost so_far = results@;
            let operation = operations.remove(0);
            let mut here = scheduler.apply(operation, log);
            proof {
                assert(all.take(done + 1).drop_last() =~= all.take(done));
                crate::storage::chronicle::lemma_after_all_add::<C>(old(log)@, so_far, here@);
                done = done + 1;
            }
            results.append(&mut here);
        }
        proof {
            assert(all.take(done) =~= all);
        }
        (scheduler, results)
    }

    /// The routines that were pushed by `operations`, in their order.
    pub open spec fn pushed(operations: Seq<Operation>) -> Seq<Routine>
        decreases operations.len(),
    {
        if operations.len() == 0 {
            Seq::empty()
        } else {
            let before = Self::pushed(operations.drop_last());
            match operations.last() {
                Operation::Push(routine) => before.push(routine),
                Operation::Attempt(_) => before,
            }
        }
    }

    /// The routines that wait in a scheduler that was empty and has seen
    /// `operations`.
    pub open spec fn waiting(operations: Seq<Operation>) -> Seq<Routine>
        decreases operations.len(),
    {
        if operations.len() == 0 {
            Seq::empty()
        } else {
            let before = Self::waiting(operations.drop_last());
            match operations.last() {
                Operation::Push(routine) => before.push(routine),
                Operation::Attempt(now) => Self::pending(before, now),
            }
        }
    }

    /// The routines that the passes among `operations` have run on a
    /// scheduler that was empty, in the order in which they ran.
    pub open spec fn ran(operations: Seq<Operation>) -> Seq<Routine>
        decreases operations.len(),
    {
        if operations.len() == 0 {
            Seq::empty()
        } else {
            let before = Self::ran(operations.drop_last());
            match operations.last() {
                Operation::Push(_) => before,
                Operation::Attempt(now) => before + Self::due(Self::waiting(operations.drop_last()), now),
            }
        }
    }

    /// Whatever the pushes and passes and however they alternate, every
    /// routine that was pushed has run or still waits, as often as it was
    /// pushed: none is lost and none runs twice.
    pub proof fn lemma_once_and_never_lost(operations: Seq<Operation>)
        ensures
            Self::pushed(operations).to_multiset() == Self::waiting(operations).to_multiset().add(
                Self::ran(operations).to_multiset(),
            ),
        decreases operations.len(),
    {
        broadcast use vstd::seq_lib::group_to_multiset_ensures;
        if operations.len() > 0 {
            let earlier = operations.drop_last();
            Self::lemma_once_and_never_lost(earlier);
            match operations.last() {
                Operation::Push(_) => {},
                Operation::Attempt(now) => {
                    Self::lemma_partition(Self::waiting(earlier), now);
                    vstd::seq_lib::lemma_multiset_commutative(
                        Self::ran(earlier),
                        Self::due(Self::waiting(earlier), now),
                    );
                },
            }
        }
    }

    /// After a pass, no routine waits that was due at the time of the pass:
    /// every routine that was pushed before the pass and due at it has run.
    pub proof fn lemma_nothing_overdue(operations: Seq<Operation>, now: Timestamp)
        ensures
            forall|i: int|
                0 <= i < Self::waiting(operations.push(Operation::Attempt(now))).len() ==> !(
                #[trigger] Self::waiting(operations.push(Operation::Attempt(now)))[i]).is_due(now),
    {
        Self::lemma_partition(Self::waiting(operations), now);
    }
}

} // verus!
