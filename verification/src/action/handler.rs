use vstd::prelude::*;

use crate::action::routine::Routine;
use crate::errors::{clock_unreadable, ErrorKind, ErrorType};
use crate::io::event::IOEvent;
use crate::storage::chronicle::Chronicle;
use crate::time::Timestamp;

verus! {

/// The routines that wait for their time, in the order in which they were
/// pushed.
///
/// A routine leaves the collection in the pass that finds it due, whether its
/// command succeeded or failed: it runs once and is never tried again. What
/// became of each is reported to the caller of that pass.
pub struct SchedRoutineHandler(Vec<Routine>);

impl View for SchedRoutineHandler {
    type V = Seq<Routine>;

    closed spec fn view(&self) -> Seq<Routine> {
        self.0@
    }
}

impl Default for SchedRoutineHandler {
    fn default() -> (handler: SchedRoutineHandler)
        ensures
            handler@ == Seq::<Routine>::empty(),
    {
        SchedRoutineHandler(Vec::new())
    }
}

impl SchedRoutineHandler {
    /// The routines of `routines` that are due at `now`, in their order.
    pub open spec fn due(routines: Seq<Routine>, now: Timestamp) -> Seq<Routine> {
        routines.filter(|r: Routine| r.is_due(now))
    }

    /// The routines of `routines` that are not yet due at `now`, in their
    /// order.
    pub open spec fn pending(routines: Seq<Routine>, now: Timestamp) -> Seq<Routine> {
        routines.filter(|r: Routine| !r.is_due(now))
    }

    /// What one pass at `now` does to the collection `before`: the routines
    /// that were due are gone, the others stay as they were, and `results`
    /// holds one entry for each routine that was due, in their order: its
    /// effect where its command succeeded and the effect was recorded, an
    /// error otherwise.
    pub open spec fn attempted(
        before: Seq<Routine>,
        now: Timestamp,
        after: Seq<Routine>,
        results: Seq<Result<IOEvent, ErrorType>>,
    ) -> bool {
        &&& after == Self::pending(before, now)
        &&& results.len() == Self::due(before, now).len()
        &&& forall|k: int|
            0 <= k < results.len() ==> (#[trigger] results[k] matches Ok(event) ==> event
                == Self::due(before, now)[k].effect(now))
    }

    /// Adds a routine at the back.
    pub fn push(&mut self, routine: Routine)
        ensures
            final(self)@ == old(self)@.push(routine),
    {
        self.0.push(routine)
    }

    /// The routines that wait, oldest first.
    pub fn scheduled(&self) -> (routines: &[Routine])
        ensures
            routines@ == self@,
    {
        self.0.as_slice()
    }

    /// Takes the routines that are due at `now` out of the collection, in
    /// their order, without running them, and leaves the others as they
    /// were.
    ///
    /// Which routines are due and which leave is decided in this one step.
    /// Where the collection is shared behind a lock and a command may stall,
    /// take the due routines under the lock, release it, and run what was
    /// taken with [`Self::attempt_routines_at`]: pushes are then never kept
    /// waiting for the hardware.
    pub fn take_due(&mut self, now: Timestamp) -> (due: SchedRoutineHandler)
        ensures
            final(self)@ == Self::pending(old(self)@, now),
            due@ == Self::due(old(self)@, now),
    {
        let mut due: Vec<Routine> = Vec::new();
        let ghost before = self.0@;
        let ghost mut seen: int = 0;
        let mut index: usize = 0;
        proof {
            lemma_filter_empty(|r: Routine| r.is_due(now));
            lemma_filter_empty(|r: Routine| !r.is_due(now));
        }
        while index < self.0.len()
            invariant
                0 <= seen <= before.len(),
                index == Self::pending(before.take(seen), now).len(),
                self.0@ =~= Self::pending(before.take(seen), now) + before.skip(seen),
                due@ == Self::due(before.take(seen), now),
            decreases before.len() - seen,
        {
            proof {
                lemma_filter_next(before, seen, |r: Routine| r.is_due(now));
                lemma_filter_next(before, seen, |r: Routine| !r.is_due(now));
            }
            if self.0[index].is_due(now) {
                let routine = self.0.remove(index);
                due.push(routine);
            } else {
                index = index + 1;
            }
            proof {
                seen = seen + 1;
            }
        }
        proof {
            assert(before.take(seen) =~= before);
        }
        SchedRoutineHandler(due)
    }

    /// Runs every routine that is due at `now`, removes it, and records its
    /// effect in `log`.
    ///
    /// The routines are tried in the order in which they were pushed. A
    /// command that fails does not stop the pass: its error takes the place of
    /// the effect in the results, and the routine is dropped like the others.
    /// So does the error of `log` where it does not take an effect. The
    /// effects in the results are those that `log` has recorded, in their
    /// order.
    pub fn attempt_routines_at<C: Chronicle>(&mut self, now: Timestamp, log: &mut C) -> (results: Vec<
        Result<IOEvent, ErrorType>,
    >)
        ensures
            final(self)@ == Self::pending(old(self)@, now),
            results@.len() == Self::due(old(self)@, now).len(),
            forall|k: int|
                0 <= k < results@.len() ==> (#[trigger] results@[k] matches Ok(event) ==> event
                    == Self::due(old(self)@, now)[k].effect(now)),
            final(log)@ == crate::storage::chronicle::after_all::<C>(old(log)@, results@),
    {
        let due = self.take_due(now);
        let mut results: Vec<Result<IOEvent, ErrorType>> = Vec::new();
        let mut index: usize = 0;
        proof {
            Self::lemma_partition(old(self)@, now);
        }
        while index < due.0.len()
            invariant
                index <= due.0@.len(),
                results@.len() == index,
                forall|i: int| 0 <= i < due.0@.len() ==> (#[trigger] due.0@[i]).is_due(now),
                forall|k: int|
                    0 <= k < results@.len() ==> (#[trigger] results@[k] matches Ok(event) ==> event
                        == due.0@[k].effect(now)),
                log@ == crate::storage::chronicle::after_all::<C>(old(log)@, results@),
            decreases due.0@.len() - index,
        {
            let ghost so_far = results@;
            match due.0[index].attempt(now, log) {
                Some(outcome) => {
                    proof {
                        crate::storage::chronicle::lemma_after_all_push::<C>(old(log)@, so_far, outcome);
                    }
                    results.push(outcome)
                },
                None => {},
            }
            index = index + 1;
        }
        results
    }

    /// Runs every routine that is due by the system clock, removes it, and
    /// records its effect in `log`: one pass of
    /// [`Self::attempt_routines_at`] at the time that the clock gave.
    ///
    /// Call this often, and more often than the devices are polled: a routine
    /// runs in the first pass after its time has come.
    ///
    /// Where the clock cannot be read, the result is `ClockError`, nothing
    /// is run and nothing changes.
    pub fn attempt_routines<C: Chronicle>(&mut self, log: &mut C) -> (r: Result<
        Vec<Result<IOEvent, ErrorType>>,
        ErrorType,
    >)
        ensures
            match r {
                Ok(results) => {
                    &&& exists|now: Timestamp|
                        now.on_clock() && Self::attempted(old(self)@, now, final(self)@, results@)
                    &&& final(log)@ == crate::storage::chronicle::after_all::<C>(old(log)@, results@)
                },
                Err(e) => e.kind == ErrorKind::ClockError && final(self)@ == old(self)@ && final(log)@ == old(log)@,
            },
    {
        match Timestamp::now() {
            Some(now) => Ok(self.attempt_routines_at(now, log)),
            None => Err(clock_unreadable()),
        }
    }
}

impl SchedRoutineHandler {
    /// Routines whose time lies ahead are left alone: a pass at a time at
    /// which no routine is due removes nothing, changes nothing and runs
    /// nothing.
    pub proof fn lemma_none_due(routines: Seq<Routine>, now: Timestamp)
        requires
            forall|i: int| 0 <= i < routines.len() ==> !routines[i].is_due(now),
        ensures
            Self::pending(routines, now) == routines,
            Self::due(routines, now) == Seq::<Routine>::empty(),
        decreases routines.len(),
    {
        reveal(Seq::filter);
        if routines.len() > 0 {
            Self::lemma_none_due(routines.drop_last(), now);
        }
    }

    /// Where every routine is due, a pass runs them all, each once and in
    /// their order, and leaves the collection empty.
    pub proof fn lemma_all_due(routines: Seq<Routine>, now: Timestamp)
        requires
            forall|i: int| 0 <= i < routines.len() ==> routines[i].is_due(now),
        ensures
            Self::pending(routines, now) == Seq::<Routine>::empty(),
            Self::due(routines, now) == routines,
        decreases routines.len(),
    {
        reveal(Seq::filter);
        if routines.len() > 0 {
            Self::lemma_all_due(routines.drop_last(), now);
        }
    }

    /// A routine that is due among routines that are not: a pass runs that
    /// routine and no other, removes it, and leaves the others as they were
    /// and in their order.
    pub proof fn lemma_one_due(earlier: Seq<Routine>, routine: Routine, later: Seq<Routine>, now: Timestamp)
        requires
            routine.is_due(now),
            forall|i: int| 0 <= i < earlier.len() ==> !earlier[i].is_due(now),
            forall|i: int| 0 <= i < later.len() ==> !later[i].is_due(now),
        ensures
            Self::pending(earlier.push(routine) + later, now) == earlier + later,
            Self::due(earlier.push(routine) + later, now) == seq![routine],
    {
        Self::lemma_split(earlier.push(routine), later, now);
        Self::lemma_split(earlier, seq![routine], now);
        Self::lemma_none_due(earlier, now);
        Self::lemma_none_due(later, now);
        Self::lemma_all_due(seq![routine], now);
    }

    /// A pass treats each routine by itself: the routines of two collections
    /// put end to end fare as they do apart.
    pub proof fn lemma_split(first: Seq<Routine>, second: Seq<Routine>, now: Timestamp)
        ensures
            Self::pending(first + second, now) == Self::pending(first, now) + Self::pending(second, now),
            Self::due(first + second, now) == Self::due(first, now) + Self::due(second, now),
    {
        Seq::filter_distributes_over_add(first, second, |r: Routine| r.is_due(now));
        Seq::filter_distributes_over_add(first, second, |r: Routine| !r.is_due(now));
    }

    /// A routine that is due stays due: what was taken as due at `now` runs
    /// whole in a pass at `now` or at any later time, and nothing of it is
    /// left.
    pub proof fn lemma_taken_runs(routines: Seq<Routine>, now: Timestamp, later: Timestamp)
        requires
            later.reached(now),
        ensures
            Self::due(Self::due(routines, now), later) == Self::due(routines, now),
            Self::pending(Self::due(routines, now), later) == Seq::<Routine>::empty(),
    {
        Self::lemma_partition(routines, now);
        Self::lemma_all_due(Self::due(routines, now), later);
    }

    /// Every routine meets exactly one fate in a pass: it runs, or it stays.
    /// None is lost and none is counted twice.
    pub proof fn lemma_partition(routines: Seq<Routine>, now: Timestamp)
        ensures
            Self::pending(routines, now).len() + Self::due(routines, now).len() == routines.len(),
            routines.to_multiset() == Self::pending(routines, now).to_multiset().add(
                Self::due(routines, now).to_multiset(),
            ),
            forall|i: int| 0 <= i < Self::due(routines, now).len() ==> (#[trigger] Self::due(routines, now)[i]).is_due(now),
            forall|i: int|
                0 <= i < Self::pending(routines, now).len() ==> !(#[trigger] Self::pending(routines, now)[i]).is_due(
                    now,
                ),
        decreases routines.len(),
    {
        reveal(Seq::filter);
        broadcast use vstd::seq_lib::group_to_multiset_ensures;
        if routines.len() > 0 {
            let front = routines.drop_last();
            Self::lemma_partition(front, now);
            assert(front.push(routines.last()) =~= routines);
        }
    }

    /// No routine runs twice: what a pass leaves holds nothing for a second
    /// pass at the same time, and a routine that a later pass runs was not
    /// due at the earlier one.
    pub proof fn lemma_no_second_run(routines: Seq<Routine>, now: Timestamp, later: Timestamp)
        ensures
            Self::pending(Self::pending(routines, now), now) == Self::pending(routines, now),
            Self::due(Self::pending(routines, now), now) == Seq::<Routine>::empty(),
            forall|i: int|
                0 <= i < Self::due(Self::pending(routines, now), later).len() ==> !(
                #[trigger] Self::due(Self::pending(routines, now), later)[i]).is_due(now),
    {
        let left = Self::pending(routines, now);
        Self::lemma_partition(routines, now);
        Self::lemma_none_due(left, now);
        let again = Self::due(left, later);
        assert forall|i: int| 0 <= i < again.len() implies !(#[trigger] again[i]).is_due(now) by {
            left.lemma_filter_contains_rev(|r: Routine| r.is_due(later), again[i]);
        }
    }
}

/// Nothing passes a filter of the empty sequence.
proof fn lemma_filter_empty<A>(keep: spec_fn(A) -> bool)
    ensures
        Seq::<A>::empty().filter(keep) == Seq::<A>::empty(),
{
    reveal(Seq::filter);
}

/// Filtering one item more: the item joins the result where it passes.
proof fn lemma_filter_next<A>(items: Seq<A>, n: int, keep: spec_fn(A) -> bool)
    requires
        0 <= n < items.len(),
    ensures
        items.take(n + 1).filter(keep) == if keep(items[n]) {
            items.take(n).filter(keep).push(items[n])
        } else {
            items.take(n).filter(keep)
        },
{
    reveal(Seq::filter);
    assert(items.take(n + 1).drop_last() =~= items.take(n));
}

} // verus!
