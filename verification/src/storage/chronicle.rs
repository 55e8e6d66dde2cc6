use vstd::prelude::*;

use crate::errors::ErrorType;
use crate::io::event::IOEvent;

verus! {

/// Where the effects of routines are recorded: a log, or anything that holds
/// logs and finds the right one for an event.
///
/// The scheduler records every effect through this interface and never
/// reads anything back.
pub trait Chronicle: View {
    /// Whether a chronicle in the state `chronicle` takes `event`.
    spec fn takes(chronicle: Self::V, event: IOEvent) -> bool;

    /// The state of a chronicle that was in the state `chronicle` and has
    /// recorded `event`.
    spec fn after(chronicle: Self::V, event: IOEvent) -> Self::V;

    /// Records `event`, if the chronicle takes it. An event that it does not
    /// take gives an error, and the chronicle stays as it is.
    fn record(&mut self, event: IOEvent) -> (r: Result<(), ErrorType>)
        ensures
            r is Ok <==> Self::takes(old(self)@, event),
            r is Ok ==> final(self)@ == Self::after(old(self)@, event),
            r is Err ==> final(self)@ == old(self)@,
    ;
}

/// The state of a chronicle that was in the state `chronicle` and has
/// recorded the effects among `results`, in their order. The errors among
/// them leave no trace.
pub open spec fn after_all<C: Chronicle>(chronicle: C::V, results: Seq<Result<IOEvent, ErrorType>>) -> C::V
    decreases results.len(),
{
    if results.len() == 0 {
        chronicle
    } else {
        let before = after_all::<C>(chronicle, results.drop_last());
        match results.last() {
            Ok(event) => C::after(before, event),
            Err(_) => before,
        }
    }
}

/// Recording the results of two passes one after the other is recording
/// them all.
pub proof fn lemma_after_all_add<C: Chronicle>(
    chronicle: C::V,
    first: Seq<Result<IOEvent, ErrorType>>,
    second: Seq<Result<IOEvent, ErrorType>>,
)
    ensures
        after_all::<C>(chronicle, first + second) == after_all::<C>(after_all::<C>(chronicle, first), second),
    decreases second.len(),
{
    if second.len() > 0 {
        lemma_after_all_add::<C>(chronicle, first, second.drop_last());
        assert((first + second).drop_last() =~= first + second.drop_last());
    }
}

/// One result more: an effect is recorded behind what was recorded before,
/// and an error changes nothing.
pub proof fn lemma_after_all_push<C: Chronicle>(
    chronicle: C::V,
    results: Seq<Result<IOEvent, ErrorType>>,
    result: Result<IOEvent, ErrorType>,
)
    ensures
        after_all::<C>(chronicle, results.push(result)) == (match result {
            Ok(event) => C::after(after_all::<C>(chronicle, results), event),
            Err(_) => after_all::<C>(chronicle, results),
        }),
        after_all::<C>(chronicle, Seq::empty()) == chronicle,
{
    assert(results.push(result).drop_last() =~= results);
}

} // verus!
