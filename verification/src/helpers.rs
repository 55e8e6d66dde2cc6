//! Small helpers shared by the modules.

use std::sync::Arc;
use vstd::prelude::*;

use crate::errors::ErrorType;

verus! {

/// `Arc::clone` of std: a second handle on the same value.
#[verifier::external_body]
pub(crate) fn arc_clone<T: ?Sized>(handle: &Arc<T>) -> (copy: Arc<T>)
    ensures
        copy == *handle,
{
    Arc::clone(handle)
}

/// The first error among `results`, if any.
pub open spec fn first_error(results: Seq<Result<(), ErrorType>>) -> Option<ErrorType>
    decreases results.len(),
{
    if results.len() == 0 {
        None
    } else {
        match results.first() {
            Ok(_) => first_error(results.drop_first()),
            Err(e) => Some(e),
        }
    }
}

/// `Ok` where every one of `results` is `Ok`, else the first error among
/// them.
pub fn check_results(results: &[Result<(), ErrorType>]) -> (r: Result<(), ErrorType>)
    ensures
        r == (match first_error(results@) {
            Some(e) => Err::<(), ErrorType>(e),
            None => Ok::<(), ErrorType>(()),
        }),
{
    let mut index: usize = 0;
    proof {
        assert(results@.skip(0) =~= results@);
    }
    while index < results.len()
        invariant
            index <= results@.len(),
            first_error(results@) == first_error(results@.skip(index as int)),
        decreases results@.len() - index,
    {
        proof {
            assert(results@.skip(index as int).drop_first() =~= results@.skip(index + 1));
        }
        match &results[index] {
            Ok(_) => {},
            Err(e) => {
                return Err(e.clone());
            },
        }
        index = index + 1;
    }
    Ok(())
}

} // verus!
