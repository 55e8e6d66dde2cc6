//! Settings that the library itself needs.

use vstd::prelude::*;

verus! {

/// The directory under which data is kept where no other is set.
pub const DATA_ROOT: &'static str = "sensd";

} // verus!
