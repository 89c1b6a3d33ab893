//! The game's only source of chance. Re-target periods, spawn positions,
//! popup scheduling and popup choice all draw from the process-wide random
//! generator through the two wrappers here; everything done with a drawn
//! value is verified for every value the wrapper can hand back.

use vstd::prelude::*;
use rand::Rng;

verus! {

/// Relies on rand::thread_rng and rand::Rng::gen_range on the half-open
/// integer range `lo..hi`: the sample always lies inside the range
/// (uniformly, which no contract here claims). gen_range panics on an
/// empty range, which the precondition rules out.
#[verifier::external_body]
pub(crate) fn gen_range_i64(lo: i64, hi: i64) -> (r: i64)
    requires
        lo < hi,
    ensures
        lo <= r < hi,
{
    rand::thread_rng().gen_range(lo..hi)
}

/// Relies on rand::random with the standard distribution on bool: a fair
/// coin flip, of which nothing can be promised.
#[verifier::external_body]
pub(crate) fn random_bool() -> bool {
    rand::random::<bool>()
}

} // verus!
