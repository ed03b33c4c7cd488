//! The one call into `std::time` that the library makes.

use std::time::Duration;
use vstd::prelude::*;

verus! {

/// The duration that `Duration::from_secs` makes of a number of whole
/// seconds.
pub uninterp spec fn whole_seconds(secs: u64) -> Duration;

/// `Duration::from_secs`: the duration of that many whole seconds.
#[verifier::external_body]
pub(crate) fn from_secs(secs: u64) -> (r: Duration)
    ensures
        r == whole_seconds(secs),
{
    Duration::from_secs(secs)
}

} // verus!
