//! Intervals between polls.

use std::time::Duration;
use vstd::prelude::*;

verus! {

/// The duration of `secs` whole seconds, as `Duration::from_secs` builds it.
pub uninterp spec fn whole_seconds(secs: u64) -> Duration;

/// Trusted: `Duration::from_secs` depends on its argument alone, so its result
/// has a name. Nothing else is claimed of it.
pub assume_specification[ Duration::from_secs ](secs: u64) -> (d: Duration)
    ensures
        d == whole_seconds(secs),
;

} // verus!
