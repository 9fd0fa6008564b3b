//! Durations.

use core::time::Duration;
use vstd::prelude::*;

verus! {

/// The duration that `Duration::from_secs` makes of a number of seconds.
pub uninterp spec fn seconds(secs: u64) -> Duration;

/// The duration that `Duration::from_millis` makes of a number of milliseconds.
pub uninterp spec fn milliseconds(millis: u64) -> Duration;

/// `std::time::Duration::from_secs`: the duration of that many seconds.
pub assume_specification[ Duration::from_secs ](secs: u64) -> (duration: Duration)
    ensures
        duration == seconds(secs),
;

/// `std::time::Duration::from_millis`: the duration of that many milliseconds.
pub assume_specification[ Duration::from_millis ](millis: u64) -> (duration: Duration)
    ensures
        duration == milliseconds(millis),
;

} // verus!
