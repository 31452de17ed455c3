//! Time as the library sees it: readings of one monotonic clock, in
//! milliseconds. Whoever drives the library takes the readings.

use vstd::prelude::*;

verus! {

/// A reading of the monotonic clock, in milliseconds.
pub type Millis = u64;

/// Time that has passed between `earlier` and `now`; zero when `earlier` is
/// not in the past.
pub open spec fn elapsed(now: Millis, earlier: Millis) -> nat {
    if now >= earlier {
        (now - earlier) as nat
    } else {
        0
    }
}

/// Computes `elapsed`.
pub fn elapsed_since(now: Millis, earlier: Millis) -> (span: Millis)
    ensures
        span == elapsed(now, earlier),
{
    if now >= earlier {
        now - earlier
    } else {
        0
    }
}

} // verus!
