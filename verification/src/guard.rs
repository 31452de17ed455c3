//! The window-creation guard: one `(in_progress, started_at)` pair that keeps
//! concurrent triggers from building the main window twice.

use vstd::prelude::*;
use crate::clock::{elapsed, elapsed_since, Millis};

verus! {

/// How long an unfinished build keeps other builds out, in milliseconds.
/// An older flag counts as abandoned.
pub const BUILD_EXCLUSION_MS: u64 = 2000;

/// Whether a window build is under way, and since when.
#[derive(Debug, Clone, Copy, PartialEq, Eq, Structural)]
pub struct WindowCreationState {
    pub in_progress: bool,
    pub started_at: Millis,
}

impl WindowCreationState {
    /// The guard with no build under way, as left at `now`.
    pub open spec fn released(now: Millis) -> WindowCreationState {
        WindowCreationState { in_progress: false, started_at: now }
    }

    /// The guard held by a build that started at `now`.
    pub open spec fn held(now: Millis) -> WindowCreationState {
        WindowCreationState { in_progress: true, started_at: now }
    }

    /// Whether a build asked for at `now` must be refused: another one is in
    /// progress and began less than `BUILD_EXCLUSION_MS` ago.
    pub open spec fn blocks(self, now: Millis) -> bool {
        self.in_progress && elapsed(now, self.started_at) < BUILD_EXCLUSION_MS
    }

    /// The guard after a build was asked for at `now`.
    pub open spec fn after_request(self, now: Millis) -> WindowCreationState {
        if self.blocks(now) {
            self
        } else {
            WindowCreationState::held(now)
        }
    }

    pub fn new(now: Millis) -> (guard: WindowCreationState)
        ensures
            guard == WindowCreationState::released(now),
    {
        WindowCreationState { in_progress: false, started_at: now }
    }

    /// Asks for the right to build at `now`. Refused exactly when the guard
    /// blocks; otherwise the guard is taken with `now` as its start.
    pub fn try_begin(&mut self, now: Millis) -> (admitted: bool)
        ensures
            admitted == !old(self).blocks(now),
            *final(self) == old(self).after_request(now),
    {
        if self.in_progress && elapsed_since(now, self.started_at) < BUILD_EXCLUSION_MS {
            false
        } else {
            self.in_progress = true;
            self.started_at = now;
            true
        }
    }

    /// Gives the guard back at `now`, whatever the build came to.
    pub fn finish(&mut self, now: Millis)
        ensures
            *final(self) == WindowCreationState::released(now),
    {
        self.in_progress = false;
        self.started_at = now;
    }
}

/// While a build that was admitted at `first` is unfinished, a request at
/// `second` is refused if it comes less than two seconds later and admitted
/// from two seconds on.
pub proof fn second_request_within_exclusion_is_refused(
    guard: WindowCreationState,
    first: Millis,
    second: Millis,
)
    requires
        !guard.blocks(first),
    ensures
        guard.after_request(first).blocks(second) <==> elapsed(second, first) < BUILD_EXCLUSION_MS,
        guard.after_request(first).after_request(second).in_progress,
{
}

/// Once a build has finished, the next request is admitted at any time.
pub proof fn finished_guard_admits(finished_at: Millis, next: Millis)
    ensures
        !WindowCreationState::released(finished_at).blocks(next),
{
}

/// A refused request leaves the guard exactly as it was: the build that holds
/// it stays the only one in progress.
pub proof fn refused_request_changes_nothing(guard: WindowCreationState, now: Millis)
    requires
        guard.blocks(now),
    ensures
        guard.after_request(now) == guard,
{
}

} // verus!
