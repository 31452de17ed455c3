//! The process-wide lifecycle state, gathered in one object that the
//! orchestrator owns and lends to whoever needs a part of it.

use vstd::prelude::*;
use crate::clock::Millis;
use crate::deep_link::{DeepLinkDedupRecord, EarlyDeepLink};
use crate::guard::WindowCreationState;
use crate::readiness::ReadinessState;
use crate::startup::VersionInfo;

verus! {

/// All shared lifecycle state.
#[derive(Debug, Clone, PartialEq, Eq)]
pub struct LifecycleContext {
    pub readiness: ReadinessState,
    pub window_guard: WindowCreationState,
    pub dedup: DeepLinkDedupRecord,
    pub early_link: EarlyDeepLink,
    pub version: VersionInfo,
}

impl LifecycleContext {
    /// The state at process start, at `now`: the UI not ready, no window
    /// build under way, no link seen, no version captured.
    pub fn new(now: Millis) -> (context: LifecycleContext)
        ensures
            context.readiness == ReadinessState::initial(),
            context.window_guard == WindowCreationState::released(now),
            context.dedup@ is None,
            context.early_link@ is None,
            context.version@ is None,
    {
        LifecycleContext {
            readiness: ReadinessState::new(),
            window_guard: WindowCreationState::new(now),
            dedup: DeepLinkDedupRecord::new(),
            early_link: EarlyDeepLink::new(),
            version: VersionInfo::new(),
        }
    }
}

} // verus!
