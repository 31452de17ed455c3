//! The UI-readiness state machine that bridges backend startup and the
//! frontend's mount signal.

use vstd::prelude::*;

verus! {

/// How far the frontend has come in mounting.
#[derive(Debug, Clone, Copy, PartialEq, Eq, Structural)]
pub enum UiReadyStage {
    NotStarted,
    Loading,
    DomReady,
    ResourcesLoaded,
    Ready,
}

/// The readiness stage together with the process-wide "ready" flag.
#[derive(Debug, Clone, Copy, PartialEq, Eq, Structural)]
pub struct ReadinessState {
    pub stage: UiReadyStage,
    pub ready: bool,
}

impl ReadinessState {
    /// The state at process start: nothing mounted, flag down.
    pub open spec fn initial() -> ReadinessState {
        ReadinessState { stage: UiReadyStage::NotStarted, ready: false }
    }

    /// The state after a transition to `stage`: the stage is overwritten and
    /// the flag rises exactly when the target is the terminal stage.
    pub open spec fn after_transition(self, stage: UiReadyStage) -> ReadinessState {
        ReadinessState { stage, ready: self.ready || stage == UiReadyStage::Ready }
    }

    pub fn new() -> (state: ReadinessState)
        ensures
            state == ReadinessState::initial(),
    {
        ReadinessState { stage: UiReadyStage::NotStarted, ready: false }
    }

    /// The stage last recorded.
    pub fn stage(&self) -> (stage: UiReadyStage)
        ensures
            stage == self.stage,
    {
        self.stage
    }
}

/// Whether the frontend has finished initialising. Reads the flag only.
pub fn is_ui_ready(state: &ReadinessState) -> (ready: bool)
    ensures
        ready == state.ready,
{
    state.ready
}

/// Records `stage`, whatever the current stage is. Entering
/// `UiReadyStage::Ready` also raises the flag; no other target touches it.
pub fn update_ui_ready_stage(state: &mut ReadinessState, stage: UiReadyStage)
    ensures
        *final(state) == old(state).after_transition(stage),
{
    state.stage = stage;
    if stage == UiReadyStage::Ready {
        mark_ui_ready(state);
    }
}

/// Raises the flag and leaves the stage as it is.
pub fn mark_ui_ready(state: &mut ReadinessState)
    ensures
        *final(state) == (ReadinessState { ready: true, ..*old(state) }),
{
    state.ready = true;
}

/// Clears the flag and returns the stage to `NotStarted`.
pub fn reset_ui_ready(state: &mut ReadinessState)
    ensures
        *final(state) == ReadinessState::initial(),
{
    state.ready = false;
    state.stage = UiReadyStage::NotStarted;
}

/// Any stage can follow any stage. The flag is true after a transition
/// exactly if it was true before or the target is the terminal stage, and a
/// reset leaves neither stage nor flag behind.
pub proof fn only_the_terminal_stage_raises_the_flag(state: ReadinessState, stage: UiReadyStage)
    ensures
        state.after_transition(stage).stage == stage,
        state.after_transition(stage).ready <==> state.ready || stage == UiReadyStage::Ready,
        !ReadinessState::initial().ready,
        ReadinessState::initial().stage == UiReadyStage::NotStarted,
{
}

/// Pause between two looks at the readiness flag, in milliseconds.
pub const MONITOR_INTERVAL_MS: u64 = 100;

/// How long the frontend is given to report readiness when the window was
/// created while the lightweight mode was active, in milliseconds.
pub const LIGHTWEIGHT_READY_TIMEOUT_MS: u64 = 3000;

/// How long the frontend is given to report readiness otherwise.
pub const NORMAL_READY_TIMEOUT_MS: u64 = 8000;

/// The readiness timeout for a window created with the lightweight mode
/// active (`lightweight`) or not.
pub fn ui_ready_timeout_ms(lightweight: bool) -> (timeout: u64)
    ensures
        timeout == (if lightweight {
            LIGHTWEIGHT_READY_TIMEOUT_MS
        } else {
            NORMAL_READY_TIMEOUT_MS
        }),
{
    if lightweight {
        LIGHTWEIGHT_READY_TIMEOUT_MS
    } else {
        NORMAL_READY_TIMEOUT_MS
    }
}

/// What the readiness monitor does after one look at the flag.
#[derive(Debug, Clone, Copy, PartialEq, Eq, Structural)]
pub enum MonitorAction {
    /// The frontend is ready: remove the initial loading overlay.
    RemoveOverlay,
    /// Not ready yet: wait `MONITOR_INTERVAL_MS` and look again.
    Wait,
    /// The time is up: the flag was forced, log a warning.
    GiveUp,
}

/// The monitor's decision after `waited` milliseconds with the given timeout.
pub open spec fn monitor_decision(state: ReadinessState, waited: u64, timeout: u64) -> MonitorAction {
    if state.ready {
        MonitorAction::RemoveOverlay
    } else if waited >= timeout {
        MonitorAction::GiveUp
    } else {
        MonitorAction::Wait
    }
}

/// One look of the readiness monitor. When the timeout has passed without
/// the frontend's signal, the flag is forced to true; otherwise the state is
/// untouched. When the monitor stops looking, the flag is true.
pub fn monitor_ui_ready(state: &mut ReadinessState, waited: u64, timeout: u64) -> (action: MonitorAction)
    ensures
        action == monitor_decision(*old(state), waited, timeout),
        final(state).stage == old(state).stage,
        final(state).ready == (old(state).ready || waited >= timeout),
        action != MonitorAction::Wait ==> final(state).ready,
{
    if state.ready {
        MonitorAction::RemoveOverlay
    } else if waited >= timeout {
        mark_ui_ready(state);
        MonitorAction::GiveUp
    } else {
        MonitorAction::Wait
    }
}

} // verus!
