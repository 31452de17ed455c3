//! Decisions of the main-window lifecycle: show the window that exists, build
//! a new one under the creation guard, or stay hidden. Each outside step
//! (probing, showing, building) is reported back as an event; the step
//! function answers with the next thing to do.

use vstd::prelude::*;
use crate::clock::Millis;
use crate::guard::{WindowCreationState, BUILD_EXCLUSION_MS};
use crate::readiness::{ReadinessState, UiReadyStage};

verus! {

/// Where one request to make the window visible stands.
#[derive(Debug, Clone, Copy, PartialEq, Eq, Structural)]
pub enum WindowPhase {
    /// Nothing has been asked yet.
    Idle,
    /// Waiting to learn whether a main window exists.
    Probing,
    /// Waiting for the existing window to be shown and focused.
    Showing,
    /// Waiting for the stale window to be destroyed.
    Discarding,
    /// The guard is held and the build is under way.
    Building,
    /// Over; the value is what the request returns to its caller.
    Finished(bool),
}

/// What the outside reports.
#[derive(Debug, Clone, Copy, PartialEq, Eq, Structural)]
pub enum WindowEvent {
    /// A trigger asks for the window, visible (`show`) or not.
    Requested { show: bool },
    /// Whether a main window exists and, if so, whether it is minimized.
    Probed { exists: bool, minimized: bool },
    /// How showing and focusing the existing window went.
    Shown { shown: bool, focused: bool },
    /// The stale window is gone.
    Discarded,
    /// The build returned, with a window (`ok`) or an error.
    Built { ok: bool },
}

/// What the outside is to do next.
#[derive(Debug, Clone, Copy, PartialEq, Eq, Structural)]
pub enum WindowAction {
    /// Silent start: mark the lightweight mode active, announce that startup
    /// completed, build nothing.
    StaySilent,
    /// Find out whether a main window exists.
    Probe,
    /// Show and focus the existing window, restoring it first if minimized.
    ShowExisting { unminimize: bool },
    /// The existing window is shown; nothing is built.
    Reuse,
    /// Destroy the window whose handle went stale.
    Discard,
    /// Build the window.
    Build,
    /// Another build holds the guard: drop this request.
    Refuse,
    /// The window was built: run the follow-up task.
    FollowUp,
    /// The build failed: report it, do not retry.
    ReportFailure,
    /// The event does not belong to the current phase; nothing changes.
    Ignore,
}

/// One step's result: the new phase and shared state, and the action.
pub struct WindowStep {
    pub phase: WindowPhase,
    pub guard: WindowCreationState,
    pub readiness: ReadinessState,
    pub action: WindowAction,
}

/// The step taken once the guard is to be asked at `now`.
pub open spec fn enter_build(
    guard: WindowCreationState,
    readiness: ReadinessState,
    now: Millis,
) -> WindowStep {
    if guard.blocks(now) {
        WindowStep { phase: WindowPhase::Finished(false), guard, readiness, action: WindowAction::Refuse }
    } else {
        WindowStep {
            phase: WindowPhase::Building,
            guard: WindowCreationState::held(now),
            readiness,
            action: WindowAction::Build,
        }
    }
}

/// The transition table of the window lifecycle.
pub open spec fn window_step(
    phase: WindowPhase,
    guard: WindowCreationState,
    readiness: ReadinessState,
    event: WindowEvent,
    now: Millis,
) -> WindowStep {
    match (phase, event) {
        (WindowPhase::Idle, WindowEvent::Requested { show }) => if show {
            WindowStep { phase: WindowPhase::Probing, guard, readiness, action: WindowAction::Probe }
        } else {
            WindowStep {
                phase: WindowPhase::Finished(false),
                guard,
                readiness,
                action: WindowAction::StaySilent,
            }
        },
        (WindowPhase::Probing, WindowEvent::Probed { exists, minimized }) => if exists {
            WindowStep {
                phase: WindowPhase::Showing,
                guard,
                readiness,
                action: WindowAction::ShowExisting { unminimize: minimized },
            }
        } else {
            enter_build(guard, readiness, now)
        },
        (WindowPhase::Showing, WindowEvent::Shown { shown, focused }) => if shown && focused {
            WindowStep { phase: WindowPhase::Finished(true), guard, readiness, action: WindowAction::Reuse }
        } else {
            WindowStep { phase: WindowPhase::Discarding, guard, readiness, action: WindowAction::Discard }
        },
        (WindowPhase::Discarding, WindowEvent::Discarded) => enter_build(guard, readiness, now),
        (WindowPhase::Building, WindowEvent::Built { ok }) => if ok {
            WindowStep {
                phase: WindowPhase::Finished(true),
                guard: WindowCreationState::released(now),
                readiness: readiness.after_transition(UiReadyStage::NotStarted),
                action: WindowAction::FollowUp,
            }
        } else {
            WindowStep {
                phase: WindowPhase::Finished(false),
                guard: WindowCreationState::released(now),
                readiness,
                action: WindowAction::ReportFailure,
            }
        },
        _ => WindowStep { phase, guard, readiness, action: WindowAction::Ignore },
    }
}

/// The phase in which every request starts.
pub fn window_flow_start() -> (phase: WindowPhase)
    ensures
        phase == WindowPhase::Idle,
{
    WindowPhase::Idle
}

/// What a finished request returns to its caller: `Some(true)` when the
/// window is shown, `Some(false)` when it is not, `None` while under way.
pub fn window_result(phase: WindowPhase) -> (result: Option<bool>)
    ensures
        result == (match phase {
            WindowPhase::Finished(visible) => Some(visible),
            _ => None,
        }),
{
    match phase {
        WindowPhase::Finished(visible) => Some(visible),
        _ => None,
    }
}

fn begin_build(guard: &mut WindowCreationState, now: Millis) -> (r: (WindowPhase, WindowAction))
    ensures
        r.0 == (if old(guard).blocks(now) { WindowPhase::Finished(false) } else { WindowPhase::Building }),
        r.1 == (if old(guard).blocks(now) { WindowAction::Refuse } else { WindowAction::Build }),
        *final(guard) == old(guard).after_request(now),
{
    if guard.try_begin(now) {
        (WindowPhase::Building, WindowAction::Build)
    } else {
        (WindowPhase::Finished(false), WindowAction::Refuse)
    }
}

/// Takes one step of a window request: consumes `event`, observed at `now`,
/// updates the guard and the readiness state, and returns the next phase with
/// the action to perform. Follows `window_step` exactly.
pub fn create_window(
    phase: WindowPhase,
    guard: &mut WindowCreationState,
    readiness: &mut ReadinessState,
    event: WindowEvent,
    now: Millis,
) -> (next: (WindowPhase, WindowAction))
    ensures
        next.0 == window_step(phase, *old(guard), *old(readiness), event, now).phase,
        next.1 == window_step(phase, *old(guard), *old(readiness), event, now).action,
        *final(guard) == window_step(phase, *old(guard), *old(readiness), event, now).guard,
        *final(readiness) == window_step(phase, *old(guard), *old(readiness), event, now).readiness,
{
    match (phase, event) {
        (WindowPhase::Idle, WindowEvent::Requested { show }) => {
            if show {
                (WindowPhase::Probing, WindowAction::Probe)
            } else {
                (WindowPhase::Finished(false), WindowAction::StaySilent)
            }
        },
        (WindowPhase::Probing, WindowEvent::Probed { exists, minimized }) => {
            if exists {
                (WindowPhase::Showing, WindowAction::ShowExisting { unminimize: minimized })
            } else {
                begin_build(guard, now)
            }
        },
        (WindowPhase::Showing, WindowEvent::Shown { shown, focused }) => {
            if shown && focused {
                (WindowPhase::Finished(true), WindowAction::Reuse)
            } else {
                (WindowPhase::Discarding, WindowAction::Discard)
            }
        },
        (WindowPhase::Discarding, WindowEvent::Discarded) => begin_build(guard, now),
        (WindowPhase::Building, WindowEvent::Built { ok }) => {
            guard.finish(now);
            if ok {
                crate::readiness::update_ui_ready_stage(readiness, UiReadyStage::NotStarted);
                (WindowPhase::Finished(true), WindowAction::FollowUp)
            } else {
                (WindowPhase::Finished(false), WindowAction::ReportFailure)
            }
        },
        _ => (phase, WindowAction::Ignore),
    }
}

/// The state of a window request after the events of `events` were fed to it
/// in order, each with the time at which it was observed.
pub open spec fn window_run(start: WindowStep, events: Seq<(WindowEvent, Millis)>) -> WindowStep
    decreases events.len(),
{
    if events.len() == 0 {
        start
    } else {
        let before = window_run(start, events.drop_last());
        window_step(before.phase, before.guard, before.readiness, events.last().0, events.last().1)
    }
}

/// A request that has not begun, over the given shared state.
pub open spec fn window_idle(guard: WindowCreationState, readiness: ReadinessState) -> WindowStep {
    WindowStep { phase: WindowPhase::Idle, guard, readiness, action: WindowAction::Ignore }
}

/// When the build returns, with a window or with an error, the guard is
/// released and the request is over with that result.
pub proof fn build_attempt_releases_guard(
    guard: WindowCreationState,
    readiness: ReadinessState,
    ok: bool,
    now: Millis,
)
    ensures
        window_step(WindowPhase::Building, guard, readiness, WindowEvent::Built { ok }, now).guard
            == WindowCreationState::released(now),
        window_step(WindowPhase::Building, guard, readiness, WindowEvent::Built { ok }, now).phase
            == WindowPhase::Finished(ok),
{
}

/// Over a guard that was free at the start, whatever events arrive and in
/// whatever order, the guard is marked in progress exactly while the request
/// is in its building phase: no finished request leaves it set.
pub proof fn guard_is_held_only_while_building(
    guard: WindowCreationState,
    readiness: ReadinessState,
    events: Seq<(WindowEvent, Millis)>,
)
    requires
        !guard.in_progress,
    ensures
        window_run(window_idle(guard, readiness), events).guard.in_progress <==> window_run(
            window_idle(guard, readiness),
            events,
        ).phase == WindowPhase::Building,
    decreases events.len(),
{
    if events.len() > 0 {
        guard_is_held_only_while_building(guard, readiness, events.drop_last());
    }
}

/// A request within the exclusion window of an unfinished build is refused
/// and returns false; the guard is not touched.
pub proof fn concurrent_request_is_refused(
    guard: WindowCreationState,
    readiness: ReadinessState,
    now: Millis,
)
    requires
        guard.blocks(now),
    ensures
        window_step(
            WindowPhase::Probing,
            guard,
            readiness,
            WindowEvent::Probed { exists: false, minimized: false },
            now,
        ).phase == WindowPhase::Finished(false),
        window_step(
            WindowPhase::Probing,
            guard,
            readiness,
            WindowEvent::Probed { exists: false, minimized: false },
            now,
        ).guard == guard,
        window_step(WindowPhase::Discarding, guard, readiness, WindowEvent::Discarded, now).phase
            == WindowPhase::Finished(false),
        window_step(WindowPhase::Discarding, guard, readiness, WindowEvent::Discarded, now).guard == guard,
{
}

/// A silent request builds nothing: it ends at once with false and leaves the
/// guard and the readiness state alone.
pub proof fn silent_request_builds_nothing(
    guard: WindowCreationState,
    readiness: ReadinessState,
    now: Millis,
)
    ensures
        window_step(WindowPhase::Idle, guard, readiness, WindowEvent::Requested { show: false }, now).phase
            == WindowPhase::Finished(false),
        window_step(WindowPhase::Idle, guard, readiness, WindowEvent::Requested { show: false }, now).action
            == WindowAction::StaySilent,
        window_step(WindowPhase::Idle, guard, readiness, WindowEvent::Requested { show: false }, now).guard
            == guard,
        window_step(
            WindowPhase::Idle,
            guard,
            readiness,
            WindowEvent::Requested { show: false },
            now,
        ).readiness == readiness,
{
}

/// Two requests that share the guard and the readiness state, with the time
/// at which each was told to build.
pub struct RequestPair {
    pub first: WindowPhase,
    pub second: WindowPhase,
    pub guard: WindowCreationState,
    pub readiness: ReadinessState,
    pub first_began: Millis,
    pub second_began: Millis,
}

/// Two requests that have not begun.
pub open spec fn pair_idle(guard: WindowCreationState, readiness: ReadinessState) -> RequestPair {
    RequestPair {
        first: WindowPhase::Idle,
        second: WindowPhase::Idle,
        guard,
        readiness,
        first_began: 0,
        second_began: 0,
    }
}

/// The pair after `event`, observed at `now`, went to the first request
/// (`to_first`) or to the second.
pub open spec fn pair_step(pair: RequestPair, to_first: bool, event: WindowEvent, now: Millis) -> RequestPair {
    if to_first {
        let step = window_step(pair.first, pair.guard, pair.readiness, event, now);
        RequestPair {
            first: step.phase,
            guard: step.guard,
            readiness: step.readiness,
            first_began: if step.action == WindowAction::Build { now } else { pair.first_began },
            ..pair
        }
    } else {
        let step = window_step(pair.second, pair.guard, pair.readiness, event, now);
        RequestPair {
            second: step.phase,
            guard: step.guard,
            readiness: step.readiness,
            second_began: if step.action == WindowAction::Build { now } else { pair.second_began },
            ..pair
        }
    }
}

/// The pair after the events of `events`, each with the request it went to
/// and the time at which it was observed, interleaved in any way.
pub open spec fn pair_run(start: RequestPair, events: Seq<(bool, WindowEvent, Millis)>) -> RequestPair
    decreases events.len(),
{
    if events.len() == 0 {
        start
    } else {
        pair_step(pair_run(start, events.drop_last()), events.last().0, events.last().1, events.last().2)
    }
}

/// Whether the events of `events` are observed at times that never go
/// backwards.
pub open spec fn in_time_order(events: Seq<(bool, WindowEvent, Millis)>) -> bool {
    forall|i: int, j: int| 0 <= i <= j < events.len() ==> events[i].2 <= events[j].2
}

spec fn not_yet_building(phase: WindowPhase) -> bool {
    !(phase is Building) && !(phase is Finished)
}

spec fn pair_invariant(pair: RequestPair, latest: Millis) -> bool {
    &&& pair.first is Building ==> pair.first_began <= latest
    &&& pair.second is Building ==> pair.second_began <= latest
    &&& not_yet_building(pair.first) && !(pair.second is Building) ==> !pair.guard.in_progress
    &&& not_yet_building(pair.second) && !(pair.first is Building) ==> !pair.guard.in_progress
    &&& pair.first is Building && not_yet_building(pair.second) ==> pair.guard
        == WindowCreationState::held(pair.first_began)
    &&& pair.second is Building && not_yet_building(pair.first) ==> pair.guard
        == WindowCreationState::held(pair.second_began)
    &&& pair.first is Building && pair.second is Building ==> builds_apart(pair)
}

/// Whether the two builds of `pair` began at least `BUILD_EXCLUSION_MS`
/// apart.
pub open spec fn builds_apart(pair: RequestPair) -> bool {
    pair.first_began + BUILD_EXCLUSION_MS <= pair.second_began || pair.second_began + BUILD_EXCLUSION_MS
        <= pair.first_began
}

proof fn pair_keeps_invariant(
    guard: WindowCreationState,
    readiness: ReadinessState,
    events: Seq<(bool, WindowEvent, Millis)>,
)
    requires
        !guard.in_progress,
        in_time_order(events),
    ensures
        pair_invariant(
            pair_run(pair_idle(guard, readiness), events),
            if events.len() == 0 {
                0
            } else {
                events.last().2
            },
        ),
    decreases events.len(),
{
    if events.len() > 0 {
        let earlier = events.drop_last();
        assert(in_time_order(earlier)) by {
            assert forall|i: int, j: int| 0 <= i <= j < earlier.len() implies earlier[i].2 <= earlier[j].2 by {
                assert(earlier[i] == events[i] && earlier[j] == events[j]);
            }
        }
        pair_keeps_invariant(guard, readiness, earlier);
        if earlier.len() > 0 {
            assert(earlier.last() == events[events.len() - 2]);
            assert(earlier.last().2 <= events.last().2);
        }
    }
}

/// Of two concurrent requests over a guard that was free, with events
/// interleaved in any way on a clock that does not run backwards: both are
/// building at the same instant only if the later build began two seconds or
/// more after the earlier one, that is, only over a flag that had gone
/// stale. Within two seconds of a build's start, it is the only one.
pub proof fn concurrent_builds_are_excluded(
    guard: WindowCreationState,
    readiness: ReadinessState,
    events: Seq<(bool, WindowEvent, Millis)>,
)
    requires
        !guard.in_progress,
        in_time_order(events),
    ensures
        pair_run(pair_idle(guard, readiness), events).first is Building && pair_run(
            pair_idle(guard, readiness),
            events,
        ).second is Building ==> builds_apart(pair_run(pair_idle(guard, readiness), events)),
{
    pair_keeps_invariant(guard, readiness, events);
}

/// An upper bound on the number of events that a request in `phase` still
/// consumes.
pub open spec fn window_events_left(phase: WindowPhase) -> nat {
    match phase {
        WindowPhase::Idle => 5,
        WindowPhase::Probing => 4,
        WindowPhase::Showing => 3,
        WindowPhase::Discarding => 2,
        WindowPhase::Building => 1,
        WindowPhase::Finished(_) => 0,
    }
}

/// Every event that a request does not ignore brings it nearer to its end,
/// and an ignored event changes nothing: a request is over after at most
/// five events, and nothing is retried.
pub proof fn window_request_ends(
    phase: WindowPhase,
    guard: WindowCreationState,
    readiness: ReadinessState,
    event: WindowEvent,
    now: Millis,
)
    ensures
        window_step(phase, guard, readiness, event, now).action != WindowAction::Ignore
            ==> window_events_left(window_step(phase, guard, readiness, event, now).phase)
            < window_events_left(phase),
        window_step(phase, guard, readiness, event, now).action == WindowAction::Ignore ==> {
            &&& window_step(phase, guard, readiness, event, now).phase == phase
            &&& window_step(phase, guard, readiness, event, now).guard == guard
            &&& window_step(phase, guard, readiness, event, now).readiness == readiness
        },
{
}

/// A request returns true only when the existing window was shown and
/// focused or a new one was built, and false only when it stayed silent, was
/// refused by the guard, or its build failed. A build is asked for only with
/// the guard taken.
pub proof fn request_result_tells_visibility(
    phase: WindowPhase,
    guard: WindowCreationState,
    readiness: ReadinessState,
    event: WindowEvent,
    now: Millis,
)
    requires
        !(phase is Finished),
    ensures
        window_step(phase, guard, readiness, event, now).phase == WindowPhase::Finished(true) <==> (
        window_step(phase, guard, readiness, event, now).action == WindowAction::Reuse || window_step(
            phase,
            guard,
            readiness,
            event,
            now,
        ).action == WindowAction::FollowUp),
        window_step(phase, guard, readiness, event, now).phase == WindowPhase::Finished(false) <==> (
        window_step(phase, guard, readiness, event, now).action == WindowAction::StaySilent
            || window_step(phase, guard, readiness, event, now).action == WindowAction::Refuse
            || window_step(phase, guard, readiness, event, now).action == WindowAction::ReportFailure),
        window_step(phase, guard, readiness, event, now).action == WindowAction::Build ==> {
            &&& window_step(phase, guard, readiness, event, now).phase == WindowPhase::Building
            &&& window_step(phase, guard, readiness, event, now).guard == WindowCreationState::held(now)
            &&& !guard.blocks(now)
        },
{
}

/// How the main window is built.
#[derive(Debug, Clone, Copy, PartialEq, Eq)]
pub struct WindowSpec {
    pub label: &'static str,
    pub title: &'static str,
    pub width: u32,
    pub height: u32,
    pub min_width: u32,
    pub min_height: u32,
    pub centered: bool,
    pub decorated: bool,
    pub fullscreen: bool,
    pub visible: bool,
}

/// The main window: fixed default and minimum sizes, centered, decorated,
/// not full screen, and visible from the start.
pub fn main_window_spec() -> (spec: WindowSpec)
    ensures
        spec.label@ == "main"@,
        spec.title@ == "OutClash"@,
        spec.width == 940 && spec.height == 700,
        spec.min_width == 1000 && spec.min_height == 800,
        spec.centered && spec.decorated && !spec.fullscreen && spec.visible,
{
    WindowSpec {
        label: "main",
        title: "OutClash",
        width: 940,
        height: 700,
        min_width: 1000,
        min_height: 800,
        centered: true,
        decorated: true,
        fullscreen: false,
        visible: true,
    }
}

/// What follows a successful build, in order.
#[derive(Debug, Clone, Copy, PartialEq, Eq, Structural)]
pub enum FollowUpStep {
    /// Record that backend startup completed.
    MarkStartupCompleted,
    /// Run the one-time check for entering the lightweight mode.
    CheckAutoLightweight,
    /// Tell the frontend that startup completed.
    NotifyStartupCompleted,
    /// Show and focus the new window.
    ShowAndFocus,
    /// Watch for the frontend's readiness, with a timeout.
    MonitorReadiness,
}

/// The follow-up steps in the order in which they run.
pub open spec fn follow_up_sequence() -> Seq<FollowUpStep> {
    seq![
        FollowUpStep::MarkStartupCompleted,
        FollowUpStep::CheckAutoLightweight,
        FollowUpStep::NotifyStartupCompleted,
        FollowUpStep::ShowAndFocus,
        FollowUpStep::MonitorReadiness,
    ]
}

/// The steps to run after `WindowAction::FollowUp`, in order.
pub fn follow_up_plan() -> (plan: Vec<FollowUpStep>)
    ensures
        plan@ == follow_up_sequence(),
{
    let mut plan: Vec<FollowUpStep> = Vec::new();
    plan.push(FollowUpStep::MarkStartupCompleted);
    plan.push(FollowUpStep::CheckAutoLightweight);
    plan.push(FollowUpStep::NotifyStartupCompleted);
    plan.push(FollowUpStep::ShowAndFocus);
    plan.push(FollowUpStep::MonitorReadiness);
    plan
}

} // verus!
