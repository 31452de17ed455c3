//! The deep-link scheduler: after the dedup check, one task per link waits
//! for the application handle, leaves the lightweight mode, makes the window
//! visible and hands the link to the resolver. The waiting is done outside;
//! every decision is taken here, one event at a time.

use vstd::prelude::*;
use crate::clock::Millis;
use crate::deep_link::{
    dedup_key, dedup_key_of, is_duplicate, record_after, take_early_deep_link, DeepLinkDedupRecord,
    EarlyDeepLink, SlotText,
};

verus! {

/// How many times the task looks for the application handle.
pub const HANDLE_POLL_LIMIT: u32 = 100;

/// How many times the task looks whether the lightweight mode has ended.
pub const MODE_POLL_LIMIT: u32 = 150;

/// Pause between two looks, in milliseconds.
pub const POLL_INTERVAL_MS: u64 = 20;

/// Pause that lets the lightweight mode unwind before the window is rebuilt.
pub const MODE_SETTLE_MS: u64 = 200;

/// Pause at the end of a task that lets the frontend's listeners settle.
pub const LISTENER_SETTLE_MS: u64 = 120;

/// What a bounded wait makes of one look at its condition.
#[derive(Debug, Clone, Copy, PartialEq, Eq, Structural)]
pub enum WaitVerdict {
    /// The condition holds: go on.
    Met,
    /// It does not hold yet: pause and look again.
    Retry,
    /// It does not hold and no look is left: pause once more and go on
    /// regardless.
    Exhausted,
}

/// The verdict of a bounded wait of at most `limit` looks, after a look that
/// found the condition met or not, `failed_before` looks having found it
/// unmet.
pub open spec fn wait_verdict(met: bool, failed_before: u32, limit: u32) -> WaitVerdict {
    if met {
        WaitVerdict::Met
    } else if failed_before + 1 < limit {
        WaitVerdict::Retry
    } else {
        WaitVerdict::Exhausted
    }
}

/// Computes `wait_verdict`: the one place where the retry policy of the
/// scheduler's waits is decided.
pub fn wait_until(met: bool, failed_before: u32, limit: u32) -> (verdict: WaitVerdict)
    ensures
        verdict == wait_verdict(met, failed_before, limit),
{
    if met {
        WaitVerdict::Met
    } else if limit > 0 && failed_before < limit - 1 {
        WaitVerdict::Retry
    } else {
        WaitVerdict::Exhausted
    }
}

/// Where a delivery task stands.
#[derive(Debug, Clone, Copy, PartialEq, Eq, Structural)]
pub enum TaskPhase {
    /// Looking for the application handle; `checks` looks found none.
    AwaitingHandle { checks: u32 },
    /// Asking the lightweight mode to end.
    RequestingModeExit,
    /// Looking whether the lightweight mode has ended; `checks` looks found
    /// it active.
    AwaitingModeExit { checks: u32 },
    /// Looking once more at the mode, to decide on the settle pause.
    Settling,
    /// Making the main window visible.
    ShowingWindow,
    /// Making sure the directory for imported profiles exists.
    PreparingDirectory,
    /// The link is with the resolver.
    Resolving,
    /// Over: delivered, or dropped as a duplicate.
    Done,
}

/// What the outside reports to a task.
#[derive(Debug, Clone, Copy, PartialEq, Eq, Structural)]
pub enum TaskEvent {
    HandleChecked { present: bool },
    ModeExitRequested,
    ModeChecked { active: bool },
    WindowShown { visible: bool },
    DirectoryPrepared { ok: bool },
    Resolved { ok: bool },
}

/// What the outside is to do for a task.
#[derive(Debug, Clone, Copy, PartialEq, Eq, Structural)]
pub enum TaskOperation {
    /// Look whether the application handle exists.
    CheckHandle,
    /// Ask the lightweight mode to end.
    RequestModeExit,
    /// Look whether the lightweight mode is active.
    CheckMode,
    /// Make the main window visible.
    ShowWindow,
    /// Create the profiles directory if it is missing.
    PrepareDirectory,
    /// Hand the raw link to the resolver.
    Resolve,
    /// End the task.
    Finish,
    /// Nothing: the link was a duplicate, or the event was not expected.
    Nothing,
}

/// An operation and the pause to make before it.
#[derive(Debug, Clone, Copy, PartialEq, Eq, Structural)]
pub struct TaskAction {
    pub delay_ms: u64,
    pub operation: TaskOperation,
}

/// The operation `operation` with no pause before it.
pub open spec fn at_once(operation: TaskOperation) -> TaskAction {
    TaskAction { delay_ms: 0, operation }
}

/// The operation `operation` after `delay_ms` milliseconds.
pub open spec fn after(delay_ms: u64, operation: TaskOperation) -> TaskAction {
    TaskAction { delay_ms, operation }
}

/// The transition table of a delivery task. `ui_ready` is the readiness flag
/// at the time of the event.
pub open spec fn task_step(phase: TaskPhase, event: TaskEvent, ui_ready: bool) -> (TaskPhase, TaskAction) {
    match (phase, event) {
        (TaskPhase::AwaitingHandle { checks }, TaskEvent::HandleChecked { present }) => match wait_verdict(
            present,
            checks,
            HANDLE_POLL_LIMIT,
        ) {
            WaitVerdict::Met => (TaskPhase::RequestingModeExit, at_once(TaskOperation::RequestModeExit)),
            WaitVerdict::Retry => (
                TaskPhase::AwaitingHandle { checks: (checks + 1) as u32 },
                after(POLL_INTERVAL_MS, TaskOperation::CheckHandle),
            ),
            WaitVerdict::Exhausted => (
                TaskPhase::RequestingModeExit,
                after(POLL_INTERVAL_MS, TaskOperation::RequestModeExit),
            ),
        },
        (TaskPhase::RequestingModeExit, TaskEvent::ModeExitRequested) => (
            TaskPhase::AwaitingModeExit { checks: 0 },
            at_once(TaskOperation::CheckMode),
        ),
        (TaskPhase::AwaitingModeExit { checks }, TaskEvent::ModeChecked { active }) => match wait_verdict(
            !active,
            checks,
            MODE_POLL_LIMIT,
        ) {
            WaitVerdict::Met => (TaskPhase::Settling, at_once(TaskOperation::CheckMode)),
            WaitVerdict::Retry => (
                TaskPhase::AwaitingModeExit { checks: (checks + 1) as u32 },
                after(POLL_INTERVAL_MS, TaskOperation::CheckMode),
            ),
            WaitVerdict::Exhausted => (TaskPhase::Settling, after(POLL_INTERVAL_MS, TaskOperation::CheckMode)),
        },
        (TaskPhase::Settling, TaskEvent::ModeChecked { active }) => (
            TaskPhase::ShowingWindow,
            after(if active { MODE_SETTLE_MS } else { 0 }, TaskOperation::ShowWindow),
        ),
        (TaskPhase::ShowingWindow, TaskEvent::WindowShown { visible }) => (
            TaskPhase::PreparingDirectory,
            at_once(TaskOperation::PrepareDirectory),
        ),
        (TaskPhase::PreparingDirectory, TaskEvent::DirectoryPrepared { ok }) => (
            TaskPhase::Resolving,
            at_once(TaskOperation::Resolve),
        ),
        (TaskPhase::Resolving, TaskEvent::Resolved { ok }) => (
            TaskPhase::Done,
            after(if ui_ready { LISTENER_SETTLE_MS } else { 0 }, TaskOperation::Finish),
        ),
        _ => (phase, at_once(TaskOperation::Nothing)),
    }
}

/// How a task starts for an event with `key` at `now`, given the dedup
/// record: a duplicate is over at once, anything else begins to look for the
/// application handle.
pub open spec fn task_start(record: SlotText, key: Seq<char>, now: Millis) -> (
    TaskPhase,
    TaskAction,
) {
    if is_duplicate(record, key, now) {
        (TaskPhase::Done, at_once(TaskOperation::Nothing))
    } else {
        (TaskPhase::AwaitingHandle { checks: 0 }, at_once(TaskOperation::CheckHandle))
    }
}

/// Runs the dedup check for an event whose key is `key` and starts its task.
pub fn schedule_deep_link_event(record: &mut DeepLinkDedupRecord, key: &str, now: Millis) -> (start: (
    TaskPhase,
    TaskAction,
))
    ensures
        start == task_start(old(record)@, key@, now),
        final(record)@ == record_after(old(record)@, key@, now),
{
    if record.check_in(key, now) {
        (TaskPhase::AwaitingHandle { checks: 0 }, TaskAction { delay_ms: 0, operation: TaskOperation::CheckHandle })
    } else {
        (TaskPhase::Done, TaskAction { delay_ms: 0, operation: TaskOperation::Nothing })
    }
}

/// Schedules delivery of the activation string `url`, received at `now`:
/// computes its dedup key, runs the dedup check and starts the task.
pub fn schedule_handle_deep_link(record: &mut DeepLinkDedupRecord, url: &str, now: Millis) -> (start: (
    TaskPhase,
    TaskAction,
))
    ensures
        start == task_start(old(record)@, dedup_key_of(url@), now),
        final(record)@ == record_after(old(record)@, dedup_key_of(url@), now),
{
    let key = dedup_key(url);
    schedule_deep_link_event(record, key.as_str(), now)
}

/// A link whose task has been started.
#[derive(Debug, Clone, PartialEq, Eq)]
pub struct ScheduledLink {
    pub url: String,
    pub phase: TaskPhase,
    pub action: TaskAction,
}

/// If a link was captured before setup, schedules it now, at `now`: the link
/// leaves the slot for good, passes through the dedup check, and its task
/// starts like that of any other link. With an empty slot nothing happens.
pub fn replay_early_deep_link(slot: &mut EarlyDeepLink, record: &mut DeepLinkDedupRecord, now: Millis) -> (replayed:
    Option<ScheduledLink>)
    ensures
        final(slot)@ is None,
        match old(slot)@ {
            Some(url) => {
                &&& replayed matches Some(link)
                &&& link.url@ == url
                &&& (link.phase, link.action) == task_start(old(record)@, dedup_key_of(url), now)
                &&& final(record)@ == record_after(old(record)@, dedup_key_of(url), now)
            },
            None => replayed is None && final(record)@ == old(record)@,
        },
{
    match take_early_deep_link(slot) {
        Some(url) => {
            let start = schedule_handle_deep_link(record, url.as_str(), now);
            Some(ScheduledLink { url, phase: start.0, action: start.1 })
        },
        None => None,
    }
}

/// Takes one step of a delivery task. Follows `task_step` exactly.
pub fn advance_deep_link_task(phase: TaskPhase, event: TaskEvent, ui_ready: bool) -> (next: (
    TaskPhase,
    TaskAction,
))
    ensures
        next == task_step(phase, event, ui_ready),
{
    match (phase, event) {
        (TaskPhase::AwaitingHandle { checks }, TaskEvent::HandleChecked { present }) => {
            match wait_until(present, checks, HANDLE_POLL_LIMIT) {
                WaitVerdict::Met => (
                    TaskPhase::RequestingModeExit,
                    TaskAction { delay_ms: 0, operation: TaskOperation::RequestModeExit },
                ),
                WaitVerdict::Retry => (
                    TaskPhase::AwaitingHandle { checks: checks + 1 },
                    TaskAction { delay_ms: POLL_INTERVAL_MS, operation: TaskOperation::CheckHandle },
                ),
                WaitVerdict::Exhausted => (
                    TaskPhase::RequestingModeExit,
                    TaskAction { delay_ms: POLL_INTERVAL_MS, operation: TaskOperation::RequestModeExit },
                ),
            }
        },
        (TaskPhase::RequestingModeExit, TaskEvent::ModeExitRequested) => (
            TaskPhase::AwaitingModeExit { checks: 0 },
            TaskAction { delay_ms: 0, operation: TaskOperation::CheckMode },
        ),
        (TaskPhase::AwaitingModeExit { checks }, TaskEvent::ModeChecked { active }) => {
            match wait_until(!active, checks, MODE_POLL_LIMIT) {
                WaitVerdict::Met => (
                    TaskPhase::Settling,
                    TaskAction { delay_ms: 0, operation: TaskOperation::CheckMode },
                ),
                WaitVerdict::Retry => (
                    TaskPhase::AwaitingModeExit { checks: checks + 1 },
                    TaskAction { delay_ms: POLL_INTERVAL_MS, operation: TaskOperation::CheckMode },
                ),
                WaitVerdict::Exhausted => (
                    TaskPhase::Settling,
                    TaskAction { delay_ms: POLL_INTERVAL_MS, operation: TaskOperation::CheckMode },
                ),
            }
        },
        (TaskPhase::Settling, TaskEvent::ModeChecked { active }) => {
            let delay_ms: u64 = if active { MODE_SETTLE_MS } else { 0 };
            (TaskPhase::ShowingWindow, TaskAction { delay_ms, operation: TaskOperation::ShowWindow })
        },
        (TaskPhase::ShowingWindow, TaskEvent::WindowShown { visible: _ }) => (
            TaskPhase::PreparingDirectory,
            TaskAction { delay_ms: 0, operation: TaskOperation::PrepareDirectory },
        ),
        (TaskPhase::PreparingDirectory, TaskEvent::DirectoryPrepared { ok: _ }) => (
            TaskPhase::Resolving,
            TaskAction { delay_ms: 0, operation: TaskOperation::Resolve },
        ),
        (TaskPhase::Resolving, TaskEvent::Resolved { ok: _ }) => {
            let delay_ms: u64 = if ui_ready { LISTENER_SETTLE_MS } else { 0 };
            (TaskPhase::Done, TaskAction { delay_ms, operation: TaskOperation::Finish })
        },
        _ => (phase, TaskAction { delay_ms: 0, operation: TaskOperation::Nothing }),
    }
}

/// Whether the counters of `phase` are within their limits, as they are in
/// every phase that a task reaches from its start.
pub open spec fn task_phase_valid(phase: TaskPhase) -> bool {
    match phase {
        TaskPhase::AwaitingHandle { checks } => checks < HANDLE_POLL_LIMIT,
        TaskPhase::AwaitingModeExit { checks } => checks < MODE_POLL_LIMIT,
        _ => true,
    }
}

/// An upper bound on the number of events that a task in `phase` still
/// consumes before it is over.
pub open spec fn task_events_left(phase: TaskPhase) -> nat {
    match phase {
        TaskPhase::Done => 0,
        TaskPhase::Resolving => 1,
        TaskPhase::PreparingDirectory => 2,
        TaskPhase::ShowingWindow => 3,
        TaskPhase::Settling => 4,
        TaskPhase::AwaitingModeExit { checks } => (4 + MODE_POLL_LIMIT - checks) as nat,
        TaskPhase::RequestingModeExit => (5 + MODE_POLL_LIMIT) as nat,
        TaskPhase::AwaitingHandle { checks } => (5 + MODE_POLL_LIMIT + HANDLE_POLL_LIMIT - checks) as nat,
    }
}

/// An upper bound on the time that a task in `phase` still spends pausing,
/// in milliseconds.
pub open spec fn task_pause_left(phase: TaskPhase) -> nat {
    match phase {
        TaskPhase::Done => 0,
        TaskPhase::Resolving | TaskPhase::PreparingDirectory | TaskPhase::ShowingWindow => 120,
        TaskPhase::Settling => 320,
        TaskPhase::AwaitingModeExit { checks } => (320 + POLL_INTERVAL_MS * (MODE_POLL_LIMIT - checks)) as nat,
        TaskPhase::RequestingModeExit => 3320,
        TaskPhase::AwaitingHandle { checks } => (3320 + POLL_INTERVAL_MS * (HANDLE_POLL_LIMIT - checks)) as nat,
    }
}

/// Every event that a task does not ignore brings it strictly nearer to its
/// end and keeps its counters within their limits: a task is over after at
/// most 255 events, however the handle, the mode and the window behave.
pub proof fn task_makes_progress(phase: TaskPhase, event: TaskEvent, ui_ready: bool)
    requires
        task_phase_valid(phase),
    ensures
        task_phase_valid(task_step(phase, event, ui_ready).0),
        task_step(phase, event, ui_ready).1.operation != TaskOperation::Nothing ==> task_events_left(
            task_step(phase, event, ui_ready).0,
        ) < task_events_left(phase),
        task_step(phase, event, ui_ready).1.operation == TaskOperation::Nothing ==> task_step(
            phase,
            event,
            ui_ready,
        ).0 == phase,
        task_events_left(TaskPhase::AwaitingHandle { checks: 0 }) == 255,
{
}

/// The pauses of a task are bounded: each step's pause and what may follow
/// it fit in what was left before, and a whole task pauses for at most 5320
/// milliseconds.
pub proof fn task_pauses_are_bounded(phase: TaskPhase, event: TaskEvent, ui_ready: bool)
    requires
        task_phase_valid(phase),
    ensures
        task_step(phase, event, ui_ready).1.delay_ms + task_pause_left(task_step(phase, event, ui_ready).0)
            <= task_pause_left(phase),
        task_pause_left(TaskPhase::AwaitingHandle { checks: 0 }) == 5320,
{
}

/// The link reaches the resolver on one transition only, the one that leaves
/// `PreparingDirectory`, and a task ends only by leaving `Resolving`: no
/// outcome of an earlier step keeps the link from the resolver, and none
/// delivers it twice.
pub proof fn delivery_is_the_only_way_to_the_end(phase: TaskPhase, event: TaskEvent, ui_ready: bool)
    ensures
        task_step(phase, event, ui_ready).1.operation == TaskOperation::Resolve <==> (phase
            == TaskPhase::PreparingDirectory && event is DirectoryPrepared),
        task_step(phase, event, ui_ready).0 == TaskPhase::Resolving ==> phase == TaskPhase::Resolving
            || task_step(phase, event, ui_ready).1.operation == TaskOperation::Resolve,
        task_step(phase, event, ui_ready).0 == TaskPhase::Done ==> phase == TaskPhase::Done || phase
            == TaskPhase::Resolving,
{
}

/// A duplicate never reaches the resolver: its task starts in `Done`, and a
/// task in `Done` ignores every event.
pub proof fn duplicate_is_never_delivered(
    record: SlotText,
    key: Seq<char>,
    now: Millis,
    event: TaskEvent,
    ui_ready: bool,
)
    requires
        is_duplicate(record, key, now),
    ensures
        task_start(record, key, now).0 == TaskPhase::Done,
        task_start(record, key, now).1.operation == TaskOperation::Nothing,
        task_step(TaskPhase::Done, event, ui_ready) == (TaskPhase::Done, at_once(TaskOperation::Nothing)),
        record_after(record, key, now) == record,
{
}

/// The phase of a task that began in `start` after the events of `events`,
/// each paired with the readiness flag at its time.
pub open spec fn task_run(start: TaskPhase, events: Seq<(TaskEvent, bool)>) -> TaskPhase
    decreases events.len(),
{
    if events.len() == 0 {
        start
    } else {
        task_step(task_run(start, events.drop_last()), events.last().0, events.last().1).0
    }
}

/// How many times a task that began in `start` handed its link to the
/// resolver over the events of `events`.
pub open spec fn deliveries(start: TaskPhase, events: Seq<(TaskEvent, bool)>) -> nat
    decreases events.len(),
{
    if events.len() == 0 {
        0
    } else {
        let before = task_run(start, events.drop_last());
        let handed = task_step(before, events.last().0, events.last().1).1.operation
            == TaskOperation::Resolve;
        deliveries(start, events.drop_last()) + if handed { 1nat } else { 0nat }
    }
}

/// Whatever events arrive and in whatever order: a task that was scheduled
/// has handed its link to the resolver exactly once when it is with the
/// resolver or over, and not before; the task of a duplicate never hands
/// anything over.
pub proof fn link_is_delivered_exactly_once(events: Seq<(TaskEvent, bool)>)
    ensures
        deliveries(TaskPhase::AwaitingHandle { checks: 0 }, events) == (if task_run(
            TaskPhase::AwaitingHandle { checks: 0 },
            events,
        ) == TaskPhase::Resolving || task_run(TaskPhase::AwaitingHandle { checks: 0 }, events)
            == TaskPhase::Done {
            1nat
        } else {
            0nat
        }),
        deliveries(TaskPhase::Done, events) == 0,
        task_run(TaskPhase::Done, events) == TaskPhase::Done,
    decreases events.len(),
{
    if events.len() > 0 {
        link_is_delivered_exactly_once(events.drop_last());
    }
}

} // verus!
