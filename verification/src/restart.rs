//! Restarting: the engine alone, or the whole application after a full
//! cleanup, with a relaunch of the executable where no application handle
//! can restart in process.

use vstd::prelude::*;
use crate::notice::Notice;
use crate::text::text_of;

verus! {

/// What follows an attempt to restart the engine.
#[derive(Debug, Clone, PartialEq, Eq)]
pub struct EngineRestartReport {
    /// Whether the frontend is told to refresh its view of the engine.
    pub refresh_frontend: bool,
    /// The notification to send.
    pub notice: Notice,
    /// The error to log, if any.
    pub log_error: Option<String>,
}

/// Decides what follows an attempt to restart the engine: on success the
/// frontend refreshes and hears `set_config::ok`; on failure it hears
/// `set_config::error` with the error text, which is also logged. Nothing is
/// retried.
pub fn restart_clash_core(restarted: Result<(), String>) -> (report: EngineRestartReport)
    ensures
        match restarted {
            Ok(_) => report.refresh_frontend && report.notice == Notice::SetConfigOk && report.log_error
                is None,
            Err(reason) => !report.refresh_frontend && report.notice is SetConfigError
                && report.notice.text() == reason@ && text_of(report.log_error) == Some(
                reason@,
            ),
        },
{
    match restarted {
        Ok(_) => EngineRestartReport { refresh_frontend: true, notice: Notice::SetConfigOk, log_error: None },
        Err(reason) => EngineRestartReport {
            refresh_frontend: false,
            notice: Notice::SetConfigError(reason.clone()),
            log_error: Some(reason),
        },
    }
}

/// The steps of the full resource cleanup.
#[derive(Debug, Clone, Copy, PartialEq, Eq, Structural)]
pub enum CleanupStep {
    /// Stop listening to live traffic figures.
    UnsubscribeTraffic,
    /// Put the system proxy settings back.
    ResetSystemProxy,
    /// Stop the engine.
    StopCore,
    /// Put the system's DNS settings back.
    RestoreDns,
}

/// The cleanup steps in order; DNS is restored only on a system whose DNS
/// the application changes.
pub open spec fn cleanup_sequence(modifies_dns: bool) -> Seq<CleanupStep> {
    if modifies_dns {
        seq![
            CleanupStep::UnsubscribeTraffic,
            CleanupStep::ResetSystemProxy,
            CleanupStep::StopCore,
            CleanupStep::RestoreDns,
        ]
    } else {
        seq![CleanupStep::UnsubscribeTraffic, CleanupStep::ResetSystemProxy, CleanupStep::StopCore]
    }
}

/// The cleanup steps to run, in order.
pub fn resolve_reset_async(modifies_dns: bool) -> (steps: Vec<CleanupStep>)
    ensures
        steps@ == cleanup_sequence(modifies_dns),
{
    let mut steps: Vec<CleanupStep> = Vec::new();
    steps.push(CleanupStep::UnsubscribeTraffic);
    steps.push(CleanupStep::ResetSystemProxy);
    steps.push(CleanupStep::StopCore);
    if modifies_dns {
        steps.push(CleanupStep::RestoreDns);
    }
    steps
}

/// The error text of the first step in `outcomes` that failed.
pub open spec fn first_failure(outcomes: Seq<Option<String>>) -> Option<Seq<char>>
    decreases outcomes.len(),
{
    if outcomes.len() == 0 {
        None
    } else {
        match outcomes[0] {
            Some(reason) => Some(reason@),
            None => first_failure(outcomes.drop_first()),
        }
    }
}

/// Sums up a cleanup from the outcome of each step, `None` for a step that
/// succeeded and its error text for one that failed: the cleanup succeeded
/// if every step did, and otherwise failed with the first error.
pub fn cleanup_result(outcomes: &Vec<Option<String>>) -> (result: Result<(), String>)
    ensures
        match result {
            Ok(_) => first_failure(outcomes@) is None,
            Err(reason) => first_failure(outcomes@) == Some(reason@),
        },
{
    let n = outcomes.len();
    let mut i: usize = 0;
    assert(outcomes@.skip(0) =~= outcomes@);
    while i < n
        invariant
            i <= n,
            n == outcomes.len(),
            first_failure(outcomes@) == first_failure(outcomes@.skip(i as int)),
        decreases n - i,
    {
        assert(outcomes@.skip(i as int).drop_first() =~= outcomes@.skip(i + 1));
        match &outcomes[i] {
            Some(reason) => {
                return Err(reason.clone());
            },
            None => {},
        }
        i += 1;
    }
    Ok(())
}

/// Where an application restart stands.
#[derive(Debug, Clone, Copy, PartialEq, Eq, Structural)]
pub enum RestartPhase {
    /// The cleanup is running.
    Cleaning,
    /// Looking for the application handle.
    FindingHandle,
    /// Looking for the path of the current executable.
    LocatingExecutable,
    /// Launching a new instance.
    Spawning,
    /// Nothing more is decided here.
    Over,
}

/// What the outside reports to a restart.
#[derive(Debug, Clone, PartialEq, Eq)]
pub enum RestartEvent {
    /// The cleanup went through.
    CleanupSucceeded,
    /// The cleanup failed, with this error text.
    CleanupFailed(String),
    /// Whether an application handle is at hand.
    HandleChecked { present: bool },
    /// Whether the path of the current executable is known.
    ExecutableLocated { found: bool },
    /// Whether the new instance was launched.
    Spawned { ok: bool },
}

/// What the outside is to do for a restart.
#[derive(Debug, Clone, Copy, PartialEq, Eq, Structural)]
pub enum RestartOperation {
    /// Look for the application handle.
    CheckHandle,
    /// Restart in process through the handle.
    RestartInProcess,
    /// Look up the path of the current executable.
    LocateExecutable,
    /// Launch the executable again with the same arguments.
    SpawnInstance,
    /// End the process with this exit code.
    Exit(i32),
    /// Give up the restart and keep running.
    Abandon,
    /// The event was not expected; nothing changes.
    Nothing,
}

/// An operation and the notification to send before it.
#[derive(Debug, Clone, PartialEq, Eq)]
pub struct RestartAction {
    pub notice: Option<Notice>,
    pub operation: RestartOperation,
}

/// The text of the notification for a cleanup that failed with `reason`.
pub open spec fn cleanup_failure_text(reason: Seq<char>) -> Seq<char> {
    "Failed to cleanup resources: "@ + reason
}

/// The phase and the operation that follow `event` in `phase`.
pub open spec fn restart_step(phase: RestartPhase, event: RestartEvent) -> (RestartPhase, RestartOperation) {
    match (phase, event) {
        (RestartPhase::Cleaning, RestartEvent::CleanupSucceeded) => (
            RestartPhase::FindingHandle,
            RestartOperation::CheckHandle,
        ),
        (RestartPhase::Cleaning, RestartEvent::CleanupFailed(_)) => (
            RestartPhase::Over,
            RestartOperation::Abandon,
        ),
        (RestartPhase::FindingHandle, RestartEvent::HandleChecked { present }) => if present {
            (RestartPhase::Over, RestartOperation::RestartInProcess)
        } else {
            (RestartPhase::LocatingExecutable, RestartOperation::LocateExecutable)
        },
        (RestartPhase::LocatingExecutable, RestartEvent::ExecutableLocated { found }) => if found {
            (RestartPhase::Spawning, RestartOperation::SpawnInstance)
        } else {
            (RestartPhase::Over, RestartOperation::Exit(1))
        },
        (RestartPhase::Spawning, RestartEvent::Spawned { ok }) => (
            RestartPhase::Over,
            RestartOperation::Exit(if ok { 0i32 } else { 1i32 }),
        ),
        _ => (phase, RestartOperation::Nothing),
    }
}

/// The notification that goes with `event` in `phase`, as a name and a text.
pub open spec fn restart_notice(phase: RestartPhase, event: RestartEvent) -> Option<(Seq<char>, Seq<char>)> {
    match (phase, event) {
        (RestartPhase::Cleaning, RestartEvent::CleanupFailed(reason)) => Some(
            ("restart_app::error"@, cleanup_failure_text(reason@)),
        ),
        (RestartPhase::FindingHandle, RestartEvent::HandleChecked { present }) => if present {
            Some(("restart_app::info"@, "Restarting application..."@))
        } else {
            Some(("restart_app::error"@, "Failed to get app handle for restart"@))
        },
        _ => None,
    }
}

/// A notification as a name and a text.
pub open spec fn notice_shown(notice: Option<Notice>) -> Option<(Seq<char>, Seq<char>)> {
    match notice {
        Some(n) => Some((n.event_name(), n.text())),
        None => None,
    }
}

/// The phase in which every restart begins: the cleanup has been asked for.
pub fn restart_start() -> (phase: RestartPhase)
    ensures
        phase == RestartPhase::Cleaning,
{
    RestartPhase::Cleaning
}

/// Takes one step of an application restart. Follows `restart_step` and
/// `restart_notice` exactly.
pub fn restart_app(phase: RestartPhase, event: RestartEvent) -> (next: (RestartPhase, RestartAction))
    ensures
        (next.0, next.1.operation) == restart_step(phase, event),
        notice_shown(next.1.notice) == restart_notice(phase, event),
{
    match (phase, event) {
        (RestartPhase::Cleaning, RestartEvent::CleanupSucceeded) => (
            RestartPhase::FindingHandle,
            RestartAction { notice: None, operation: RestartOperation::CheckHandle },
        ),
        (RestartPhase::Cleaning, RestartEvent::CleanupFailed(reason)) => {
            let text = "Failed to cleanup resources: ".to_owned().concat(reason.as_str());
            (
                RestartPhase::Over,
                RestartAction { notice: Some(Notice::RestartAppError(text)), operation: RestartOperation::Abandon },
            )
        },
        (RestartPhase::FindingHandle, RestartEvent::HandleChecked { present }) => {
            if present {
                (
                    RestartPhase::Over,
                    RestartAction {
                        notice: Some(Notice::RestartAppInfo),
                        operation: RestartOperation::RestartInProcess,
                    },
                )
            } else {
                (
                    RestartPhase::LocatingExecutable,
                    RestartAction {
                        notice: Some(
                            Notice::RestartAppError("Failed to get app handle for restart".to_owned()),
                        ),
                        operation: RestartOperation::LocateExecutable,
                    },
                )
            }
        },
        (RestartPhase::LocatingExecutable, RestartEvent::ExecutableLocated { found }) => {
            if found {
                (
                    RestartPhase::Spawning,
                    RestartAction { notice: None, operation: RestartOperation::SpawnInstance },
                )
            } else {
                (RestartPhase::Over, RestartAction { notice: None, operation: RestartOperation::Exit(1) })
            }
        },
        (RestartPhase::Spawning, RestartEvent::Spawned { ok }) => {
            let code: i32 = if ok { 0 } else { 1 };
            (RestartPhase::Over, RestartAction { notice: None, operation: RestartOperation::Exit(code) })
        },
        (phase, _) => (phase, RestartAction { notice: None, operation: RestartOperation::Nothing }),
    }
}

/// The arguments for the new instance: those of this process without the
/// program name.
pub fn relaunch_arguments(args: &Vec<String>) -> (rest: Vec<String>)
    ensures
        rest@ == (if args@.len() > 0 {
            args@.skip(1)
        } else {
            Seq::<String>::empty()
        }),
{
    let n = args.len();
    let mut rest: Vec<String> = Vec::new();
    if n == 0 {
        return rest;
    }
    let mut i: usize = 1;
    while i < n
        invariant
            1 <= i <= n,
            n == args.len(),
            rest@ =~= args@.subrange(1, i as int),
        decreases n - i,
    {
        rest.push(args[i].clone());
        i += 1;
    }
    assert(args@.subrange(1, n as int) =~= args@.skip(1));
    rest
}

/// Whether `operation` restarts the application or ends the process.
pub open spec fn restarts_or_exits(operation: RestartOperation) -> bool {
    operation == RestartOperation::RestartInProcess || operation == RestartOperation::SpawnInstance
        || operation is Exit
}

/// The phase of a restart after the events of `events`, in order.
pub open spec fn restart_run(events: Seq<RestartEvent>) -> RestartPhase
    decreases events.len(),
{
    if events.len() == 0 {
        RestartPhase::Cleaning
    } else {
        restart_step(restart_run(events.drop_last()), events.last()).0
    }
}

/// When the cleanup fails, an error notification goes out and the restart is
/// abandoned; whatever is reported afterwards, nothing restarts the
/// application or ends the process.
pub proof fn failed_cleanup_stops_the_restart(reason: String, later: Seq<RestartEvent>, event: RestartEvent)
    ensures
        restart_step(RestartPhase::Cleaning, RestartEvent::CleanupFailed(reason))
            == (RestartPhase::Over, RestartOperation::Abandon),
        restart_notice(RestartPhase::Cleaning, RestartEvent::CleanupFailed(reason)) == Some(
            ("restart_app::error"@, cleanup_failure_text(reason@)),
        ),
        restart_run(seq![RestartEvent::CleanupFailed(reason)] + later) == RestartPhase::Over,
        !restarts_or_exits(
            restart_step(restart_run(seq![RestartEvent::CleanupFailed(reason)] + later), event).1,
        ),
    decreases later.len(),
{
    let first = seq![RestartEvent::CleanupFailed(reason)];
    if later.len() == 0 {
        assert(first + later =~= first);
        assert(first.drop_last() =~= Seq::<RestartEvent>::empty());
        assert(restart_run(first.drop_last()) == RestartPhase::Cleaning);
    } else {
        failed_cleanup_stops_the_restart(reason, later.drop_last(), event);
        assert((first + later).drop_last() =~= first + later.drop_last());
        assert((first + later).last() == later.last());
    }
}

/// With the cleanup done and no application handle, the executable is
/// launched again and the process exits with 0 if that worked and with 1 if
/// it did not; it exits with 1 as well where the executable's path is
/// unknown.
pub proof fn missing_handle_falls_back_to_relaunch(spawned: bool)
    ensures
        restart_run(
            seq![
                RestartEvent::CleanupSucceeded,
                RestartEvent::HandleChecked { present: false },
                RestartEvent::ExecutableLocated { found: true },
            ],
        ) == RestartPhase::Spawning,
        restart_step(RestartPhase::LocatingExecutable, RestartEvent::ExecutableLocated { found: true }).1
            == RestartOperation::SpawnInstance,
        restart_step(RestartPhase::Spawning, RestartEvent::Spawned { ok: spawned }).1
            == RestartOperation::Exit(if spawned { 0i32 } else { 1i32 }),
        restart_step(RestartPhase::LocatingExecutable, RestartEvent::ExecutableLocated { found: false }).1
            == RestartOperation::Exit(1),
{
    let e1 = RestartEvent::CleanupSucceeded;
    let e2 = RestartEvent::HandleChecked { present: false };
    let e3 = RestartEvent::ExecutableLocated { found: true };
    let s3 = seq![e1, e2, e3];
    let s2 = seq![e1, e2];
    let s1 = seq![e1];
    assert(s3.drop_last() =~= s2);
    assert(s2.drop_last() =~= s1);
    assert(s1.drop_last() =~= Seq::<RestartEvent>::empty());
    assert(restart_run(s1.drop_last()) == RestartPhase::Cleaning);
    assert(restart_run(s1) == RestartPhase::FindingHandle);
    assert(restart_run(s2) == RestartPhase::LocatingExecutable);
}

} // verus!
