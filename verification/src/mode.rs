//! Engine mode changes and the delay test: what to patch, what to refresh,
//! which connections to close, and how a delay probe is read.

use vstd::prelude::*;

verus! {

/// A patch of one setting: a key and its new value.
#[derive(Debug, Clone, PartialEq, Eq)]
pub struct SettingPatch {
    pub key: String,
    pub value: String,
}

/// The patch that sets the engine's mode to `mode`, for the live engine and
/// for the stored configuration alike.
pub fn mode_patch(mode: &str) -> (patch: SettingPatch)
    ensures
        patch.key@ == "mode"@,
        patch.value@ == mode@,
{
    SettingPatch { key: "mode".to_owned(), value: mode.to_owned() }
}

/// Where a mode change stands.
#[derive(Debug, Clone, Copy, PartialEq, Eq, Structural)]
pub enum ModePhase {
    /// The live engine is being patched.
    Patching,
    /// The stored configuration is being patched and saved.
    Saving,
    /// Nothing more is decided here.
    Over,
}

/// What the outside reports to a mode change.
#[derive(Debug, Clone, Copy, PartialEq, Eq, Structural)]
pub enum ModeEvent {
    /// Whether the live engine took the patch.
    LivePatched { ok: bool },
    /// Whether the stored configuration was saved.
    Saved { ok: bool },
}

/// What the outside is to do for a mode change.
#[derive(Debug, Clone, Copy, PartialEq, Eq, Structural)]
pub enum ModeAction {
    /// Patch the stored configuration and save it.
    StoreMode,
    /// The engine refused the patch: log the error, change nothing.
    LogFailure,
    /// Finish: refresh the frontend and the tray where `refresh` is set, and
    /// close the live connections where `close_connections` is set.
    Complete { refresh: bool, close_connections: bool },
    /// The event was not expected; nothing changes.
    Nothing,
}

/// The transition table of a mode change. `auto_close_connection` is the
/// user's setting at the time of the event.
pub open spec fn mode_step(phase: ModePhase, event: ModeEvent, auto_close_connection: Option<bool>) -> (
    ModePhase,
    ModeAction,
) {
    match (phase, event) {
        (ModePhase::Patching, ModeEvent::LivePatched { ok }) => if ok {
            (ModePhase::Saving, ModeAction::StoreMode)
        } else {
            (ModePhase::Over, ModeAction::LogFailure)
        },
        (ModePhase::Saving, ModeEvent::Saved { ok }) => (
            ModePhase::Over,
            ModeAction::Complete { refresh: ok, close_connections: auto_close_connection == Some(true) },
        ),
        _ => (phase, ModeAction::Nothing),
    }
}

/// Takes one step of a mode change. Follows `mode_step` exactly: the stored
/// configuration is touched only after the live engine took the patch, the
/// views are refreshed only after a successful save, and connections are
/// closed after either save outcome if the user asked for it.
pub fn change_clash_mode(phase: ModePhase, event: ModeEvent, auto_close_connection: Option<bool>) -> (next: (
    ModePhase,
    ModeAction,
))
    ensures
        next == mode_step(phase, event, auto_close_connection),
{
    match (phase, event) {
        (ModePhase::Patching, ModeEvent::LivePatched { ok }) => {
            if ok {
                (ModePhase::Saving, ModeAction::StoreMode)
            } else {
                (ModePhase::Over, ModeAction::LogFailure)
            }
        },
        (ModePhase::Saving, ModeEvent::Saved { ok }) => {
            let close_connections = match auto_close_connection {
                Some(close) => close,
                None => false,
            };
            (ModePhase::Over, ModeAction::Complete { refresh: ok, close_connections })
        },
        _ => (phase, ModeAction::Nothing),
    }
}

/// One entry of the engine's list of live connections: its identifier, where
/// it has one.
#[derive(Debug, Clone, PartialEq, Eq)]
pub struct ConnectionEntry {
    pub id: Option<String>,
}

/// The identifiers of the entries that have one, in the order of the list.
pub open spec fn closable_ids(entries: Seq<ConnectionEntry>) -> Seq<String>
    decreases entries.len(),
{
    if entries.len() == 0 {
        Seq::empty()
    } else {
        match entries.last().id {
            Some(id) => closable_ids(entries.drop_last()).push(id),
            None => closable_ids(entries.drop_last()),
        }
    }
}

/// Lists the connections to close after a mode change: every entry that has
/// an identifier, in order; entries without one are passed over.
pub fn after_change_clash_mode(entries: &Vec<ConnectionEntry>) -> (ids: Vec<String>)
    ensures
        ids@ == closable_ids(entries@),
{
    let n = entries.len();
    let mut ids: Vec<String> = Vec::new();
    let mut i: usize = 0;
    assert(entries@.take(0) =~= Seq::<ConnectionEntry>::empty());
    while i < n
        invariant
            i <= n,
            n == entries.len(),
            ids@ == closable_ids(entries@.take(i as int)),
        decreases n - i,
    {
        assert(entries@.take(i + 1).drop_last() =~= entries@.take(i as int));
        match &entries[i].id {
            Some(id) => {
                ids.push(id.clone());
            },
            None => {},
        }
        i += 1;
    }
    assert(entries@.take(n as int) =~= entries@);
    ids
}

/// Every identifier in the list of connections to close belongs to an entry,
/// and every entry with an identifier is in the list.
pub proof fn closable_ids_are_the_entries_ids(entries: Seq<ConnectionEntry>)
    ensures
        forall|id: String|
            closable_ids(entries).contains(id) <==> exists|i: int|
                0 <= i < entries.len() && (#[trigger] entries[i]).id == Some(id),
        closable_ids(entries).len() <= entries.len(),
    decreases entries.len(),
{
    if entries.len() > 0 {
        let rest = entries.drop_last();
        closable_ids_are_the_entries_ids(rest);
        assert forall|id: String|
            closable_ids(entries).contains(id) <==> exists|i: int|
                0 <= i < entries.len() && (#[trigger] entries[i]).id == Some(id) by {
            let n = entries.len() - 1;
            if closable_ids(entries).contains(id) {
                let k = choose|k: int| 0 <= k < closable_ids(entries).len() && closable_ids(entries)[k] == id;
                if k < closable_ids(rest).len() {
                    assert(closable_ids(rest)[k] == id);
                    assert(closable_ids(rest).contains(id));
                    let i = choose|i: int| 0 <= i < rest.len() && (#[trigger] rest[i]).id == Some(id);
                    assert(entries[i].id == Some(id));
                } else {
                    assert(entries[n].id == Some(id));
                }
            }
            if exists|i: int| 0 <= i < entries.len() && (#[trigger] entries[i]).id == Some(id) {
                let i = choose|i: int| 0 <= i < entries.len() && (#[trigger] entries[i]).id == Some(id);
                if i < n {
                    assert(rest[i].id == Some(id));
                    assert(closable_ids(rest).contains(id));
                    let k = choose|k: int| 0 <= k < closable_ids(rest).len() && closable_ids(rest)[k] == id;
                    assert(closable_ids(entries)[k] == id);
                } else {
                    assert(closable_ids(entries)[closable_ids(rest).len() as int] == id);
                }
            }
        }
    }
}

/// Through what a delay test sends its request.
#[derive(Debug, Clone, Copy, PartialEq, Eq, Structural)]
pub enum ProxyChoice {
    /// Through the application's own local proxy.
    Localhost,
    /// Directly.
    Direct,
}

/// After how many seconds a delay test gives up.
pub const DELAY_PROBE_TIMEOUT_SECS: u64 = 10;

/// The delay reported for an address that answers with an error status.
pub const UNREACHABLE_DELAY_MS: u32 = 10000;

/// Chooses the route of a delay test: direct in TUN mode, where traffic is
/// captured anyway, and through the local proxy otherwise.
pub fn delay_probe_route(enable_tun_mode: Option<bool>) -> (route: ProxyChoice)
    ensures
        route == (if enable_tun_mode == Some(true) {
            ProxyChoice::Direct
        } else {
            ProxyChoice::Localhost
        }),
{
    match enable_tun_mode {
        Some(true) => ProxyChoice::Direct,
        _ => ProxyChoice::Localhost,
    }
}

/// How a delay probe ended.
#[derive(Debug, Clone, PartialEq, Eq)]
pub enum DelayProbe {
    /// An answer came after `elapsed_ms`; `success` tells whether its status
    /// was a success.
    Answered { success: bool, elapsed_ms: u64 },
    /// No answer came; the text says why.
    Failed(String),
}

/// Reads a delay probe: the elapsed milliseconds, cut to 32 bits, for a
/// successful answer; `UNREACHABLE_DELAY_MS` for an answer with an error
/// status; the probe's error where no answer came.
pub fn test_delay(probe: DelayProbe) -> (delay: Result<u32, String>)
    ensures
        match probe {
            DelayProbe::Answered { success, elapsed_ms } => delay == Ok::<u32, String>(
                if success {
                    (elapsed_ms % 0x1_0000_0000) as u32
                } else {
                    UNREACHABLE_DELAY_MS
                },
            ),
            DelayProbe::Failed(reason) => delay == Err::<u32, String>(reason),
        },
{
    match probe {
        DelayProbe::Answered { success, elapsed_ms } => {
            if success {
                Ok((elapsed_ms % 0x1_0000_0000) as u32)
            } else {
                Ok(UNREACHABLE_DELAY_MS)
            }
        },
        DelayProbe::Failed(reason) => Err(reason),
    }
}

} // verus!
