//! The startup orchestrator: a fixed order of initialization steps, none of
//! which can stop the others, and the small choices made along the way.

use vstd::prelude::*;
use crate::text::text_of;

verus! {

/// The initialization steps.
#[derive(Debug, Clone, Copy, PartialEq, Eq, Structural)]
pub enum StartupStep {
    CaptureVersion,
    RegisterUrlScheme,
    RunStartupScript,
    ResolvePort,
    InitConfig,
    CleanProfiles,
    InitCore,
    StartServer,
    InitTray,
    CreateTrayIcon,
    UpdateSystemProxy,
    GuardSystemProxy,
    CreateWindow,
    InitTimer,
    AutoLightweight,
    RefreshTray,
    InitHotkeys,
}

/// The steps in the order in which they run.
pub open spec fn startup_sequence() -> Seq<StartupStep> {
    seq![
        StartupStep::CaptureVersion,
        StartupStep::RegisterUrlScheme,
        StartupStep::RunStartupScript,
        StartupStep::ResolvePort,
        StartupStep::InitConfig,
        StartupStep::CleanProfiles,
        StartupStep::InitCore,
        StartupStep::StartServer,
        StartupStep::InitTray,
        StartupStep::CreateTrayIcon,
        StartupStep::UpdateSystemProxy,
        StartupStep::GuardSystemProxy,
        StartupStep::CreateWindow,
        StartupStep::InitTimer,
        StartupStep::AutoLightweight,
        StartupStep::RefreshTray,
        StartupStep::InitHotkeys,
    ]
}

/// The place of `step` in the order, counted from zero.
pub open spec fn startup_position(step: StartupStep) -> int {
    match step {
        StartupStep::CaptureVersion => 0,
        StartupStep::RegisterUrlScheme => 1,
        StartupStep::RunStartupScript => 2,
        StartupStep::ResolvePort => 3,
        StartupStep::InitConfig => 4,
        StartupStep::CleanProfiles => 5,
        StartupStep::InitCore => 6,
        StartupStep::StartServer => 7,
        StartupStep::InitTray => 8,
        StartupStep::CreateTrayIcon => 9,
        StartupStep::UpdateSystemProxy => 10,
        StartupStep::GuardSystemProxy => 11,
        StartupStep::CreateWindow => 12,
        StartupStep::InitTimer => 13,
        StartupStep::AutoLightweight => 14,
        StartupStep::RefreshTray => 15,
        StartupStep::InitHotkeys => 16,
    }
}

/// What follows a step: whether its failure is to be logged, and the step
/// that runs next, if any.
#[derive(Debug, Clone, Copy, PartialEq, Eq, Structural)]
pub struct StartupAdvance {
    pub log_failure: bool,
    pub next: Option<StartupStep>,
}

/// The step with which startup begins.
pub fn first_startup_step() -> (step: StartupStep)
    ensures
        step == startup_sequence()[0],
{
    StartupStep::CaptureVersion
}

/// Decides what follows `step`, which succeeded or failed. A failure is
/// logged and changes nothing else: the next step is the next in order,
/// and the sequence ends only after its last step.
pub fn resolve_setup_async(step: StartupStep, succeeded: bool) -> (advance: StartupAdvance)
    ensures
        advance.log_failure == !succeeded,
        advance.next == (if startup_position(step) + 1 < startup_sequence().len() {
            Some(startup_sequence()[startup_position(step) + 1])
        } else {
            None
        }),
{
    let next = match step {
        StartupStep::CaptureVersion => Some(StartupStep::RegisterUrlScheme),
        StartupStep::RegisterUrlScheme => Some(StartupStep::RunStartupScript),
        StartupStep::RunStartupScript => Some(StartupStep::ResolvePort),
        StartupStep::ResolvePort => Some(StartupStep::InitConfig),
        StartupStep::InitConfig => Some(StartupStep::CleanProfiles),
        StartupStep::CleanProfiles => Some(StartupStep::InitCore),
        StartupStep::InitCore => Some(StartupStep::StartServer),
        StartupStep::StartServer => Some(StartupStep::InitTray),
        StartupStep::InitTray => Some(StartupStep::CreateTrayIcon),
        StartupStep::CreateTrayIcon => Some(StartupStep::UpdateSystemProxy),
        StartupStep::UpdateSystemProxy => Some(StartupStep::GuardSystemProxy),
        StartupStep::GuardSystemProxy => Some(StartupStep::CreateWindow),
        StartupStep::CreateWindow => Some(StartupStep::InitTimer),
        StartupStep::InitTimer => Some(StartupStep::AutoLightweight),
        StartupStep::AutoLightweight => Some(StartupStep::RefreshTray),
        StartupStep::RefreshTray => Some(StartupStep::InitHotkeys),
        StartupStep::InitHotkeys => None,
    };
    StartupAdvance { log_failure: !succeeded, next }
}

/// Every step has its own place in the sequence, and the sequence holds
/// nothing else.
pub proof fn every_step_runs_once(step: StartupStep)
    ensures
        0 <= startup_position(step) < startup_sequence().len(),
        startup_sequence()[startup_position(step)] == step,
        startup_sequence().len() == 17,
        forall|i: int|
            0 <= i < startup_sequence().len() ==> startup_position(#[trigger] startup_sequence()[i]) == i,
{
}

/// The version string, captured once.
#[derive(Debug, Clone, PartialEq, Eq)]
pub struct VersionInfo {
    pub version: Option<String>,
}

impl View for VersionInfo {
    type V = Option<Seq<char>>;

    open spec fn view(&self) -> Option<Seq<char>> {
        text_of(self.version)
    }
}

impl VersionInfo {
    pub fn new() -> (info: VersionInfo)
        ensures
            info@ is None,
    {
        VersionInfo { version: None }
    }

    /// Records `version` unless one is recorded already. Returns whether it
    /// was recorded.
    pub fn capture(&mut self, version: String) -> (captured: bool)
        ensures
            captured == old(self)@.is_none(),
            final(self)@ == (if captured {
                Some(version@)
            } else {
                old(self)@
            }),
    {
        if self.version.is_none() {
            self.version = Some(version);
            true
        } else {
            false
        }
    }
}

/// Whether startup shows the main window: it does unless silent start is
/// switched on.
pub fn startup_shows_window(enable_silent_start: Option<bool>) -> (show: bool)
    ensures
        show == !(enable_silent_start == Some(true)),
{
    match enable_silent_start {
        Some(silent) => !silent,
        None => true,
    }
}

/// Startup that takes longer than this many milliseconds earns a warning.
pub const SLOW_STARTUP_MS: u64 = 10000;

/// Whether startup that took `elapsed_ms` was slow enough to warn about.
pub fn startup_was_slow(elapsed_ms: u64) -> (slow: bool)
    ensures
        slow == (elapsed_ms > SLOW_STARTUP_MS),
{
    elapsed_ms > SLOW_STARTUP_MS
}

/// Why no listening port could be named.
#[derive(Debug, Clone, Copy, PartialEq, Eq, Structural)]
pub enum PortError {
    /// A socket was bound but would not tell its address.
    AddressUnknown,
}

/// What binding a socket to an ephemeral local port came to.
#[derive(Debug, Clone, Copy, PartialEq, Eq, Structural)]
pub enum PortProbe {
    /// Bound, on this port.
    Bound(u16),
    /// Bound, but the local address could not be read.
    AddressUnknown,
    /// Not bound.
    BindFailed,
}

/// The port used where none is picked at random: the one in the
/// application's settings, else the engine's.
pub open spec fn default_port(configured: Option<u16>, engine_port: u16) -> u16 {
    match configured {
        Some(port) => port,
        None => engine_port,
    }
}

/// Computes `default_port`.
pub fn fixed_port(configured: Option<u16>, engine_port: u16) -> (port: u16)
    ensures
        port == default_port(configured, engine_port),
{
    match configured {
        Some(port) => port,
        None => engine_port,
    }
}

/// The unused port that a bind probe yields.
pub open spec fn probed_port(probe: PortProbe, configured: Option<u16>, engine_port: u16) -> Result<
    u16,
    PortError,
> {
    match probe {
        PortProbe::Bound(port) => Ok(port),
        PortProbe::AddressUnknown => Err(PortError::AddressUnknown),
        PortProbe::BindFailed => Ok(default_port(configured, engine_port)),
    }
}

/// Names an unused port from the outcome of a bind probe: the bound port;
/// the default port where nothing could be bound; an error where the bound
/// socket hides its address.
pub fn find_unused_port(probe: PortProbe, configured: Option<u16>, engine_port: u16) -> (found: Result<
    u16,
    PortError,
>)
    ensures
        found == probed_port(probe, configured, engine_port),
{
    match probe {
        PortProbe::Bound(port) => Ok(port),
        PortProbe::AddressUnknown => Err(PortError::AddressUnknown),
        PortProbe::BindFailed => Ok(fixed_port(configured, engine_port)),
    }
}

/// Whether the listening port is to be picked at random.
pub fn wants_random_port(enable_random_port: Option<bool>) -> (random: bool)
    ensures
        random == (enable_random_port == Some(true)),
{
    match enable_random_port {
        Some(random) => random,
        None => false,
    }
}

/// The listening port to persist, given what the search for an unused port
/// came to; `None` stands for no search, as when random ports are off.
pub open spec fn listening_port(
    found: Option<Result<u16, PortError>>,
    configured: Option<u16>,
    engine_port: u16,
) -> u16 {
    match found {
        Some(Ok(port)) => port,
        _ => default_port(configured, engine_port),
    }
}

/// Chooses the listening port: the unused port that was found, and the
/// default port where none was searched for or the search failed.
pub fn resolve_random_port_config(
    found: Option<Result<u16, PortError>>,
    configured: Option<u16>,
    engine_port: u16,
) -> (port: u16)
    ensures
        port == listening_port(found, configured, engine_port),
{
    match found {
        Some(Ok(port)) => port,
        _ => fixed_port(configured, engine_port),
    }
}

/// Where the chosen port is persisted.
#[derive(Debug, Clone, Copy, PartialEq, Eq, Structural)]
pub enum PortStore {
    /// The application's own settings.
    AppSettings,
    /// The proxy engine's configuration.
    EngineConfig,
}

/// What follows an attempt to persist the port.
#[derive(Debug, Clone, Copy, PartialEq, Eq, Structural)]
pub enum PortPersistence {
    /// Persist to this store next.
    Save(PortStore),
    /// Both stores hold the port.
    Saved,
    /// A store did not take the port; the step failed.
    Failed(PortStore),
}

/// Decides what follows an attempt to persist the port to `store`: the
/// application's settings come first, the engine's configuration second, and
/// the first failure ends the step.
pub fn after_port_save(store: PortStore, saved: bool) -> (next: PortPersistence)
    ensures
        next == (if !saved {
            PortPersistence::Failed(store)
        } else if store == PortStore::AppSettings {
            PortPersistence::Save(PortStore::EngineConfig)
        } else {
            PortPersistence::Saved
        }),
{
    if !saved {
        PortPersistence::Failed(store)
    } else {
        match store {
            PortStore::AppSettings => PortPersistence::Save(PortStore::EngineConfig),
            PortStore::EngineConfig => PortPersistence::Saved,
        }
    }
}

} // verus!
