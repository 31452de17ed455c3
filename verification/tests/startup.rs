use outclash_lifecycle::startup::{
    after_port_save, find_unused_port, first_startup_step, fixed_port, resolve_setup_async,
    resolve_random_port_config, startup_shows_window, startup_was_slow, wants_random_port, PortError,
    PortPersistence, PortProbe, PortStore, StartupAdvance, StartupStep, VersionInfo,
};

const ORDER: [StartupStep; 17] = [
    StartupStep::CaptureVersion,
    StartupStep::RegisterUrlScheme,
    StartupStep::RunStartupScript,
    StartupStep::ResolvePort,
    StartupStep::InitConfig,
    StartupStep::CleanProfiles,
    StartupStep::InitCore,
    StartupStep::StartServer,
    StartupStep::InitTray,
    StartupStep::CreateTrayIcon,
    StartupStep::UpdateSystemProxy,
    StartupStep::GuardSystemProxy,
    StartupStep::CreateWindow,
    StartupStep::InitTimer,
    StartupStep::AutoLightweight,
    StartupStep::RefreshTray,
    StartupStep::InitHotkeys,
];

#[test]
fn startup_steps_follow_the_order() {
    let mut step = first_startup_step();
    let mut seen = vec![step];
    while let Some(next) = resolve_setup_async(step, true).next {
        seen.push(next);
        step = next;
    }
    assert_eq!(seen, ORDER.to_vec());
}

#[test]
fn failed_step_is_logged_and_startup_continues() {
    for (i, step) in ORDER.iter().enumerate() {
        let ok = resolve_setup_async(*step, true);
        let failed = resolve_setup_async(*step, false);
        assert!(!ok.log_failure);
        assert!(failed.log_failure);
        assert_eq!(ok.next, failed.next);
        assert_eq!(ok.next, ORDER.get(i + 1).copied());
    }
    assert_eq!(
        resolve_setup_async(StartupStep::InitHotkeys, false),
        StartupAdvance { log_failure: true, next: None }
    );
}

#[test]
fn version_is_captured_once() {
    let mut info = VersionInfo::new();
    assert!(info.capture("1.2.3".to_string()));
    assert!(!info.capture("9.9.9".to_string()));
    assert_eq!(info.version.as_deref(), Some("1.2.3"));
}

#[test]
fn window_is_shown_unless_silent_start() {
    assert!(startup_shows_window(None));
    assert!(startup_shows_window(Some(false)));
    assert!(!startup_shows_window(Some(true)));
}

#[test]
fn slow_startup_is_more_than_ten_seconds() {
    assert!(!startup_was_slow(0));
    assert!(!startup_was_slow(10_000));
    assert!(startup_was_slow(10_001));
}

#[test]
fn fixed_port_prefers_application_settings() {
    assert_eq!(fixed_port(Some(7897), 7890), 7897);
    assert_eq!(fixed_port(None, 7890), 7890);
}

#[test]
fn unused_port_from_probe() {
    assert_eq!(find_unused_port(PortProbe::Bound(40123), Some(7897), 7890), Ok(40123));
    assert_eq!(find_unused_port(PortProbe::BindFailed, Some(7897), 7890), Ok(7897));
    assert_eq!(find_unused_port(PortProbe::BindFailed, None, 7890), Ok(7890));
    assert_eq!(find_unused_port(PortProbe::AddressUnknown, Some(7897), 7890), Err(PortError::AddressUnknown));
}

#[test]
fn random_port_only_when_enabled() {
    assert!(wants_random_port(Some(true)));
    assert!(!wants_random_port(Some(false)));
    assert!(!wants_random_port(None));
    assert_eq!(resolve_random_port_config(Some(Ok(40123)), Some(7897), 7890), 40123);
    assert_eq!(resolve_random_port_config(Some(Err(PortError::AddressUnknown)), Some(7897), 7890), 7897);
    assert_eq!(resolve_random_port_config(Some(Err(PortError::AddressUnknown)), None, 7890), 7890);
    assert_eq!(resolve_random_port_config(None, Some(7897), 7890), 7897);
    assert_eq!(resolve_random_port_config(None, None, 7890), 7890);
}

#[test]
fn port_is_saved_to_settings_then_engine() {
    assert_eq!(after_port_save(PortStore::AppSettings, true), PortPersistence::Save(PortStore::EngineConfig));
    assert_eq!(after_port_save(PortStore::EngineConfig, true), PortPersistence::Saved);
    assert_eq!(after_port_save(PortStore::AppSettings, false), PortPersistence::Failed(PortStore::AppSettings));
    assert_eq!(after_port_save(PortStore::EngineConfig, false), PortPersistence::Failed(PortStore::EngineConfig));
}
