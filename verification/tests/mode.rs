use outclash_lifecycle::mode::{
    after_change_clash_mode, change_clash_mode, delay_probe_route, mode_patch, test_delay, ConnectionEntry,
    DelayProbe, ModeAction, ModeEvent, ModePhase, ProxyChoice, SettingPatch, DELAY_PROBE_TIMEOUT_SECS,
    UNREACHABLE_DELAY_MS,
};
use outclash_lifecycle::system::{
    detect_foreground_fullscreen, get_app_uptime, is_admin, AppStartTime, PrivilegeLevel, PrivilegeProbe,
    ScreenRect,
};

fn entry(id: Option<&str>) -> ConnectionEntry {
    ConnectionEntry { id: id.map(|s| s.to_string()) }
}

fn rect(left: i32, top: i32, right: i32, bottom: i32) -> ScreenRect {
    ScreenRect { left, top, right, bottom }
}

#[test]
fn mode_patch_sets_the_mode_key() {
    assert_eq!(mode_patch("global"), SettingPatch { key: "mode".to_string(), value: "global".to_string() });
}

#[test]
fn refused_live_patch_changes_nothing() {
    assert_eq!(
        change_clash_mode(ModePhase::Patching, ModeEvent::LivePatched { ok: false }, Some(true)),
        (ModePhase::Over, ModeAction::LogFailure)
    );
}

#[test]
fn accepted_live_patch_is_stored_then_refreshed() {
    let (phase, action) = change_clash_mode(ModePhase::Patching, ModeEvent::LivePatched { ok: true }, None);
    assert_eq!((phase, action), (ModePhase::Saving, ModeAction::StoreMode));
    assert_eq!(
        change_clash_mode(phase, ModeEvent::Saved { ok: true }, None),
        (ModePhase::Over, ModeAction::Complete { refresh: true, close_connections: false })
    );
}

#[test]
fn connections_are_closed_when_asked_even_if_save_failed() {
    assert_eq!(
        change_clash_mode(ModePhase::Saving, ModeEvent::Saved { ok: false }, Some(true)),
        (ModePhase::Over, ModeAction::Complete { refresh: false, close_connections: true })
    );
    assert_eq!(
        change_clash_mode(ModePhase::Saving, ModeEvent::Saved { ok: true }, Some(false)),
        (ModePhase::Over, ModeAction::Complete { refresh: true, close_connections: false })
    );
}

#[test]
fn mode_change_ignores_misplaced_events() {
    assert_eq!(
        change_clash_mode(ModePhase::Patching, ModeEvent::Saved { ok: true }, Some(true)),
        (ModePhase::Patching, ModeAction::Nothing)
    );
    assert_eq!(
        change_clash_mode(ModePhase::Over, ModeEvent::LivePatched { ok: true }, Some(true)),
        (ModePhase::Over, ModeAction::Nothing)
    );
}

#[test]
fn connections_with_ids_are_closed_in_order() {
    let entries = vec![entry(Some("a")), entry(None), entry(Some("b")), entry(Some("a"))];
    assert_eq!(after_change_clash_mode(&entries), vec!["a".to_string(), "b".to_string(), "a".to_string()]);
    assert_eq!(after_change_clash_mode(&vec![entry(None)]), Vec::<String>::new());
    assert_eq!(after_change_clash_mode(&Vec::new()), Vec::<String>::new());
}

#[test]
fn delay_probe_goes_direct_in_tun_mode() {
    assert_eq!(delay_probe_route(Some(true)), ProxyChoice::Direct);
    assert_eq!(delay_probe_route(Some(false)), ProxyChoice::Localhost);
    assert_eq!(delay_probe_route(None), ProxyChoice::Localhost);
    assert_eq!(DELAY_PROBE_TIMEOUT_SECS, 10);
}

#[test]
fn delay_is_elapsed_time_or_ten_seconds() {
    assert_eq!(test_delay(DelayProbe::Answered { success: true, elapsed_ms: 137 }), Ok(137));
    assert_eq!(test_delay(DelayProbe::Answered { success: true, elapsed_ms: 0 }), Ok(0));
    assert_eq!(test_delay(DelayProbe::Answered { success: false, elapsed_ms: 137 }), Ok(10000));
    assert_eq!(UNREACHABLE_DELAY_MS, 10000);
    assert_eq!(test_delay(DelayProbe::Failed("timed out".to_string())), Err("timed out".to_string()));
}

#[test]
fn delay_is_cut_to_thirty_two_bits() {
    assert_eq!(test_delay(DelayProbe::Answered { success: true, elapsed_ms: 4_294_967_296 + 5 }), Ok(5));
    assert_eq!(test_delay(DelayProbe::Answered { success: true, elapsed_ms: 4_294_967_295 }), Ok(u32::MAX));
}

#[test]
fn uptime_is_time_since_start() {
    let start = AppStartTime::new(1_700_000_000_000);
    assert_eq!(start.millis(), 1_700_000_000_000);
    assert_eq!(get_app_uptime(&start, 1_700_000_000_000), 0);
    assert_eq!(get_app_uptime(&start, 1_700_000_012_345), 12_345);
    assert_eq!(get_app_uptime(&start, 1_699_999_999_000), -1_000);
}

#[test]
fn uptime_wraps_where_the_difference_does_not_fit() {
    assert_eq!(get_app_uptime(&AppStartTime::new(-1), i64::MAX), i64::MIN);
    assert_eq!(get_app_uptime(&AppStartTime::new(1), i64::MIN), i64::MAX);
    assert_eq!(get_app_uptime(&AppStartTime::new(i64::MIN), i64::MAX), -1);
}

#[test]
fn window_of_monitor_size_is_fullscreen() {
    let monitor = rect(0, 0, 1920, 1080);
    assert!(detect_foreground_fullscreen(Some((rect(0, 0, 1920, 1080), monitor))));
    assert!(detect_foreground_fullscreen(Some((rect(-2, -2, 1922, 1082), monitor))));
    assert!(detect_foreground_fullscreen(Some((rect(0, 0, 1916, 1076), monitor))));
    assert!(!detect_foreground_fullscreen(Some((rect(0, 0, 1915, 1080), monitor))));
    assert!(!detect_foreground_fullscreen(Some((rect(0, 0, 1920, 1085), monitor))));
    assert!(!detect_foreground_fullscreen(Some((rect(100, 100, 900, 700), monitor))));
}

#[test]
fn window_without_area_is_not_fullscreen() {
    let tiny = rect(0, 0, 3, 3);
    assert!(!detect_foreground_fullscreen(Some((rect(5, 5, 5, 8), tiny))));
    assert!(!detect_foreground_fullscreen(Some((rect(5, 5, 4, 8), tiny))));
    assert!(!detect_foreground_fullscreen(Some((rect(5, 5, 8, 5), tiny))));
    assert!(detect_foreground_fullscreen(Some((rect(5, 5, 6, 6), tiny))));
}

#[test]
fn no_probe_is_not_fullscreen() {
    assert!(!detect_foreground_fullscreen(None));
}

#[test]
fn extreme_rectangles_do_not_overflow() {
    let huge = rect(i32::MIN, i32::MIN, i32::MAX, i32::MAX);
    assert!(detect_foreground_fullscreen(Some((huge, huge))));
    assert!(!detect_foreground_fullscreen(Some((huge, rect(0, 0, 1, 1)))));
    assert!(!detect_foreground_fullscreen(Some((rect(i32::MAX, 0, i32::MIN, 1), huge))));
}

#[test]
fn admin_is_user_zero_or_a_privileged_token() {
    assert!(is_admin(PrivilegeProbe::EffectiveUser(0)));
    assert!(!is_admin(PrivilegeProbe::EffectiveUser(1000)));
    assert!(is_admin(PrivilegeProbe::TokenLevel(Some(PrivilegeLevel::Elevated))));
    assert!(is_admin(PrivilegeProbe::TokenLevel(Some(PrivilegeLevel::HighIntegrityAdmin))));
    assert!(!is_admin(PrivilegeProbe::TokenLevel(Some(PrivilegeLevel::NotPrivileged))));
    assert!(!is_admin(PrivilegeProbe::TokenLevel(None)));
    assert!(!is_admin(PrivilegeProbe::Unsupported));
}
