use outclash_lifecycle::guard::{WindowCreationState, BUILD_EXCLUSION_MS};
use outclash_lifecycle::readiness::{is_ui_ready, update_ui_ready_stage, ReadinessState, UiReadyStage};
use outclash_lifecycle::window::{
    create_window, follow_up_plan, main_window_spec, window_flow_start, window_result, FollowUpStep,
    WindowAction, WindowEvent, WindowPhase,
};

#[test]
fn exclusion_window_is_two_seconds() {
    assert_eq!(BUILD_EXCLUSION_MS, 2000);
}

#[test]
fn new_guard_is_free() {
    let guard = WindowCreationState::new(7);
    assert_eq!(guard, WindowCreationState { in_progress: false, started_at: 7 });
}

#[test]
fn guard_refuses_second_request_within_two_seconds() {
    let mut guard = WindowCreationState::new(0);
    assert!(guard.try_begin(1000));
    assert_eq!(guard, WindowCreationState { in_progress: true, started_at: 1000 });
    assert!(!guard.try_begin(1000));
    assert!(!guard.try_begin(2999));
    assert_eq!(guard, WindowCreationState { in_progress: true, started_at: 1000 });
}

#[test]
fn guard_admits_after_two_seconds_of_stale_flag() {
    let mut guard = WindowCreationState::new(0);
    assert!(guard.try_begin(1000));
    assert!(guard.try_begin(3000));
    assert_eq!(guard, WindowCreationState { in_progress: true, started_at: 3000 });
}

#[test]
fn guard_admits_right_after_finish() {
    let mut guard = WindowCreationState::new(0);
    assert!(guard.try_begin(1000));
    guard.finish(1200);
    assert_eq!(guard, WindowCreationState { in_progress: false, started_at: 1200 });
    assert!(guard.try_begin(1201));
}

#[test]
fn guard_treats_earlier_clock_reading_as_no_time_passed() {
    let mut guard = WindowCreationState::new(0);
    assert!(guard.try_begin(5000));
    assert!(!guard.try_begin(10));
}

#[test]
fn silent_request_stays_hidden() {
    let mut guard = WindowCreationState::new(0);
    let mut readiness = ReadinessState::new();
    let (phase, action) = create_window(
        window_flow_start(),
        &mut guard,
        &mut readiness,
        WindowEvent::Requested { show: false },
        10,
    );
    assert_eq!(phase, WindowPhase::Finished(false));
    assert_eq!(action, WindowAction::StaySilent);
    assert_eq!(window_result(phase), Some(false));
    assert_eq!(guard, WindowCreationState::new(0));
}

#[test]
fn existing_window_is_shown_and_reused() {
    let mut guard = WindowCreationState::new(0);
    let mut readiness = ReadinessState::new();
    let (phase, action) =
        create_window(WindowPhase::Idle, &mut guard, &mut readiness, WindowEvent::Requested { show: true }, 1);
    assert_eq!((phase, action), (WindowPhase::Probing, WindowAction::Probe));
    assert_eq!(window_result(phase), None);
    let (phase, action) = create_window(
        phase,
        &mut guard,
        &mut readiness,
        WindowEvent::Probed { exists: true, minimized: true },
        2,
    );
    assert_eq!((phase, action), (WindowPhase::Showing, WindowAction::ShowExisting { unminimize: true }));
    let (phase, action) = create_window(
        phase,
        &mut guard,
        &mut readiness,
        WindowEvent::Shown { shown: true, focused: true },
        3,
    );
    assert_eq!((phase, action), (WindowPhase::Finished(true), WindowAction::Reuse));
    assert!(!guard.in_progress);
}

#[test]
fn stale_window_is_destroyed_and_rebuilt() {
    let mut guard = WindowCreationState::new(0);
    let mut readiness = ReadinessState::new();
    update_ui_ready_stage(&mut readiness, UiReadyStage::Ready);
    let (phase, action) = create_window(
        WindowPhase::Showing,
        &mut guard,
        &mut readiness,
        WindowEvent::Shown { shown: true, focused: false },
        3,
    );
    assert_eq!((phase, action), (WindowPhase::Discarding, WindowAction::Discard));
    let (phase, action) = create_window(phase, &mut guard, &mut readiness, WindowEvent::Discarded, 4);
    assert_eq!((phase, action), (WindowPhase::Building, WindowAction::Build));
    assert_eq!(guard, WindowCreationState { in_progress: true, started_at: 4 });
    let (phase, action) =
        create_window(phase, &mut guard, &mut readiness, WindowEvent::Built { ok: true }, 90);
    assert_eq!((phase, action), (WindowPhase::Finished(true), WindowAction::FollowUp));
    assert_eq!(guard, WindowCreationState { in_progress: false, started_at: 90 });
    assert_eq!(readiness.stage(), UiReadyStage::NotStarted);
    assert!(is_ui_ready(&readiness));
}

#[test]
fn failed_build_releases_guard_and_returns_false() {
    let mut guard = WindowCreationState::new(0);
    let mut readiness = ReadinessState::new();
    update_ui_ready_stage(&mut readiness, UiReadyStage::Loading);
    let (phase, action) = create_window(
        WindowPhase::Probing,
        &mut guard,
        &mut readiness,
        WindowEvent::Probed { exists: false, minimized: false },
        100,
    );
    assert_eq!((phase, action), (WindowPhase::Building, WindowAction::Build));
    let (phase, action) =
        create_window(phase, &mut guard, &mut readiness, WindowEvent::Built { ok: false }, 150);
    assert_eq!((phase, action), (WindowPhase::Finished(false), WindowAction::ReportFailure));
    assert_eq!(window_result(phase), Some(false));
    assert_eq!(guard, WindowCreationState { in_progress: false, started_at: 150 });
    assert_eq!(readiness.stage(), UiReadyStage::Loading);
}

#[test]
fn request_during_build_is_refused() {
    let mut guard = WindowCreationState::new(0);
    let mut readiness = ReadinessState::new();
    let first = create_window(
        WindowPhase::Probing,
        &mut guard,
        &mut readiness,
        WindowEvent::Probed { exists: false, minimized: false },
        100,
    );
    assert_eq!(first.0, WindowPhase::Building);
    let second = create_window(
        WindowPhase::Probing,
        &mut guard,
        &mut readiness,
        WindowEvent::Probed { exists: false, minimized: false },
        2099,
    );
    assert_eq!(second, (WindowPhase::Finished(false), WindowAction::Refuse));
    assert_eq!(guard, WindowCreationState { in_progress: true, started_at: 100 });
    let third = create_window(
        WindowPhase::Probing,
        &mut guard,
        &mut readiness,
        WindowEvent::Probed { exists: false, minimized: false },
        2100,
    );
    assert_eq!(third, (WindowPhase::Building, WindowAction::Build));
}

#[test]
fn unexpected_event_changes_nothing() {
    let mut guard = WindowCreationState::new(5);
    let mut readiness = ReadinessState::new();
    let (phase, action) =
        create_window(WindowPhase::Idle, &mut guard, &mut readiness, WindowEvent::Built { ok: true }, 9);
    assert_eq!((phase, action), (WindowPhase::Idle, WindowAction::Ignore));
    assert_eq!(guard, WindowCreationState::new(5));
    let (phase, action) = create_window(
        WindowPhase::Finished(true),
        &mut guard,
        &mut readiness,
        WindowEvent::Requested { show: true },
        9,
    );
    assert_eq!((phase, action), (WindowPhase::Finished(true), WindowAction::Ignore));
}

#[test]
fn follow_up_runs_in_order() {
    assert_eq!(
        follow_up_plan(),
        vec![
            FollowUpStep::MarkStartupCompleted,
            FollowUpStep::CheckAutoLightweight,
            FollowUpStep::NotifyStartupCompleted,
            FollowUpStep::ShowAndFocus,
            FollowUpStep::MonitorReadiness,
        ]
    );
}

#[test]
fn main_window_has_fixed_sizes() {
    let spec = main_window_spec();
    assert_eq!(spec.label, "main");
    assert_eq!(spec.title, "OutClash");
    assert_eq!((spec.width, spec.height), (940, 700));
    assert_eq!((spec.min_width, spec.min_height), (1000, 800));
    assert!(spec.centered && spec.decorated && !spec.fullscreen && spec.visible);
}
