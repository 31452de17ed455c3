use outclash_lifecycle::readiness::{
    is_ui_ready, mark_ui_ready, monitor_ui_ready, reset_ui_ready, ui_ready_timeout_ms,
    update_ui_ready_stage, MonitorAction, ReadinessState, UiReadyStage,
};

#[test]
fn new_state_is_not_ready() {
    let state = ReadinessState::new();
    assert!(!is_ui_ready(&state));
    assert_eq!(state.stage(), UiReadyStage::NotStarted);
}

#[test]
fn only_the_terminal_stage_raises_the_flag() {
    let stages = [
        UiReadyStage::NotStarted,
        UiReadyStage::Loading,
        UiReadyStage::DomReady,
        UiReadyStage::ResourcesLoaded,
    ];
    for stage in stages {
        let mut state = ReadinessState::new();
        update_ui_ready_stage(&mut state, stage);
        assert_eq!(state.stage(), stage);
        assert!(!is_ui_ready(&state));
    }
    let mut state = ReadinessState::new();
    update_ui_ready_stage(&mut state, UiReadyStage::Ready);
    assert_eq!(state.stage(), UiReadyStage::Ready);
    assert!(is_ui_ready(&state));
}

#[test]
fn transitions_need_not_go_forward() {
    let mut state = ReadinessState::new();
    update_ui_ready_stage(&mut state, UiReadyStage::ResourcesLoaded);
    update_ui_ready_stage(&mut state, UiReadyStage::Loading);
    assert_eq!(state.stage(), UiReadyStage::Loading);
    assert!(!is_ui_ready(&state));
}

#[test]
fn leaving_the_terminal_stage_keeps_the_flag() {
    let mut state = ReadinessState::new();
    update_ui_ready_stage(&mut state, UiReadyStage::Ready);
    update_ui_ready_stage(&mut state, UiReadyStage::NotStarted);
    assert_eq!(state.stage(), UiReadyStage::NotStarted);
    assert!(is_ui_ready(&state));
}

#[test]
fn mark_raises_flag_and_keeps_stage() {
    let mut state = ReadinessState::new();
    update_ui_ready_stage(&mut state, UiReadyStage::DomReady);
    mark_ui_ready(&mut state);
    assert!(is_ui_ready(&state));
    assert_eq!(state.stage(), UiReadyStage::DomReady);
}

#[test]
fn reset_clears_stage_and_flag() {
    let mut state = ReadinessState::new();
    update_ui_ready_stage(&mut state, UiReadyStage::Ready);
    reset_ui_ready(&mut state);
    assert!(!is_ui_ready(&state));
    assert_eq!(state.stage(), UiReadyStage::NotStarted);
    assert_eq!(state, ReadinessState::new());
}

#[test]
fn timeout_depends_on_lightweight_mode() {
    assert_eq!(ui_ready_timeout_ms(true), 3000);
    assert_eq!(ui_ready_timeout_ms(false), 8000);
}

#[test]
fn monitor_waits_until_timeout_then_forces_flag() {
    let mut state = ReadinessState::new();
    assert_eq!(monitor_ui_ready(&mut state, 0, 3000), MonitorAction::Wait);
    assert_eq!(monitor_ui_ready(&mut state, 2900, 3000), MonitorAction::Wait);
    assert!(!is_ui_ready(&state));
    assert_eq!(monitor_ui_ready(&mut state, 3000, 3000), MonitorAction::GiveUp);
    assert!(is_ui_ready(&state));
    assert_eq!(state.stage(), UiReadyStage::NotStarted);
}

#[test]
fn monitor_sees_ready_frontend() {
    let mut state = ReadinessState::new();
    update_ui_ready_stage(&mut state, UiReadyStage::Ready);
    assert_eq!(monitor_ui_ready(&mut state, 100, 8000), MonitorAction::RemoveOverlay);
    assert_eq!(monitor_ui_ready(&mut state, 9000, 8000), MonitorAction::RemoveOverlay);
    assert!(is_ui_ready(&state));
}
