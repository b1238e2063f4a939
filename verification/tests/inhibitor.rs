use riff::inhibitor::{should_inhibit, InhibitStep, InhibitorState};

#[test]
fn inhibits_only_when_enabled_and_playing() {
    assert!(should_inhibit(true, true));
}

#[test]
fn does_not_inhibit_when_paused_or_stopped() {
    assert!(!should_inhibit(true, false));
}

#[test]
fn does_not_inhibit_when_disabled_while_playing() {
    assert!(!should_inhibit(false, true));
}

#[test]
fn does_not_inhibit_when_disabled_and_not_playing() {
    assert!(!should_inhibit(false, false));
}

#[test]
fn inhibitor_is_acquired_and_released_once() {
    let mut state = InhibitorState::new();
    assert_eq!(state.plan(false), InhibitStep::Nothing);
    assert_eq!(state.plan(true), InhibitStep::Acquire);
    state.on_acquired(42);
    assert!(state.is_held());
    assert_eq!(state.plan(true), InhibitStep::Nothing);
    assert_eq!(state.plan(false), InhibitStep::Release(42));
    assert_eq!(state.on_released(), Some(42));
    assert_eq!(state.plan(false), InhibitStep::Nothing);
}

#[test]
fn refused_inhibitor_is_not_held() {
    let mut state = InhibitorState::new();
    state.on_acquired(0);
    assert!(!state.is_held());
    assert_eq!(state.plan(true), InhibitStep::Acquire);
}
