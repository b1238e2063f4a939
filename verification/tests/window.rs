use riff::pages::AppEvent;
use riff::window::{
    close_dialog_outcome, on_close_request, window_step, CloseRequestOutcome, CloseWindowBehavior,
    WindowGeometry, WindowStep,
};

#[test]
fn closing_while_idle_always_proceeds() {
    for b in [
        CloseWindowBehavior::Ask,
        CloseWindowBehavior::MinimizeToBackground,
        CloseWindowBehavior::StopAndQuit,
    ] {
        assert_eq!(on_close_request(false, b), CloseRequestOutcome::Proceed);
    }
}

#[test]
fn closing_while_playing_follows_the_setting() {
    assert_eq!(on_close_request(true, CloseWindowBehavior::Ask), CloseRequestOutcome::AskUser);
    assert_eq!(
        on_close_request(true, CloseWindowBehavior::MinimizeToBackground),
        CloseRequestOutcome::HideToBackground
    );
    assert_eq!(
        on_close_request(true, CloseWindowBehavior::StopAndQuit),
        CloseRequestOutcome::Proceed
    );
}

#[test]
fn dialog_answers() {
    let o = close_dialog_outcome("quit", true);
    assert!(o.quit);
    assert_eq!(o.remember, Some(CloseWindowBehavior::StopAndQuit));
    let o = close_dialog_outcome("background", true);
    assert!(!o.quit);
    assert_eq!(o.remember, Some(CloseWindowBehavior::MinimizeToBackground));
    let o = close_dialog_outcome("", false);
    assert!(!o.quit);
    assert_eq!(o.remember, None);
}

#[test]
fn remembered_answer_is_applied_next_time() {
    let o = close_dialog_outcome("background", true);
    assert_eq!(
        on_close_request(true, o.remember.unwrap()),
        CloseRequestOutcome::HideToBackground
    );
    let o = close_dialog_outcome("quit", true);
    assert_eq!(on_close_request(true, o.remember.unwrap()), CloseRequestOutcome::Proceed);
}

#[test]
fn gsettings_values_round_trip() {
    for b in [
        CloseWindowBehavior::Ask,
        CloseWindowBehavior::MinimizeToBackground,
        CloseWindowBehavior::StopAndQuit,
    ] {
        assert_eq!(CloseWindowBehavior::from_gsettings_enum(b.to_gsettings_enum()), b);
    }
    assert_eq!(CloseWindowBehavior::from_gsettings_enum(-4), CloseWindowBehavior::Ask);
}

#[test]
fn maximizing_keeps_the_size_to_restore() {
    let mut g = WindowGeometry { width: 800, height: 600, is_maximized: false };
    g.record(1024, 700, false);
    assert_eq!(g, WindowGeometry { width: 1024, height: 700, is_maximized: false });
    g.record(1920, 1080, true);
    assert_eq!(g, WindowGeometry { width: 1024, height: 700, is_maximized: true });
}

#[test]
fn window_reacts_to_start_and_raise() {
    assert_eq!(window_step(&AppEvent::Started), WindowStep::Start);
    assert_eq!(window_step(&AppEvent::Raised), WindowStep::Raise);
    assert_eq!(window_step(&AppEvent::Other), WindowStep::Nothing);
}
