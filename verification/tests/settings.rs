use riff::actions::AppAction;
use riff::settings::{
    alsa_device_visible, audio_backend_index, audio_backend_name, audio_backend_selectable,
    audio_format_index, audio_format_name, bitrate_index, bitrate_name, close_behavior_index,
    close_behavior_name, color_scheme_for, explicit_switch_state, lock_look,
    normalisation_method_index, normalisation_method_name, normalisation_type_index,
    normalisation_type_name, theme_index, theme_name, volume_curve_index, volume_curve_name,
    ColorSchemeChoice, SettingsModel,
};

#[test]
fn bitrate_rows_round_trip() {
    for (row, name) in ["96", "160", "320"].iter().enumerate() {
        assert_eq!(bitrate_index(name), row as u32);
        assert_eq!(bitrate_name(row as u32), *name);
    }
}

#[test]
fn backend_rows_round_trip() {
    for (row, name) in ["rodio", "pulseaudio", "alsa", "gstreamer"].iter().enumerate() {
        assert_eq!(audio_backend_index(name), row as u32);
        assert_eq!(audio_backend_name(row as u32), *name);
    }
}

#[test]
fn theme_and_close_rows_round_trip() {
    for (row, name) in ["light", "dark", "system"].iter().enumerate() {
        assert_eq!(theme_index(name), row as u32);
        assert_eq!(theme_name(row as u32), *name);
    }
    for (row, name) in ["ask", "minimize-to-background", "stop-and-quit"].iter().enumerate() {
        assert_eq!(close_behavior_index(name), row as u32);
        assert_eq!(close_behavior_name(row as u32), *name);
    }
}

#[test]
fn lenient_settings_fall_back_to_their_first_choice() {
    assert_eq!(volume_curve_index("cubic"), 2);
    assert_eq!(volume_curve_index("bogus"), 0);
    assert_eq!(volume_curve_name(7), "log");
    assert_eq!(audio_format_index("f64"), 5);
    assert_eq!(audio_format_index(""), 0);
    assert_eq!(audio_format_name(2), "s24_3");
    assert_eq!(audio_format_name(99), "s16");
    assert_eq!(normalisation_type_index("album"), 2);
    assert_eq!(normalisation_type_index("nope"), 0);
    assert_eq!(normalisation_type_name(3), "auto");
    assert_eq!(normalisation_method_index("basic"), 1);
    assert_eq!(normalisation_method_index("x"), 0);
    assert_eq!(normalisation_method_name(5), "dynamic");
}

#[test]
fn device_row_follows_the_alsa_backend() {
    assert!(!alsa_device_visible(0));
    assert!(alsa_device_visible(1));
    assert!(!alsa_device_visible(2));
}

#[test]
fn theme_rows_pick_the_colour_scheme() {
    assert_eq!(color_scheme_for(0), ColorSchemeChoice::ForceLight);
    assert_eq!(color_scheme_for(1), ColorSchemeChoice::ForceDark);
    assert_eq!(color_scheme_for(2), ColorSchemeChoice::Default);
    assert_eq!(color_scheme_for(17), ColorSchemeChoice::Default);
}

#[test]
fn locked_explicit_filter_is_forced_on() {
    let s = explicit_switch_state(true);
    assert!(s.force_on && !s.sensitive && s.explain_lock);
    let s = explicit_switch_state(false);
    assert!(!s.force_on && s.sensitive && !s.explain_lock);
    assert!(SettingsModel::new(true).explicit_filter_locked());
    assert!(!SettingsModel::new(false).explicit_filter_locked());
}

#[test]
fn closing_settings_stops_the_player_only_when_needed() {
    let m = SettingsModel::new(false);
    assert_eq!(m.on_close(true), vec![AppAction::StopPlayer, AppAction::ChangeSettings]);
    assert_eq!(m.on_close(false), vec![AppAction::ChangeSettings]);
}

#[test]
fn backend_is_selectable_on_linux_only() {
    assert!(audio_backend_selectable("linux"));
    assert!(!audio_backend_selectable("macos"));
    assert!(!audio_backend_selectable("Linux"));
}

#[test]
fn lock_button_looks() {
    assert_eq!(lock_look(true), (false, "changes-prevent-symbolic"));
    assert_eq!(lock_look(false), (true, "changes-allow-symbolic"));
}
