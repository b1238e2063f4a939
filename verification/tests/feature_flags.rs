use riff::feature_flags::{visible_flags, FeatureFlag};

#[test]
fn debug_flags_are_debug_only() {
    assert!(FeatureFlag::DebugCss.is_debug_only());
    assert!(FeatureFlag::DebugSkeleton.is_debug_only());
}

#[test]
fn non_debug_flags_are_not_debug_only() {
    assert!(!FeatureFlag::SelectMode.is_debug_only());
    assert!(!FeatureFlag::CreateNewPlaylist.is_debug_only());
    assert!(!FeatureFlag::DeviceSelector.is_debug_only());
}

#[test]
fn flag_keys_and_titles() {
    assert_eq!(FeatureFlag::SelectMode.key(), "feature-select-mode");
    assert_eq!(FeatureFlag::DebugSkeleton.key(), "feature-debug-skeleton");
    assert_eq!(FeatureFlag::CreateNewPlaylist.title(), "Create New Playlist");
    assert_eq!(
        FeatureFlag::DeviceSelector.description(),
        "Enable the device selector in the Now Playing headerbar."
    );
    assert_eq!(FeatureFlag::all().len(), 5);
}

#[test]
fn release_builds_hide_debug_flags() {
    assert_eq!(
        visible_flags(false),
        vec![
            FeatureFlag::SelectMode,
            FeatureFlag::CreateNewPlaylist,
            FeatureFlag::DeviceSelector
        ]
    );
    assert_eq!(visible_flags(true), FeatureFlag::all());
    assert!(!FeatureFlag::DebugCss.resolve_enabled(false, true));
    assert!(FeatureFlag::DebugCss.resolve_enabled(true, true));
    assert!(FeatureFlag::SelectMode.resolve_enabled(false, true));
    assert!(!FeatureFlag::SelectMode.resolve_enabled(true, false));
}
