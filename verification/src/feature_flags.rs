//! Experimental features that can be switched on in the settings.
//!
//! Each flag is stored under its own settings key; the debug-only flags are
//! never enabled in release builds, whatever the stored value says.

use vstd::prelude::*;

verus! {

#[derive(Clone, Copy, Debug, PartialEq, Eq, Structural)]
pub enum FeatureFlag {
    /// Selection mode: select multiple songs to queue, save or remove.
    SelectMode,
    /// The "New Playlist" workflow in the sidebar.
    CreateNewPlaylist,
    /// Switching playback between Spotify Connect devices.
    DeviceSelector,
    /// Alignment and rendering debug overlays (debug builds only).
    DebugCss,
    /// A header toggle forcing pages into their skeleton state (debug builds only).
    DebugSkeleton,
}

/// Every flag, in the order the settings page lists them.
pub open spec fn all_flags_spec() -> Seq<FeatureFlag> {
    seq![
        FeatureFlag::SelectMode,
        FeatureFlag::CreateNewPlaylist,
        FeatureFlag::DeviceSelector,
        FeatureFlag::DebugCss,
        FeatureFlag::DebugSkeleton,
    ]
}

pub open spec fn is_debug_only_spec(f: FeatureFlag) -> bool {
    f == FeatureFlag::DebugCss || f == FeatureFlag::DebugSkeleton
}

pub open spec fn key_spec(f: FeatureFlag) -> Seq<char> {
    match f {
        FeatureFlag::SelectMode => "feature-select-mode"@,
        FeatureFlag::CreateNewPlaylist => "feature-create-new-playlist"@,
        FeatureFlag::DeviceSelector => "feature-device-selector"@,
        FeatureFlag::DebugCss => "feature-debug-css"@,
        FeatureFlag::DebugSkeleton => "feature-debug-skeleton"@,
    }
}

pub open spec fn title_spec(f: FeatureFlag) -> Seq<char> {
    match f {
        FeatureFlag::SelectMode => "Select Mode"@,
        FeatureFlag::CreateNewPlaylist => "Create New Playlist"@,
        FeatureFlag::DeviceSelector => "Device Selector"@,
        FeatureFlag::DebugCss => "Debug CSS"@,
        FeatureFlag::DebugSkeleton => "Debug Skeleton"@,
    }
}

pub open spec fn description_spec(f: FeatureFlag) -> Seq<char> {
    match f {
        FeatureFlag::SelectMode => "Enable selection mode to select multiple songs for queuing, saving, or removing."@,
        FeatureFlag::CreateNewPlaylist => "Enable the New Playlist button in the sidebar."@,
        FeatureFlag::DeviceSelector => "Enable the device selector in the Now Playing headerbar."@,
        FeatureFlag::DebugCss => "Show alignment and rendering debug overlays."@,
        FeatureFlag::DebugSkeleton => "Toggle between loaded content and skeleton loading states."@,
    }
}

/// The flags offered in a build: all of them in debug builds, the others only
/// otherwise (order kept).
pub open spec fn visible_flags_spec(debug_build: bool) -> Seq<FeatureFlag> {
    all_flags_spec().filter(|f: FeatureFlag| !is_debug_only_spec(f) || debug_build)
}

impl FeatureFlag {
    /// Every flag, in the order the settings page lists them.
    pub fn all() -> (r: Vec<FeatureFlag>)
        ensures
            r@ == all_flags_spec(),
    {
        let mut v: Vec<FeatureFlag> = Vec::new();
        v.push(FeatureFlag::SelectMode);
        v.push(FeatureFlag::CreateNewPlaylist);
        v.push(FeatureFlag::DeviceSelector);
        v.push(FeatureFlag::DebugCss);
        v.push(FeatureFlag::DebugSkeleton);
        assert(v@ =~= all_flags_spec());
        v
    }

    /// Whether the flag is only available in debug builds.
    pub fn is_debug_only(&self) -> (r: bool)
        ensures
            r == is_debug_only_spec(*self),
    {
        match self {
            FeatureFlag::DebugCss | FeatureFlag::DebugSkeleton => true,
            _ => false,
        }
    }

    /// The settings key the flag is stored under.
    pub fn key(&self) -> (r: &'static str)
        ensures
            r@ == key_spec(*self),
    {
        match self {
            FeatureFlag::SelectMode => "feature-select-mode",
            FeatureFlag::CreateNewPlaylist => "feature-create-new-playlist",
            FeatureFlag::DeviceSelector => "feature-device-selector",
            FeatureFlag::DebugCss => "feature-debug-css",
            FeatureFlag::DebugSkeleton => "feature-debug-skeleton",
        }
    }

    /// The title of the flag's switch in the settings.
    pub fn title(&self) -> (r: &'static str)
        ensures
            r@ == title_spec(*self),
    {
        match self {
            FeatureFlag::SelectMode => "Select Mode",
            FeatureFlag::CreateNewPlaylist => "Create New Playlist",
            FeatureFlag::DeviceSelector => "Device Selector",
            FeatureFlag::DebugCss => "Debug CSS",
            FeatureFlag::DebugSkeleton => "Debug Skeleton",
        }
    }

    /// The explanation shown under the flag's switch.
    pub fn description(&self) -> (r: &'static str)
        ensures
            r@ == description_spec(*self),
    {
        match self {
            FeatureFlag::SelectMode => {
                "Enable selection mode to select multiple songs for queuing, saving, or removing."
            },
            FeatureFlag::CreateNewPlaylist => "Enable the New Playlist button in the sidebar.",
            FeatureFlag::DeviceSelector => {
                "Enable the device selector in the Now Playing headerbar."
            },
            FeatureFlag::DebugCss => "Show alignment and rendering debug overlays.",
            FeatureFlag::DebugSkeleton => {
                "Toggle between loaded content and skeleton loading states."
            },
        }
    }

    /// Whether the flag can be on in this build: a debug-only flag never is in a
    /// release build; any other flag is whatever its stored setting says.
    pub fn available_in(&self, debug_build: bool) -> (r: bool)
        ensures
            r == (!is_debug_only_spec(*self) || debug_build),
    {
        !self.is_debug_only() || debug_build
    }

    /// Whether the flag is on, given the build kind and the value stored under
    /// its key (read only when the flag is available).
    pub fn resolve_enabled(&self, debug_build: bool, stored: bool) -> (r: bool)
        ensures
            r == ((!is_debug_only_spec(*self) || debug_build) && stored),
    {
        self.available_in(debug_build) && stored
    }
}

/// The flags the settings page offers in a build, in listing order.
pub fn visible_flags(debug_build: bool) -> (r: Vec<FeatureFlag>)
    ensures
        r@ == visible_flags_spec(debug_build),
{
    let all = FeatureFlag::all();
    let mut out: Vec<FeatureFlag> = Vec::new();
    let mut i: usize = 0;
    while i < all.len()
        invariant
            all@ == all_flags_spec(),
            i <= all@.len(),
            out@ == all@.take(i as int).filter(
                |f: FeatureFlag| !is_debug_only_spec(f) || debug_build,
            ),
        decreases all@.len() - i,
    {
        let f = all[i];
        proof {
            reveal_with_fuel(Seq::filter, 1);
            assert(all@.take(i + 1).drop_last() =~= all@.take(i as int));
        }
        if f.available_in(debug_build) {
            out.push(f);
        }
        i = i + 1;
    }
    assert(all@.take(all@.len() as int) =~= all@);
    out
}

/// Each flag is stored under its own settings key, and the keys are those the
/// settings schema declares.
pub proof fn law_flag_keys_are_distinct(f1: FeatureFlag, f2: FeatureFlag)
    ensures
        f1 != f2 ==> key_spec(f1) != key_spec(f2),
        key_spec(FeatureFlag::SelectMode) == "feature-select-mode"@,
        key_spec(FeatureFlag::CreateNewPlaylist) == "feature-create-new-playlist"@,
        key_spec(FeatureFlag::DeviceSelector) == "feature-device-selector"@,
        key_spec(FeatureFlag::DebugCss) == "feature-debug-css"@,
        key_spec(FeatureFlag::DebugSkeleton) == "feature-debug-skeleton"@,
{
    reveal_strlit("feature-select-mode");
    reveal_strlit("feature-create-new-playlist");
    reveal_strlit("feature-device-selector");
    reveal_strlit("feature-debug-css");
    reveal_strlit("feature-debug-skeleton");
    let a = key_spec(FeatureFlag::SelectMode);
    let b = key_spec(FeatureFlag::CreateNewPlaylist);
    let c = key_spec(FeatureFlag::DeviceSelector);
    let d = key_spec(FeatureFlag::DebugCss);
    let e = key_spec(FeatureFlag::DebugSkeleton);
    assert(a[8] == 's' && b[8] == 'c' && c[8] == 'd' && d[8] == 'd' && e[8] == 'd');
    assert(c[10] == 'v' && d[10] == 'b' && e[10] == 'b');
    assert(d[14] == 'c' && e[14] == 's');
}

} // verus!
