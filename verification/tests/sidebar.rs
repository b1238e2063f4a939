use riff::actions::{AppAction, HomePage};
use riff::batch_loader::SongsSource;
use riff::sidebar::{
    build_playlist_menu,
    MenuLabel, PlaylistMenuAction, PlaylistSummary, RowActivation, SidebarDestination,
    SidebarItem, SidebarModel,
};

fn tracks() -> Vec<String> {
    vec!["t1".to_string(), "t2".to_string(), "t3".to_string()]
}

#[test]
fn fixed_entries_come_first() {
    let m = SidebarModel::new();
    let items = m.fixed_items(false);
    assert_eq!(
        items,
        vec![
            SidebarItem::Destination(SidebarDestination::NowPlaying),
            SidebarItem::Destination(SidebarDestination::SavedArtists),
            SidebarItem::Destination(SidebarDestination::Library),
            SidebarItem::Destination(SidebarDestination::SavedPlaylists),
            SidebarItem::Destination(SidebarDestination::SavedTracks),
            SidebarItem::PlaylistsSection,
        ]
    );
    let with_create = m.fixed_items(true);
    assert_eq!(with_create.len(), 7);
    assert_eq!(with_create[6], SidebarItem::CreatePlaylist);
}

#[test]
fn untitled_playlists_get_the_fallback_title() {
    let m = SidebarModel::new();
    assert_eq!(m.playlist_title("Mix"), Some("Mix".to_string()));
    assert_eq!(m.playlist_title(""), None);
    let playlists = vec![
        PlaylistSummary { id: "p1".to_string(), title: "Road".to_string() },
        PlaylistSummary { id: "p2".to_string(), title: String::new() },
    ];
    let items = m.get_playlists(&playlists, "Unnamed playlist");
    assert_eq!(
        items,
        vec![
            SidebarItem::Destination(SidebarDestination::Playlist(PlaylistSummary {
                id: "p1".to_string(),
                title: "Road".to_string()
            })),
            SidebarItem::Destination(SidebarDestination::Playlist(PlaylistSummary {
                id: "p2".to_string(),
                title: "Unnamed playlist".to_string()
            })),
        ]
    );
}

#[test]
fn navigation_targets() {
    let m = SidebarModel::new();
    assert_eq!(
        m.navigate(&SidebarDestination::SavedTracks),
        vec![AppAction::NavigationPopToHome, AppAction::SetHomeVisiblePage(HomePage::SavedTracks)]
    );
    let p = SidebarDestination::Playlist(PlaylistSummary { id: "p".into(), title: "t".into() });
    assert_eq!(m.navigate(&p), vec![AppAction::ViewPlaylist("p".to_string())]);
    match m.on_row_activated(&SidebarItem::Destination(SidebarDestination::Library)) {
        RowActivation::Navigate(actions) => assert_eq!(
            actions,
            vec![AppAction::NavigationPopToHome, AppAction::SetHomeVisiblePage(HomePage::Library)]
        ),
        other => panic!("unexpected {:?}", other),
    }
    assert!(matches!(
        m.on_row_activated(&SidebarItem::CreatePlaylist),
        RowActivation::ShowCreatePlaylistPopover
    ));
}

#[test]
fn context_menu_only_for_playlists() {
    let m = SidebarModel::new();
    let p = SidebarItem::Destination(SidebarDestination::Playlist(PlaylistSummary {
        id: "p9".into(),
        title: "x".into(),
    }));
    assert_eq!(m.context_menu_playlist(&p), Some("p9".to_string()));
    assert_eq!(m.context_menu_playlist(&SidebarItem::PlaylistsSection), None);
    assert_eq!(
        m.context_menu_playlist(&SidebarItem::Destination(SidebarDestination::NowPlaying)),
        None
    );
}

#[test]
fn own_playlists_are_deleted_others_unfollowed() {
    let m = SidebarModel::new();
    let owned = vec!["mine".to_string()];
    assert!(m.is_playlist_owned(&owned, "mine"));
    assert!(!m.is_playlist_owned(&owned, "theirs"));
    let (playback, manage) = build_playlist_menu(true);
    assert_eq!(
        playback,
        vec![
            (MenuLabel::Play, PlaylistMenuAction::Play),
            (MenuLabel::Shuffle, PlaylistMenuAction::Shuffle)
        ]
    );
    assert_eq!(manage[1], (MenuLabel::DeletePlaylist, PlaylistMenuAction::Unfollow));
    let (_, manage) = build_playlist_menu(false);
    assert_eq!(
        manage,
        vec![
            (MenuLabel::CopyLink, PlaylistMenuAction::CopyLink),
            (MenuLabel::UnfollowPlaylist, PlaylistMenuAction::Unfollow)
        ]
    );
    assert_eq!(m.menu_action_name(PlaylistMenuAction::Unfollow), "playlist.unfollow");
    assert_eq!(m.menu_action_name(PlaylistMenuAction::CopyLink), "playlist.copy_link");
    assert_eq!(m.playlist_link("abc"), "https://open.spotify.com/playlist/abc");
}

#[test]
fn playing_a_playlist_starts_with_its_first_track() {
    let m = SidebarModel::new();
    assert_eq!(
        m.play_playlist("pl", &tracks()),
        vec![
            AppAction::SetShuffled(false),
            AppAction::LoadPagedSongs(SongsSource::Playlist("pl".to_string())),
            AppAction::LoadTrack("t1".to_string()),
        ]
    );
    assert_eq!(
        m.play_playlist("pl", &vec![]),
        vec![
            AppAction::SetShuffled(false),
            AppAction::LoadPagedSongs(SongsSource::Playlist("pl".to_string())),
        ]
    );
}

#[test]
fn shuffling_starts_with_a_track_of_the_playlist() {
    let m = SidebarModel::new();
    assert_eq!(
        m.shuffle_playlist_from("pl", &tracks(), 7),
        vec![
            AppAction::SetShuffled(true),
            AppAction::LoadPagedSongs(SongsSource::Playlist("pl".to_string())),
            AppAction::LoadTrack("t2".to_string()),
        ]
    );
    for _ in 0..20 {
        let actions = m.shuffle_playlist("pl", &tracks());
        assert_eq!(actions.len(), 3);
        assert_eq!(actions[0], AppAction::SetShuffled(true));
        match &actions[2] {
            AppAction::LoadTrack(id) => assert!(tracks().contains(id)),
            other => panic!("unexpected {:?}", other),
        }
        let idx = m.shuffle_start_index(3).unwrap();
        assert!(idx < 3);
    }
    assert_eq!(m.shuffle_playlist("pl", &vec![]).len(), 2);
    assert_eq!(m.shuffle_start_index(0), None);
    assert_eq!(m.start_index_from(4, 10), Some(2));
}

#[test]
fn more_playlists_only_with_a_next_page() {
    let m = SidebarModel::new();
    assert_eq!(m.load_more_playlists(Some(40), 20), Some((40, 20)));
    assert_eq!(m.load_more_playlists(None, 20), None);
}

#[test]
fn unfollowed_playlist_leaves_the_list() {
    let m = SidebarModel::new();
    assert_eq!(m.unfollow_playlist("p1".to_string()), AppAction::RemovePlaylist("p1".to_string()));
}

#[test]
fn playing_a_playlist_fetches_its_first_hundred_tracks() {
    let m = SidebarModel::new();
    assert_eq!(m.playlist_play_request("pl"), ("pl".to_string(), 0, 100));
}
