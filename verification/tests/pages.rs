use riff::actions::AppAction;
use riff::card_list::SortOrder;
use riff::pages::{
    details_start, DetailsStart,
    card_page_reaction, details_event_outcome, header_refresh, is_playback_event, like_icon,
    login_status_page, login_window_step, now_playing_page, now_playing_rechecks_song,
    play_button_look, playlist_rename_step, song_menu, subtitle_pieces, AppEvent, BrowserEvent,
    CardListPageModel, CardPageReaction, DetailsPageFacts, Device, HeaderImageShape,
    LikeRequest, LoginEvent, LoginWindowStep, NextPage, NowPlayingModel, PlayTooltip,
    PlaybackEvent, RenameStep, SavedArtistsModel, SelectionContext, SongMenuLabel,
    SubtitlePiece, UserDetailsModel,
};
use riff::search::ImageShape;

fn artists() -> Vec<(String, String)> {
    vec![("a1".to_string(), "Ann".to_string()), ("a2".to_string(), "Bo".to_string())]
}

#[test]
fn playback_events_drive_the_play_button() {
    assert_eq!(
        is_playback_event(&AppEvent::PlaybackEvent(PlaybackEvent::PlaybackPaused)),
        Some(false)
    );
    assert_eq!(
        is_playback_event(&AppEvent::PlaybackEvent(PlaybackEvent::TrackChanged("t".into()))),
        Some(true)
    );
    assert_eq!(is_playback_event(&AppEvent::Other), None);
}

#[test]
fn user_page_refreshes_for_its_user_only() {
    let m = UserDetailsModel::new("me".to_string());
    let mine = AppEvent::BrowserEvent(BrowserEvent::UserDetailsUpdated("me".to_string()));
    let other = AppEvent::BrowserEvent(BrowserEvent::UserDetailsUpdated("you".to_string()));
    assert!(m.should_refresh_details(&mine));
    assert!(!m.should_refresh_details(&other));
    assert_eq!(m.title(Some("Dee")), Some("Profile \u{2014} Dee".to_string()));
    assert_eq!(m.title(None), None);
    assert_eq!(m.open_item("pl".to_string()), AppAction::ViewPlaylist("pl".to_string()));
    assert_eq!(m.header_image_shape(), HeaderImageShape::Circle);
    assert_eq!(m.image_shape(), ImageShape::Square);
}

#[test]
fn user_page_loads_the_next_page() {
    let m = UserDetailsModel::new("me".to_string());
    let page = NextPage { next_offset: Some(20), data: "me".to_string(), batch_size: 10 };
    let r = m.load_more(Some(&page)).unwrap();
    assert_eq!((r.id.as_str(), r.offset, r.batch_size), ("me", 20, 10));
    let done = NextPage { next_offset: None, data: "me".to_string(), batch_size: 10 };
    assert!(m.load_more(Some(&done)).is_none());
    assert!(m.load_more(None).is_none());
}

#[test]
fn saved_artists_page() {
    let m = SavedArtistsModel::new();
    assert!(m.has_more(Some("cursor")));
    assert!(!m.has_more(Some("")));
    assert!(!m.has_more(None));
    assert_eq!(m.load_more(Some("c")), Some("c".to_string()));
    assert_eq!(m.load_more(Some("")), None);
    assert_eq!(m.page_id(), "artists");
    assert_eq!(m.empty_icon(), "avatar-default-symbolic");
    assert_eq!(
        m.available_sort_orders(),
        vec![SortOrder::RecentlyAdded, SortOrder::Alphabetic, SortOrder::Popularity]
    );
    assert!(m.should_refresh(&AppEvent::BrowserEvent(BrowserEvent::SavedArtistsUpdated)));
    assert!(!m.should_refresh(&AppEvent::BrowserEvent(BrowserEvent::SavedTracksUpdated)));
    assert_eq!(m.open_item("x".to_string()), AppAction::ViewArtist("x".to_string()));
    assert_eq!(m.image_shape(), ImageShape::Round);
}

#[test]
fn now_playing_model() {
    let m = NowPlayingModel::new();
    assert_eq!(m.selection_context(Device::Local), SelectionContext::Queue);
    assert_eq!(m.selection_context(Device::Connect), SelectionContext::ReadOnlyQueue);
    assert_eq!(m.header_selection_context(false, Device::Local), None);
    assert_eq!(
        m.header_selection_context(true, Device::Connect),
        Some(SelectionContext::ReadOnlyQueue)
    );
    assert_eq!(m.share_link("t1"), "https://open.spotify.com/track/t1");
    assert_eq!(m.play_song_at("t1"), AppAction::LoadTrack("t1".to_string()));
    assert_eq!(m.navigate_to_subtitle_link("a"), AppAction::ViewArtist("a".to_string()));
    assert!(m.should_refresh_details(&AppEvent::PlaybackEvent(PlaybackEvent::TrackChanged(
        "x".into()
    ))));
    assert!(!m.should_refresh_details(&AppEvent::PlaybackEvent(PlaybackEvent::PlaybackPaused)));
    assert!(m.should_refresh_liked(&AppEvent::BrowserEvent(BrowserEvent::SavedTracksUpdated)));
}

#[test]
fn like_button_of_the_current_track() {
    let m = NowPlayingModel::new();
    let saved = vec!["s1".to_string(), "s2".to_string()];
    assert!(m.is_liked(Some("s2"), Some(&saved)));
    assert!(!m.is_liked(Some("s3"), Some(&saved)));
    assert!(!m.is_liked(None, Some(&saved)));
    assert!(!m.is_liked(Some("s1"), None));
    let r = m.toggle_like(Some("s2"), true).unwrap();
    assert_eq!(r, LikeRequest::Unsave("s2".to_string()));
    assert_eq!(r.confirmed_action(), AppAction::RemoveSavedTrack("s2".to_string()));
    let r = m.toggle_like(Some("s3"), false).unwrap();
    assert_eq!(r.confirmed_action(), AppAction::SaveTrack("s3".to_string()));
    assert!(m.toggle_like(None, true).is_none());
}

#[test]
fn queue_menu_lists_artists_then_link_then_dequeue() {
    let m = NowPlayingModel::new();
    let menu = m.menu_for(&artists());
    let labels: Vec<SongMenuLabel> = menu.iter().map(|e| e.label.clone()).collect();
    let actions: Vec<String> = menu.iter().map(|e| e.action.clone()).collect();
    assert_eq!(
        labels,
        vec![
            SongMenuLabel::ViewAlbum,
            SongMenuLabel::MoreFrom("Ann".to_string()),
            SongMenuLabel::MoreFrom("Bo".to_string()),
            SongMenuLabel::CopyLink,
            SongMenuLabel::RemoveFromQueue,
        ]
    );
    assert_eq!(
        actions,
        vec![
            "song.view_album",
            "song.view_artist_a1",
            "song.view_artist_a2",
            "song.copy_link",
            "song.dequeue"
        ]
    );
    let plain = song_menu(&vec![], false);
    assert_eq!(plain.len(), 2);
    assert_eq!(plain[1].action, "song.copy_link");
}

fn facts() -> DetailsPageFacts {
    DetailsPageFacts {
        has_play_button: true,
        source_is_playing: true,
        refreshes_details: false,
        refreshes_liked: false,
        has_like_button: true,
        is_liked: true,
        like_visible: false,
    }
}

#[test]
fn details_page_events() {
    let play = AppEvent::BrowserEvent(BrowserEvent::SongPlaybackRequested("s".into()));
    let o = details_event_outcome(&play, facts());
    assert_eq!(o.start_play, Some("s".to_string()));
    assert!(o.consumed);

    let mut f = facts();
    f.has_play_button = false;
    let o = details_event_outcome(&play, f);
    assert!(!o.consumed && o.start_play.is_none());

    let mut f = facts();
    f.refreshes_details = true;
    let o = details_event_outcome(&AppEvent::Other, f);
    assert!(o.refresh_details && o.consumed);
    assert_eq!(o.set_playing, Some(true));

    let mut f = facts();
    f.refreshes_liked = true;
    let o = details_event_outcome(&AppEvent::Other, f);
    assert_eq!(o.set_liked, Some(true));
    assert!(o.hide_like && o.consumed);

    let paused = AppEvent::PlaybackEvent(PlaybackEvent::PlaybackPaused);
    let o = details_event_outcome(&paused, facts());
    assert_eq!(o.set_playing, Some(false));
    assert!(o.consumed);

    let o = details_event_outcome(&AppEvent::Other, facts());
    assert!(!o.consumed);
}

#[test]
fn header_refresh_plan() {
    let r = header_refresh(Some("T".into()), None, 0, Some("C".into()), true, false, true);
    assert_eq!(r.details, Some(("T".to_string(), String::new())));
    assert!(!r.show_links);
    assert_eq!(r.caption, Some("C".to_string()));
    assert_eq!(r.liked, Some(false));
    assert!(!r.hide_like);
    let r = header_refresh(None, Some("S".into()), 2, None, false, true, false);
    assert_eq!(r.details, None);
    assert!(r.show_links);
    assert_eq!(r.liked, None);
    assert!(!r.hide_like);
}

#[test]
fn header_buttons() {
    assert_eq!(play_button_look(true), ("media-playback-pause-symbolic", PlayTooltip::Pause));
    assert_eq!(play_button_look(false), ("media-playback-start-symbolic", PlayTooltip::Play));
    assert_eq!(like_icon(true), "starred-symbolic");
    assert_eq!(like_icon(false), "non-starred-symbolic");
}

#[test]
fn subtitle_links_are_separated() {
    let pieces = subtitle_pieces(&artists());
    assert_eq!(
        pieces,
        vec![
            SubtitlePiece::Link("a1".to_string(), "Ann".to_string()),
            SubtitlePiece::Separator,
            SubtitlePiece::Link("a2".to_string(), "Bo".to_string()),
        ]
    );
    assert!(subtitle_pieces(&vec![]).is_empty());
}

#[test]
fn card_pages_react_to_login() {
    assert_eq!(
        card_page_reaction(&AppEvent::LoginEvent(LoginEvent::LoginCompleted)),
        CardPageReaction::ShowPlaceholdersAndRefresh
    );
    assert_eq!(
        card_page_reaction(&AppEvent::LoginEvent(LoginEvent::LogoutCompleted)),
        CardPageReaction::Clear
    );
    assert_eq!(
        card_page_reaction(&AppEvent::BrowserEvent(BrowserEvent::CardSizeChanged)),
        CardPageReaction::UpdateCards
    );
    assert_eq!(card_page_reaction(&AppEvent::Started), CardPageReaction::Nothing);
}

#[test]
fn login_window_steps() {
    assert_eq!(
        login_window_step(&AppEvent::LoginEvent(LoginEvent::LoginCompleted)),
        LoginWindowStep::Hide
    );
    assert_eq!(
        login_window_step(&AppEvent::LoginEvent(LoginEvent::LoginStartedAtUrl("u".into()))),
        LoginWindowStep::OpenUrl("u".to_string())
    );
    assert_eq!(login_window_step(&AppEvent::Started), LoginWindowStep::TryAutologin);
    assert_eq!(
        login_window_step(&AppEvent::LoginEvent(LoginEvent::LoginShown)),
        LoginWindowStep::Show
    );
    assert_eq!(login_window_step(&AppEvent::Raised), LoginWindowStep::Nothing);
    assert_eq!(login_status_page(&LoginWindowStep::ShowNotPremium), Some("error"));
    assert_eq!(login_status_page(&LoginWindowStep::ShowLoginError), Some("login_error"));
    assert_eq!(login_status_page(&LoginWindowStep::Hide), Some("notice"));
    assert_eq!(login_status_page(&LoginWindowStep::Show), None);
}

#[test]
fn now_playing_empty_state() {
    assert_eq!(now_playing_page(true), "content");
    assert_eq!(now_playing_page(false), "empty");
    assert!(now_playing_rechecks_song(&AppEvent::PlaybackEvent(PlaybackEvent::PlaybackStopped)));
    assert!(!now_playing_rechecks_song(&AppEvent::PlaybackEvent(PlaybackEvent::PlaybackPaused)));
}

#[test]
fn playlist_rename() {
    assert_eq!(playlist_rename_step(true, false, "New", Some("Old")), RenameStep::Rename("New".into()));
    assert_eq!(
        playlist_rename_step(true, false, "", Some("Old")),
        RenameStep::RestoreTitle("Old".into())
    );
    assert_eq!(
        playlist_rename_step(true, false, "Old", Some("Old")),
        RenameStep::RestoreTitle("Old".into())
    );
    assert_eq!(playlist_rename_step(true, true, "New", Some("Old")), RenameStep::Nothing);
    assert_eq!(playlist_rename_step(false, false, "New", Some("Old")), RenameStep::Nothing);
    assert_eq!(playlist_rename_step(true, false, "New", None), RenameStep::Nothing);
}

#[test]
fn saved_artists_reload_from_the_start() {
    let m = SavedArtistsModel::new();
    assert_eq!(m.refresh_request(), (None, 30));
}

#[test]
fn details_pages_start_by_loading_what_is_missing() {
    assert_eq!(details_start(true), DetailsStart::RefreshDetails);
    assert_eq!(details_start(false), DetailsStart::LoadPageInfo);
}

#[test]
fn header_bar_changes_only_when_crossing_the_threshold() {
    let mut h = riff::pages::HeaderCollapse::new();
    assert_eq!(h.on_scroll(false), None);
    assert_eq!(h.on_scroll(true), Some(true));
    assert_eq!(h.on_scroll(true), None);
    assert_eq!(h.on_scroll(false), Some(false));
    assert_eq!(h.on_scroll(false), None);
}
