use riff::actions::AppAction;
use riff::pages::{AppEvent, BrowserEvent};
use riff::search::{
    load_more_scope, FilterPresentation, ImageShape, LoadingPlaceholders, ResultsPage,
    SearchPageReaction, SearchRequest, SearchResultsModel, SearchScopeCardsModel, SearchState,
    SearchType, COMBINED_RESULTS_LIMIT, SEARCH_DEBOUNCE_MS,
};

fn state(query: &str, filter: Option<SearchType>, next: Option<usize>) -> SearchState {
    SearchState { query: query.to_string(), filter, next_offset: next, batch_size: 30 }
}

#[test]
fn scoped_pages_load_only_for_their_filter() {
    let s = state("jazz", Some(SearchType::Albums), Some(30));
    let r = load_more_scope(Some(&s), SearchType::Albums).unwrap();
    assert_eq!((r.query.as_str(), r.search_type, r.offset, r.batch_size), ("jazz", SearchType::Albums, 30, 30));
    assert!(load_more_scope(Some(&s), SearchType::Artists).is_none());
    assert!(load_more_scope(Some(&state("  ", Some(SearchType::Albums), Some(30))), SearchType::Albums).is_none());
    assert!(load_more_scope(Some(&state("jazz", Some(SearchType::Albums), None)), SearchType::Albums).is_none());
    assert!(load_more_scope(None, SearchType::Albums).is_none());
}

#[test]
fn search_model_actions() {
    let m = SearchResultsModel::new();
    assert_eq!(m.go_back(), AppAction::NavigationPop);
    assert_eq!(m.search("q".to_string()), AppAction::Search("q".to_string()));
    assert_eq!(m.set_filter(Some(SearchType::Tracks)), AppAction::SetSearchFilter(Some(SearchType::Tracks)));
    let s = state("q", Some(SearchType::Tracks), None);
    assert_eq!(m.get_filter(Some(&s)), Some(SearchType::Tracks));
    assert_eq!(m.get_query(Some(&s)), Some("q".to_string()));
    assert!(m.has_query(Some(&s)));
    assert!(!m.has_query(Some(&state("", None, None))));
    assert!(!m.has_query(None));
}

#[test]
fn opened_track_plays_once_its_album_loaded() {
    let mut m = SearchResultsModel::new();
    assert_eq!(m.open_track("song".to_string(), "album".to_string()), AppAction::ViewAlbum("album".to_string()));
    assert_eq!(m.on_album_loaded("other"), None);
    assert_eq!(m.on_album_loaded("album"), None);
    m.open_track("song".to_string(), "album".to_string());
    assert_eq!(m.on_album_loaded("album"), Some(AppAction::PlaySong("song".to_string())));
    assert_eq!(m.on_album_loaded("album"), None);
}

#[test]
fn fetching_results() {
    let m = SearchResultsModel::new();
    assert_eq!(COMBINED_RESULTS_LIMIT, 24);
    assert_eq!(SEARCH_DEBOUNCE_MS, 600);
    assert_eq!(
        m.fetch_results(Some(&state("rock", None, None)), 50),
        Some(SearchRequest::Combined("rock".to_string(), 0, 24))
    );
    assert_eq!(
        m.fetch_results(Some(&state("rock", Some(SearchType::Artists), None)), 50),
        Some(SearchRequest::Scoped("rock".to_string(), SearchType::Artists, 0, 50))
    );
    assert_eq!(m.fetch_results(Some(&state("", None, None)), 50), None);
    assert_eq!(m.fetch_results(None, 50), None);
}

#[test]
fn filter_presentations() {
    let m = SearchResultsModel::new();
    assert_eq!(
        m.on_filter_changed(Some(&state("q", None, None))),
        FilterPresentation { page: ResultsPage::All, view_menu_visible: true, rebind_scope_cards: false, search_again: true }
    );
    assert_eq!(
        m.on_filter_changed(Some(&state("", Some(SearchType::Tracks), None))),
        FilterPresentation { page: ResultsPage::Tracks, view_menu_visible: false, rebind_scope_cards: false, search_again: false }
    );
    assert_eq!(
        m.on_filter_changed(Some(&state("q", Some(SearchType::Playlists), None))),
        FilterPresentation { page: ResultsPage::Cards, view_menu_visible: true, rebind_scope_cards: true, search_again: true }
    );
    assert_eq!(m.loading_placeholders(None), LoadingPlaceholders::AllSections);
    assert_eq!(m.loading_placeholders(Some(SearchType::Tracks)), LoadingPlaceholders::Nothing);
    assert_eq!(m.loading_placeholders(Some(SearchType::Albums)), LoadingPlaceholders::ScopeCards);
    assert!(m.removes_scope_placeholders(None));
    assert!(!m.removes_scope_placeholders(Some(SearchType::Tracks)));
}

#[test]
fn filter_buttons() {
    let m = SearchResultsModel::new();
    assert_eq!(m.filter_toggled(true, SearchType::Albums, true), None);
    assert_eq!(m.filter_toggled(false, SearchType::Albums, true), Some(Some(SearchType::Albums)));
    assert_eq!(m.filter_toggled(false, SearchType::Albums, false), Some(None));
    assert_eq!(m.filter_button_states(Some(SearchType::Playlists)), (vec![false, false, true, false], true));
    assert_eq!(m.filter_button_states(None), (vec![false; 4], false));
}

#[test]
fn combined_sections() {
    let mut m = SearchResultsModel::new();
    assert_eq!(
        m.sections(),
        vec![
            (SearchType::Tracks, ImageShape::Square),
            (SearchType::Artists, ImageShape::Round),
            (SearchType::Albums, ImageShape::Square),
            (SearchType::Playlists, ImageShape::Square),
        ]
    );
    assert_eq!(m.open_section_card(SearchType::Artists, "a".into()), Some(AppAction::ViewArtist("a".into())));
    assert_eq!(m.open_section_card(SearchType::Tracks, "t".into()), None);
    let tracks = vec![("t1".to_string(), "al1".to_string()), ("t2".to_string(), "al2".to_string())];
    assert_eq!(m.open_track_card(&tracks, "t2"), Some(AppAction::ViewAlbum("al2".into())));
    assert_eq!(m.on_album_loaded("al2"), Some(AppAction::PlaySong("t2".into())));
    assert_eq!(m.open_track_card(&tracks, "zz"), None);
    assert_eq!(m.open_track_card(&tracks, ""), None);
}

#[test]
fn search_page_reactions() {
    let m = SearchResultsModel::new();
    assert_eq!(m.reaction_to(&AppEvent::BrowserEvent(BrowserEvent::SearchUpdated)), SearchPageReaction::FocusAndSearch);
    assert_eq!(m.reaction_to(&AppEvent::BrowserEvent(BrowserEvent::AlbumDetailsLoaded("x".into()))), SearchPageReaction::AlbumLoaded);
    assert_eq!(m.reaction_to(&AppEvent::BrowserEvent(BrowserEvent::CardLayoutChanged)), SearchPageReaction::UpdateCards);
    assert_eq!(m.reaction_to(&AppEvent::Other), SearchPageReaction::Nothing);
}

#[test]
fn scoped_card_view() {
    let m = SearchScopeCardsModel::new();
    let s = state("q", Some(SearchType::Artists), Some(10));
    assert_eq!(m.filter(Some(&s)), Some(SearchType::Artists));
    assert!(m.has_more(Some(&s)));
    assert!(m.load_more(Some(&s)).is_some());
    assert!(m.load_more(Some(&state("q", Some(SearchType::Tracks), Some(10)))).is_none());
    assert_eq!(m.open_item(Some(&s), "x".into()), Some(AppAction::ViewArtist("x".into())));
    assert_eq!(m.image_shape(Some(&s)), ImageShape::Round);
    assert_eq!(m.image_shape(None), ImageShape::Square);
    assert_eq!(m.open_item(None, "x".into()), None);
}
