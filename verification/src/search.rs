//! Decision logic of the search page: what a search, a filter change, a click
//! on a result or a scroll to the bottom asks the application to do.
//!
//! The browser's search state is read as a [`SearchState`]; the models answer
//! with [`AppAction`]s or page requests for the application to perform.

use vstd::prelude::*;

use crate::actions::{action_view, AppAction, AppActionView};
use crate::pages::{AppEvent, BrowserEvent};
use crate::text::{trim, trimmed};

verus! {

/// The kinds of result a search can be narrowed to.
#[derive(Clone, Copy, Debug, PartialEq, Eq, Structural)]
pub enum SearchType {
    Artists,
    Albums,
    Playlists,
    Tracks,
}

/// How card artwork is clipped.
#[derive(Clone, Copy, Debug, PartialEq, Eq, Structural)]
pub enum ImageShape {
    Round,
    Square,
}

/// The part of the browser's search state the search page reads.
pub struct SearchState {
    pub query: String,
    /// `None` shows the combined results.
    pub filter: Option<SearchType>,
    /// Offset of the next page of scoped results, if there is one.
    pub next_offset: Option<usize>,
    /// Number of results per scoped page.
    pub batch_size: usize,
}

/// A request for the next page of scoped results.
pub struct ScopePageRequest {
    pub query: String,
    pub search_type: SearchType,
    pub offset: usize,
    pub batch_size: usize,
}

/// The filter in effect, if any.
pub open spec fn filter_of(state: Option<&SearchState>) -> Option<SearchType> {
    match state {
        Some(s) => s.filter,
        None => None,
    }
}

/// The next scoped page to load, when the state still shows `search_type`,
/// has a further page, and holds a query that is not blank.
pub open spec fn scope_page_spec(state: Option<&SearchState>, search_type: SearchType) -> Option<
    (Seq<char>, SearchType, usize, usize),
> {
    match state {
        None => None,
        Some(s) => if s.filter != Some(search_type) || s.next_offset.is_none() || trim(
            s.query@,
        ).len() == 0 {
            None
        } else {
            Some((s.query@, search_type, s.next_offset.unwrap(), s.batch_size))
        },
    }
}

pub open spec fn scope_request_view(r: Option<ScopePageRequest>) -> Option<
    (Seq<char>, SearchType, usize, usize),
> {
    match r {
        Some(p) => Some((p.query@, p.search_type, p.offset, p.batch_size)),
        None => None,
    }
}

/// The page of scoped results (artists, albums, playlists or tracks) to load
/// next, if any; the application marks it consumed and fetches it.
pub fn load_more_scope(state: Option<&SearchState>, search_type: SearchType) -> (r: Option<
    ScopePageRequest,
>)
    ensures
        scope_request_view(r) == scope_page_spec(state, search_type),
{
    let s = match state {
        Some(s) => s,
        None => return None,
    };
    if s.filter != Some(search_type) {
        return None;
    }
    let offset = match s.next_offset {
        Some(o) => o,
        None => return None,
    };
    if trimmed(s.query.as_str()).unicode_len() == 0 {
        return None;
    }
    Some(
        ScopePageRequest {
            query: s.query.clone(),
            search_type,
            offset,
            batch_size: s.batch_size,
        },
    )
}

/// What an album finishing loading starts: the queued track (as `(track id,
/// album id)`), when it belongs to that album.
pub open spec fn album_loaded_spec(queued: Option<(Seq<char>, Seq<char>)>, id: Seq<char>) -> Option<
    AppActionView,
> {
    match queued {
        Some(q) => if q.1 == id {
            Some(AppActionView::PlaySong(q.0))
        } else {
            None
        },
        None => None,
    }
}

/// A track opened from the search results starts playing once its album has
/// loaded, and the loading of any other album starts nothing.
pub proof fn law_opened_track_plays_when_its_album_loads(
    song: Seq<char>,
    album: Seq<char>,
    loaded: Seq<char>,
)
    ensures
        album_loaded_spec(Some((song, album)), album) == Some(AppActionView::PlaySong(song)),
        loaded != album ==> album_loaded_spec(Some((song, album)), loaded) is None,
        album_loaded_spec(None, loaded) is None,
{
}

/// The search page's own state: the track whose album is being opened, so that
/// it can start playing once the album has loaded.
pub struct SearchResultsModel {
    queued_song: Option<(String, String)>,
}

impl SearchResultsModel {
    /// The queued track as (track id, album id).
    pub closed spec fn queued(&self) -> Option<(Seq<char>, Seq<char>)> {
        match self.queued_song {
            Some(q) => Some((q.0@, q.1@)),
            None => None,
        }
    }

    pub fn new() -> (r: SearchResultsModel)
        ensures
            r.queued() is None,
    {
        SearchResultsModel { queued_song: None }
    }

    pub fn go_back(&self) -> (r: AppAction)
        ensures
            r@ == AppActionView::NavigationPop,
    {
        AppAction::NavigationPop
    }

    pub fn search(&self, query: String) -> (r: AppAction)
        ensures
            r@ == AppActionView::Search(query@),
    {
        AppAction::Search(query)
    }

    /// Set the active filter (`None` = combined results); this re-runs the search.
    pub fn set_filter(&self, filter: Option<SearchType>) -> (r: AppAction)
        ensures
            r@ == AppActionView::SetSearchFilter(filter),
    {
        AppAction::SetSearchFilter(filter)
    }

    pub fn get_filter(&self, state: Option<&SearchState>) -> (r: Option<SearchType>)
        ensures
            r == filter_of(state),
    {
        match state {
            Some(s) => s.filter,
            None => None,
        }
    }

    /// The current query, unless there is none or it is empty.
    pub fn get_query(&self, state: Option<&SearchState>) -> (r: Option<String>)
        ensures
            match state {
                Some(s) => if s.query@.len() == 0 {
                    r is None
                } else {
                    r is Some && r->0@ == s.query@
                },
                None => r is None,
            },
    {
        match state {
            Some(s) => if s.query.as_str().unicode_len() == 0 {
                None
            } else {
                Some(s.query.clone())
            },
            None => None,
        }
    }

    pub fn has_query(&self, state: Option<&SearchState>) -> (r: bool)
        ensures
            r == (state is Some && state->0.query@.len() > 0),
    {
        self.get_query(state).is_some()
    }

    /// Open a track found by the search: its album is shown, and the track is
    /// remembered so that it plays once the album has loaded.
    pub fn open_track(&mut self, song_id: String, album_id: String) -> (r: AppAction)
        ensures
            final(self).queued() == Some((song_id@, album_id@)),
            r@ == AppActionView::ViewAlbum(album_id@),
    {
        let view = AppAction::ViewAlbum(album_id.clone());
        self.queued_song = Some((song_id, album_id));
        view
    }

    /// An album finished loading: the queued track plays if it belongs to that
    /// album. The queued track is forgotten either way.
    pub fn on_album_loaded(&mut self, id: &str) -> (r: Option<AppAction>)
        ensures
            final(self).queued() is None,
            action_view(r) == album_loaded_spec(old(self).queued(), id@),
    {
        let queued = self.queued_song.take();
        match queued {
            Some((song_id, album_id)) => {
                if crate::text::str_equals(album_id.as_str(), id) {
                    Some(AppAction::PlaySong(song_id))
                } else {
                    None
                }
            },
            None => None,
        }
    }

    pub fn open_album(&self, id: String) -> (r: AppAction)
        ensures
            r@ == AppActionView::ViewAlbum(id@),
    {
        AppAction::ViewAlbum(id)
    }

    pub fn open_artist(&self, id: String) -> (r: AppAction)
        ensures
            r@ == AppActionView::ViewArtist(id@),
    {
        AppAction::ViewArtist(id)
    }

    pub fn open_playlist(&self, id: String) -> (r: AppAction)
        ensures
            r@ == AppActionView::ViewPlaylist(id@),
    {
        AppAction::ViewPlaylist(id)
    }
}

/// How many results of each kind the combined view asks for.
pub const COMBINED_RESULTS_LIMIT: usize = 24;

/// How long the search page waits after the last keystroke before searching,
/// in milliseconds.
pub const SEARCH_DEBOUNCE_MS: u32 = 600;

/// The request that fetches search results.
#[derive(Clone, Debug, PartialEq, Eq)]
pub enum SearchRequest {
    /// The combined results for a query, from an offset, up to a limit.
    Combined(String, usize, usize),
    /// Results of one kind for a query, from an offset, up to a limit.
    Scoped(String, SearchType, usize, usize),
}

pub enum SearchRequestView {
    Combined(Seq<char>, usize, usize),
    Scoped(Seq<char>, SearchType, usize, usize),
}

impl View for SearchRequest {
    type V = SearchRequestView;

    open spec fn view(&self) -> SearchRequestView {
        match self {
            SearchRequest::Combined(q, o, l) => SearchRequestView::Combined(q@, *o, *l),
            SearchRequest::Scoped(q, t, o, l) => SearchRequestView::Scoped(q@, *t, *o, *l),
        }
    }
}

/// The search to run for the state: none without a query; the combined
/// results when no filter is set, else the first page of the filtered kind.
pub open spec fn fetch_spec(state: Option<&SearchState>, card_batch_size: usize) -> Option<
    SearchRequestView,
> {
    match state {
        Some(s) => if s.query@.len() == 0 {
            None
        } else {
            match s.filter {
                None => Some(SearchRequestView::Combined(s.query@, 0, COMBINED_RESULTS_LIMIT)),
                Some(t) => Some(SearchRequestView::Scoped(s.query@, t, 0, card_batch_size)),
            }
        },
        None => None,
    }
}

/// The three presentations of the search page.
#[derive(Clone, Copy, Debug, PartialEq, Eq, Structural)]
pub enum ResultsPage {
    /// The combined sections.
    All,
    /// The list of tracks.
    Tracks,
    /// The grid of artists, albums or playlists.
    Cards,
}

/// How the page looks after the filter changed.
#[derive(Clone, Copy, Debug, PartialEq, Eq, Structural)]
pub struct FilterPresentation {
    pub page: ResultsPage,
    /// The card layout menu is hidden on the track list.
    pub view_menu_visible: bool,
    /// The card grid is bound again so that the right image shape applies.
    pub rebind_scope_cards: bool,
    /// The search runs again when there is a query.
    pub search_again: bool,
}

pub open spec fn presentation_spec(filter: Option<SearchType>, has_query: bool) -> FilterPresentation {
    FilterPresentation {
        page: match filter {
            None => ResultsPage::All,
            Some(SearchType::Tracks) => ResultsPage::Tracks,
            Some(_) => ResultsPage::Cards,
        },
        view_menu_visible: filter != Some(SearchType::Tracks),
        rebind_scope_cards: filter is Some && filter != Some(SearchType::Tracks),
        search_again: has_query,
    }
}

/// The loading state shown while a search runs.
#[derive(Clone, Copy, Debug, PartialEq, Eq, Structural)]
pub enum LoadingPlaceholders {
    /// Every combined section is emptied and shows placeholders.
    AllSections,
    /// The card grid shows placeholders.
    ScopeCards,
    /// The track list shows its own loading state.
    Nothing,
}

/// The filter buttons of the popover, in their order.
pub open spec fn filter_buttons_spec() -> Seq<SearchType> {
    seq![SearchType::Artists, SearchType::Albums, SearchType::Playlists, SearchType::Tracks]
}

/// The sections of the combined view, in order, with their artwork shapes.
pub open spec fn sections_spec() -> Seq<(SearchType, ImageShape)> {
    seq![
        (SearchType::Tracks, ImageShape::Square),
        (SearchType::Artists, ImageShape::Round),
        (SearchType::Albums, ImageShape::Square),
        (SearchType::Playlists, ImageShape::Square),
    ]
}

/// The first position holding `id` among the first `n` tracks, if any.
pub open spec fn first_with_id(tracks: Seq<(String, String)>, id: Seq<char>, n: int) -> Option<int>
    decreases n,
{
    if n <= 0 {
        None
    } else {
        match first_with_id(tracks, id, n - 1) {
            Some(i) => Some(i),
            None => if tracks[n - 1].0@ == id {
                Some(n - 1)
            } else {
                None
            },
        }
    }
}

proof fn lemma_first_with_id(tracks: Seq<(String, String)>, id: Seq<char>, n: int)
    requires
        0 <= n <= tracks.len(),
    ensures
        match first_with_id(tracks, id, n) {
            Some(i) => 0 <= i < n && tracks[i].0@ == id && forall|j: int|
                0 <= j < i ==> tracks[j].0@ != id,
            None => forall|j: int| 0 <= j < n ==> tracks[j].0@ != id,
        },
    decreases n,
{
    if n > 0 {
        lemma_first_with_id(tracks, id, n - 1);
    }
}

/// What the search page does with an event.
#[derive(Clone, Copy, Debug, PartialEq, Eq, Structural)]
pub enum SearchPageReaction {
    /// Take the focus and search again.
    FocusAndSearch,
    /// Apply the new filter.
    ApplyFilter,
    /// Show the new combined results.
    UpdateResults,
    /// New scoped results arrived.
    ScopeUpdated,
    /// An album finished loading (a queued track may start).
    AlbumLoaded,
    /// The card layout or size changed: every grid follows.
    UpdateCards,
    Nothing,
}

impl SearchResultsModel {
    /// The search to run now, if any.
    pub fn fetch_results(&self, state: Option<&SearchState>, card_batch_size: usize) -> (r: Option<
        SearchRequest,
    >)
        ensures
            match r {
                Some(q) => fetch_spec(state, card_batch_size) == Some(q@),
                None => fetch_spec(state, card_batch_size) is None,
            },
    {
        let query = match self.get_query(state) {
            Some(q) => q,
            None => return None,
        };
        match self.get_filter(state) {
            None => Some(SearchRequest::Combined(query, 0, COMBINED_RESULTS_LIMIT)),
            Some(t) => Some(SearchRequest::Scoped(query, t, 0, card_batch_size)),
        }
    }

    /// How the page presents the filter just chosen.
    pub fn on_filter_changed(&self, state: Option<&SearchState>) -> (r: FilterPresentation)
        ensures
            r == presentation_spec(
                filter_of(state),
                state is Some && state->0.query@.len() > 0,
            ),
    {
        let filter = self.get_filter(state);
        let page = match filter {
            None => ResultsPage::All,
            Some(SearchType::Tracks) => ResultsPage::Tracks,
            Some(_) => ResultsPage::Cards,
        };
        let is_tracks = match filter {
            Some(SearchType::Tracks) => true,
            _ => false,
        };
        FilterPresentation {
            page,
            view_menu_visible: !is_tracks,
            rebind_scope_cards: filter.is_some() && !is_tracks,
            search_again: self.has_query(state),
        }
    }

    /// The loading state while a search for the filter runs.
    pub fn loading_placeholders(&self, filter: Option<SearchType>) -> (r: LoadingPlaceholders)
        ensures
            r == match filter {
                None => LoadingPlaceholders::AllSections,
                Some(SearchType::Tracks) => LoadingPlaceholders::Nothing,
                Some(_) => LoadingPlaceholders::ScopeCards,
            },
    {
        match filter {
            None => LoadingPlaceholders::AllSections,
            Some(SearchType::Tracks) => LoadingPlaceholders::Nothing,
            Some(_) => LoadingPlaceholders::ScopeCards,
        }
    }

    /// New scoped results replace the grid's placeholders, unless the track
    /// list is shown.
    pub fn removes_scope_placeholders(&self, filter: Option<SearchType>) -> (r: bool)
        ensures
            r == (filter != Some(SearchType::Tracks)),
    {
        match filter {
            Some(SearchType::Tracks) => false,
            _ => true,
        }
    }

    /// The filter selected when a filter button is toggled: its kind when it
    /// became active, the combined results when it was switched off, and
    /// nothing while the buttons are being updated from the state.
    pub fn filter_toggled(&self, updating: bool, button: SearchType, active: bool) -> (r: Option<
        Option<SearchType>,
    >)
        ensures
            r == if updating {
                None::<Option<SearchType>>
            } else if active {
                Some(Some(button))
            } else {
                Some(None::<SearchType>)
            },
    {
        if updating {
            None
        } else if active {
            Some(Some(button))
        } else {
            Some(None)
        }
    }

    /// Which filter buttons show as active (artists, albums, playlists,
    /// tracks), and whether the filter button is highlighted.
    pub fn filter_button_states(&self, filter: Option<SearchType>) -> (r: (Vec<bool>, bool))
        ensures
            r.0.len() == 4,
            forall|i: int| 0 <= i < 4 ==> r.0@[i] == (filter == Some(filter_buttons_spec()[i])),
            r.1 == filter is Some,
    {
        let mut v: Vec<bool> = Vec::new();
        v.push(filter == Some(SearchType::Artists));
        v.push(filter == Some(SearchType::Albums));
        v.push(filter == Some(SearchType::Playlists));
        v.push(filter == Some(SearchType::Tracks));
        (v, filter.is_some())
    }

    /// The sections of the combined view and their artwork shapes.
    pub fn sections(&self) -> (r: Vec<(SearchType, ImageShape)>)
        ensures
            r@ == sections_spec(),
    {
        let mut v: Vec<(SearchType, ImageShape)> = Vec::new();
        v.push((SearchType::Tracks, ImageShape::Square));
        v.push((SearchType::Artists, ImageShape::Round));
        v.push((SearchType::Albums, ImageShape::Square));
        v.push((SearchType::Playlists, ImageShape::Square));
        assert(v@ =~= sections_spec());
        v
    }

    /// A card of the combined view was activated: artists, albums and
    /// playlists open their page; a track is opened through its album (see
    /// `open_track_card`).
    pub fn open_section_card(&self, section: SearchType, id: String) -> (r: Option<AppAction>)
        ensures
            action_view(r) == match section {
                SearchType::Artists => Some(AppActionView::ViewArtist(id@)),
                SearchType::Albums => Some(AppActionView::ViewAlbum(id@)),
                SearchType::Playlists => Some(AppActionView::ViewPlaylist(id@)),
                SearchType::Tracks => None,
            },
    {
        match section {
            SearchType::Artists => Some(self.open_artist(id)),
            SearchType::Albums => Some(self.open_album(id)),
            SearchType::Playlists => Some(self.open_playlist(id)),
            SearchType::Tracks => None,
        }
    }

    /// A track card was activated: the first track shown with that id (as
    /// `(track id, album id)`) is opened; an empty id or an unknown one does
    /// nothing.
    pub fn open_track_card(&mut self, tracks: &Vec<(String, String)>, id: &str) -> (r: Option<
        AppAction,
    >)
        ensures
            match first_with_id(tracks@, id@, tracks.len() as int) {
                Some(i) => id@.len() > 0 ==> (action_view(r) == Some(
                    AppActionView::ViewAlbum(tracks@[i].1@),
                ) && final(self).queued() == Some((tracks@[i].0@, tracks@[i].1@))),
                None => r is None && final(self).queued() == old(self).queued(),
            },
            id@.len() == 0 ==> r is None && final(self).queued() == old(self).queued(),
    {
        if id.unicode_len() == 0 {
            return None;
        }
        let mut i: usize = 0;
        while i < tracks.len()
            invariant
                i <= tracks.len(),
                first_with_id(tracks@, id@, i as int) is None,
                id@.len() > 0,
                self.queued() == old(self).queued(),
            decreases tracks.len() - i,
        {
            proof {
                lemma_first_with_id(tracks@, id@, i as int);
            }
            if crate::text::str_equals(tracks[i].0.as_str(), id) {
                proof {
                    assert(first_with_id(tracks@, id@, (i + 1) as int) == Some(i as int));
                    lemma_first_with_id(tracks@, id@, (i + 1) as int);
                    lemma_first_with_id(tracks@, id@, tracks.len() as int);
                    lemma_first_unique(tracks@, id@, (i + 1) as int, tracks.len() as int);
                }
                let song = tracks[i].0.clone();
                let album = tracks[i].1.clone();
                return Some(self.open_track(song, album));
            }
            i = i + 1;
        }
        None
    }

    /// What the page does with an event.
    pub fn reaction_to(&self, event: &AppEvent) -> (r: SearchPageReaction)
        ensures
            r == match event {
                AppEvent::BrowserEvent(BrowserEvent::SearchUpdated) => SearchPageReaction::FocusAndSearch,
                AppEvent::BrowserEvent(BrowserEvent::SearchFilterChanged) => SearchPageReaction::ApplyFilter,
                AppEvent::BrowserEvent(BrowserEvent::SearchResultsUpdated) => SearchPageReaction::UpdateResults,
                AppEvent::BrowserEvent(BrowserEvent::SearchScopeUpdated) => SearchPageReaction::ScopeUpdated,
                AppEvent::BrowserEvent(BrowserEvent::AlbumDetailsLoaded(_)) => SearchPageReaction::AlbumLoaded,
                AppEvent::BrowserEvent(BrowserEvent::CardLayoutChanged) => SearchPageReaction::UpdateCards,
                AppEvent::BrowserEvent(BrowserEvent::CardSizeChanged) => SearchPageReaction::UpdateCards,
                _ => SearchPageReaction::Nothing,
            },
    {
        match event {
            AppEvent::BrowserEvent(BrowserEvent::SearchUpdated) => SearchPageReaction::FocusAndSearch,
            AppEvent::BrowserEvent(BrowserEvent::SearchFilterChanged) => SearchPageReaction::ApplyFilter,
            AppEvent::BrowserEvent(BrowserEvent::SearchResultsUpdated) => SearchPageReaction::UpdateResults,
            AppEvent::BrowserEvent(BrowserEvent::SearchScopeUpdated) => SearchPageReaction::ScopeUpdated,
            AppEvent::BrowserEvent(BrowserEvent::AlbumDetailsLoaded(_)) => SearchPageReaction::AlbumLoaded,
            AppEvent::BrowserEvent(BrowserEvent::CardLayoutChanged) => SearchPageReaction::UpdateCards,
            AppEvent::BrowserEvent(BrowserEvent::CardSizeChanged) => SearchPageReaction::UpdateCards,
            _ => SearchPageReaction::Nothing,
        }
    }
}

/// Once a position with `id` is found, no later bound finds another.
proof fn lemma_first_unique(tracks: Seq<(String, String)>, id: Seq<char>, n: int, m: int)
    requires
        0 <= n <= m,
        first_with_id(tracks, id, n) is Some,
    ensures
        first_with_id(tracks, id, m) == first_with_id(tracks, id, n),
    decreases m - n,
{
    if m > n {
        lemma_first_unique(tracks, id, n, m - 1);
    }
}

/// The card view of a scoped search (artists, albums or playlists).
pub struct SearchScopeCardsModel {}

impl SearchScopeCardsModel {
    pub fn new() -> (r: SearchScopeCardsModel) {
        SearchScopeCardsModel {  }
    }

    pub fn filter(&self, state: Option<&SearchState>) -> (r: Option<SearchType>)
        ensures
            r == filter_of(state),
    {
        match state {
            Some(s) => s.filter,
            None => None,
        }
    }

    /// Whether a further page of results exists.
    pub fn has_more(&self, state: Option<&SearchState>) -> (r: bool)
        ensures
            r == (state is Some && state->0.next_offset is Some),
    {
        match state {
            Some(s) => s.next_offset.is_some(),
            None => false,
        }
    }

    /// The next page to load; the track view pages itself.
    pub fn load_more(&self, state: Option<&SearchState>) -> (r: Option<ScopePageRequest>)
        ensures
            match filter_of(state) {
                Some(t) => if t == SearchType::Tracks {
                    r is None
                } else {
                    scope_request_view(r) == scope_page_spec(state, t)
                },
                None => r is None,
            },
    {
        match self.filter(state) {
            Some(t) => if t == SearchType::Tracks {
                None
            } else {
                load_more_scope(state, t)
            },
            None => None,
        }
    }

    /// The page a clicked card opens, by the kind of result shown.
    pub fn open_item(&self, state: Option<&SearchState>, id: String) -> (r: Option<AppAction>)
        ensures
            action_view(r) == match filter_of(state) {
                Some(SearchType::Albums) => Some(AppActionView::ViewAlbum(id@)),
                Some(SearchType::Artists) => Some(AppActionView::ViewArtist(id@)),
                Some(SearchType::Playlists) => Some(AppActionView::ViewPlaylist(id@)),
                _ => None,
            },
    {
        match self.filter(state) {
            Some(SearchType::Albums) => Some(AppAction::ViewAlbum(id)),
            Some(SearchType::Artists) => Some(AppAction::ViewArtist(id)),
            Some(SearchType::Playlists) => Some(AppAction::ViewPlaylist(id)),
            _ => None,
        }
    }

    /// Artists are shown round, everything else square.
    pub fn image_shape(&self, state: Option<&SearchState>) -> (r: ImageShape)
        ensures
            r == if filter_of(state) == Some(SearchType::Artists) {
                ImageShape::Round
            } else {
                ImageShape::Square
            },
    {
        match self.filter(state) {
            Some(SearchType::Artists) => ImageShape::Round,
            _ => ImageShape::Square,
        }
    }
}

/// The next scoped page is the one the state points at: it is asked for
/// exactly when the state shows that kind of result, has a further page and a
/// query that is not blank; and then it carries the state's query, the kind,
/// the state's next offset and the state's page size.
pub proof fn law_scope_page_follows_the_state(state: Option<&SearchState>, t: SearchType)
    ensures
        scope_page_spec(state, t) is Some <==> (state matches Some(s) && s.filter == Some(t)
            && s.next_offset is Some && trim(s.query@).len() > 0),
        state matches Some(s) ==> (scope_page_spec(state, t) matches Some(p) ==> p.0 == s.query@
            && p.1 == t && Some(p.2) == s.next_offset && p.3 == s.batch_size),
{
}

} // verus!
