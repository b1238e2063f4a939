//! Decision logic of the detail and library pages: which events refresh them,
//! what a click opens, and which page of data to load next.

use vstd::prelude::*;

use crate::spotify_link::{law_web_link_parses_back, parse_spec, valid_web_id, web_link_spec, LinkKind};

use crate::actions::{AppAction, AppActionView};
use crate::card_list::SortOrder;
use crate::search::ImageShape;
use crate::text::str_equals;

verus! {

/// Playback events the pages react to.
#[derive(Clone, Debug, PartialEq, Eq)]
pub enum PlaybackEvent {
    PlaybackPaused,
    PlaybackResumed,
    TrackChanged(String),
    PlaybackStopped,
    /// Any other playback event.
    Other,
}

/// Browser events the pages react to.
#[derive(Clone, Debug, PartialEq, Eq)]
pub enum BrowserEvent {
    UserDetailsUpdated(String),
    SavedArtistsUpdated,
    SavedTracksUpdated,
    SavedPlaylistsUpdated,
    /// The user asked to play the song with this id.
    SongPlaybackRequested(String),
    SearchUpdated,
    SearchFilterChanged,
    SearchResultsUpdated,
    SearchScopeUpdated,
    AlbumDetailsLoaded(String),
    CardLayoutChanged,
    CardSizeChanged,
    /// Any other browser event.
    Other,
}

/// Login events the pages react to.
#[derive(Clone, Debug, PartialEq, Eq)]
pub enum LoginEvent {
    LoginCompleted,
    LogoutCompleted,
    /// The account is not a premium one.
    NotPremium,
    LoginFailed,
    /// The login started in the browser, at this address.
    LoginStartedAtUrl(String),
    /// The login window was asked for.
    LoginShown,
    /// Any other login event.
    Other,
}

/// The application events the pages look at.
#[derive(Clone, Debug, PartialEq, Eq)]
pub enum AppEvent {
    PlaybackEvent(PlaybackEvent),
    BrowserEvent(BrowserEvent),
    LoginEvent(LoginEvent),
    /// The application started.
    Started,
    /// The application was asked to come to the front.
    Raised,
    /// Any other event.
    Other,
}

/// Whether an event changes the play button: `Some(true)` when playback
/// resumed or the track changed, `Some(false)` when it paused, `None` otherwise.
pub fn is_playback_event(event: &AppEvent) -> (r: Option<bool>)
    ensures
        r == match event {
            AppEvent::PlaybackEvent(PlaybackEvent::PlaybackPaused) => Some(false),
            AppEvent::PlaybackEvent(PlaybackEvent::PlaybackResumed) => Some(true),
            AppEvent::PlaybackEvent(PlaybackEvent::TrackChanged(_)) => Some(true),
            _ => None::<bool>,
        },
{
    match event {
        AppEvent::PlaybackEvent(PlaybackEvent::PlaybackPaused) => Some(false),
        AppEvent::PlaybackEvent(PlaybackEvent::PlaybackResumed) | AppEvent::PlaybackEvent(
            PlaybackEvent::TrackChanged(_),
        ) => Some(true),
        _ => None,
    }
}

/// How a details header's artwork is clipped.
#[derive(Clone, Copy, Debug, PartialEq, Eq, Structural)]
pub enum HeaderImageShape {
    Square,
    Circle,
}

/// The next page of a paginated list: its offset (none when the list is
/// complete), what it belongs to, and its size.
pub struct NextPage {
    pub next_offset: Option<usize>,
    pub data: String,
    pub batch_size: usize,
}

/// A request for a page of a list.
pub struct PageRequest {
    pub id: String,
    pub offset: usize,
    pub batch_size: usize,
}

pub open spec fn page_request_view(r: Option<PageRequest>) -> Option<(Seq<char>, usize, usize)> {
    match r {
        Some(p) => Some((p.id@, p.offset, p.batch_size)),
        None => None,
    }
}

pub open spec fn next_page_spec(page: Option<&NextPage>) -> Option<(Seq<char>, usize, usize)> {
    match page {
        Some(p) => match p.next_offset {
            Some(o) => Some((p.data@, o, p.batch_size)),
            None => None,
        },
        None => None,
    }
}

pub open spec fn profile_title_prefix() -> Seq<char> {
    "Profile \u{2014} "@
}

/// A user's profile page: their name, photo and public playlists.
pub struct UserDetailsModel {
    pub id: String,
}

impl UserDetailsModel {
    pub fn new(id: String) -> (r: UserDetailsModel)
        ensures
            r.id@ == id@,
    {
        UserDetailsModel { id }
    }

    /// The page refreshes when this user's details were updated.
    pub fn should_refresh_details(&self, event: &AppEvent) -> (r: bool)
        ensures
            r == match event {
                AppEvent::BrowserEvent(BrowserEvent::UserDetailsUpdated(id)) => id@ == self.id@,
                _ => false,
            },
    {
        match event {
            AppEvent::BrowserEvent(BrowserEvent::UserDetailsUpdated(id)) => str_equals(
                id.as_str(),
                self.id.as_str(),
            ),
            _ => false,
        }
    }

    /// The page of playlists to load next, when there is one; the application
    /// marks it consumed and fetches it.
    pub fn load_more(&self, next_page: Option<&NextPage>) -> (r: Option<PageRequest>)
        ensures
            page_request_view(r) == next_page_spec(next_page),
    {
        let page = match next_page {
            Some(p) => p,
            None => return None,
        };
        let offset = match page.next_offset {
            Some(o) => o,
            None => return None,
        };
        Some(PageRequest { id: page.data.clone(), offset, batch_size: page.batch_size })
    }

    /// The header bar title, once the user's name is known.
    pub fn title(&self, user_name: Option<&str>) -> (r: Option<String>)
        ensures
            match user_name {
                Some(n) => r is Some && r->0@ == profile_title_prefix() + n@,
                None => r is None,
            },
    {
        match user_name {
            Some(n) => {
                let mut t = String::from_str("Profile \u{2014} ");
                t.append(n);
                Some(t)
            },
            None => None,
        }
    }

    /// A clicked playlist opens its page.
    pub fn open_item(&self, id: String) -> (r: AppAction)
        ensures
            r@ == AppActionView::ViewPlaylist(id@),
    {
        AppAction::ViewPlaylist(id)
    }

    pub fn image_shape(&self) -> (r: ImageShape)
        ensures
            r == ImageShape::Square,
    {
        ImageShape::Square
    }

    /// A profile photo is shown round.
    pub fn header_image_shape(&self) -> (r: HeaderImageShape)
        ensures
            r == HeaderImageShape::Circle,
    {
        HeaderImageShape::Circle
    }
}

/// The contract between a card-list page and its framework: identity (for
/// remembering the sort), empty state, sort choices and refresh events.
pub trait CardListPageModel {
    fn page_id(&self) -> &'static str;

    /// The icon of the empty page; a music note unless the page has its own.
    fn empty_icon(&self) -> (r: &'static str)
        default_ensures
            r@ == "emblem-music-symbolic"@,
    {
        "emblem-music-symbolic"
    }

    /// The sorts the page offers; insertion order, title and creator unless
    /// the page has its own.
    fn available_sort_orders(&self) -> (r: Vec<SortOrder>)
        default_ensures
            r@ == seq![SortOrder::RecentlyAdded, SortOrder::Alphabetic, SortOrder::Creator],
    {
        let mut v: Vec<SortOrder> = Vec::new();
        v.push(SortOrder::RecentlyAdded);
        v.push(SortOrder::Alphabetic);
        v.push(SortOrder::Creator);
        assert(v@ =~= seq![SortOrder::RecentlyAdded, SortOrder::Alphabetic, SortOrder::Creator]);
        v
    }

    fn should_refresh(&self, event: &AppEvent) -> bool;
}

/// How many followed artists are asked for at a time.
pub const FOLLOWED_ARTISTS_PAGE_SIZE: u32 = 30;

/// The page of artists the user follows, loaded with a cursor.
pub struct SavedArtistsModel {}

impl SavedArtistsModel {
    pub fn new() -> (r: SavedArtistsModel) {
        SavedArtistsModel {  }
    }

    /// Reloading the page asks for the first followed artists: no cursor,
    /// one page.
    pub fn refresh_request(&self) -> (r: (Option<String>, u32))
        ensures
            r.0 is None,
            r.1 == FOLLOWED_ARTISTS_PAGE_SIZE,
    {
        (None, FOLLOWED_ARTISTS_PAGE_SIZE)
    }

    /// More artists exist while the cursor is present and not empty.
    pub fn has_more(&self, cursor: Option<&str>) -> (r: bool)
        ensures
            r == (cursor is Some && cursor->0@.len() > 0),
    {
        match cursor {
            Some(c) => c.unicode_len() > 0,
            None => false,
        }
    }

    /// The cursor to continue after, when there are more artists.
    pub fn load_more(&self, cursor: Option<&str>) -> (r: Option<String>)
        ensures
            match cursor {
                Some(c) => if c@.len() > 0 {
                    r is Some && r->0@ == c@
                } else {
                    r is None
                },
                None => r is None,
            },
    {
        match cursor {
            Some(c) => if c.unicode_len() == 0 {
                None
            } else {
                Some(String::from_str(c))
            },
            None => None,
        }
    }

    /// A clicked artist opens their page.
    pub fn open_item(&self, id: String) -> (r: AppAction)
        ensures
            r@ == AppActionView::ViewArtist(id@),
    {
        AppAction::ViewArtist(id)
    }

    /// Artists are shown round.
    pub fn image_shape(&self) -> (r: ImageShape)
        ensures
            r == ImageShape::Round,
    {
        ImageShape::Round
    }
}

impl CardListPageModel for SavedArtistsModel {
    fn page_id(&self) -> (r: &'static str)
        ensures
            r@ == "artists"@,
    {
        "artists"
    }

    fn empty_icon(&self) -> (r: &'static str)
        ensures
            r@ == "avatar-default-symbolic"@,
    {
        "avatar-default-symbolic"
    }

    fn available_sort_orders(&self) -> (r: Vec<SortOrder>)
        ensures
            r@ == seq![SortOrder::RecentlyAdded, SortOrder::Alphabetic, SortOrder::Popularity],
    {
        let mut v: Vec<SortOrder> = Vec::new();
        v.push(SortOrder::RecentlyAdded);
        v.push(SortOrder::Alphabetic);
        v.push(SortOrder::Popularity);
        assert(v@ =~= seq![SortOrder::RecentlyAdded, SortOrder::Alphabetic, SortOrder::Popularity]);
        v
    }

    fn should_refresh(&self, event: &AppEvent) -> (r: bool)
        ensures
            r == (*event == AppEvent::BrowserEvent(BrowserEvent::SavedArtistsUpdated)),
    {
        match event {
            AppEvent::BrowserEvent(BrowserEvent::SavedArtistsUpdated) => true,
            _ => false,
        }
    }
}

/// Where playback happens, for the queue's selection mode.
#[derive(Clone, Copy, Debug, PartialEq, Eq, Structural)]
pub enum Device {
    Local,
    Connect,
}

/// How the queue can be selected.
#[derive(Clone, Copy, Debug, PartialEq, Eq, Structural)]
pub enum SelectionContext {
    Queue,
    /// The queue of another device, which cannot be edited from here.
    ReadOnlyQueue,
}

/// The now-playing page: the current track and the queue.
pub struct NowPlayingModel {}

pub open spec fn track_link_prefix() -> Seq<char> {
    "https://open.spotify.com/track/"@
}

impl NowPlayingModel {
    pub fn new() -> (r: NowPlayingModel) {
        NowPlayingModel {  }
    }

    /// The local queue can be edited; another device's queue only viewed.
    pub fn selection_context(&self, device: Device) -> (r: SelectionContext)
        ensures
            r == if device == Device::Local {
                SelectionContext::Queue
            } else {
                SelectionContext::ReadOnlyQueue
            },
    {
        match device {
            Device::Local => SelectionContext::Queue,
            Device::Connect => SelectionContext::ReadOnlyQueue,
        }
    }

    /// The link shared for the current track.
    pub fn share_link(&self, track_id: &str) -> (r: String)
        ensures
            r@ == track_link_prefix() + track_id@,
    {
        let mut link = String::from_str("https://open.spotify.com/track/");
        link.append(track_id);
        link
    }

    /// The subtitle lists the track's artists; clicking one opens their page.
    pub fn navigate_to_subtitle_link(&self, id: &str) -> (r: AppAction)
        ensures
            r@ == AppActionView::ViewArtist(id@),
    {
        AppAction::ViewArtist(String::from_str(id))
    }

    /// Playing a queued track loads it into the player.
    pub fn play_song_at(&self, id: &str) -> (r: AppAction)
        ensures
            r@ == AppActionView::LoadTrack(id@),
    {
        AppAction::LoadTrack(String::from_str(id))
    }

    /// The page refreshes its details when the track changes.
    pub fn should_refresh_details(&self, event: &AppEvent) -> (r: bool)
        ensures
            r == (event is PlaybackEvent && event->PlaybackEvent_0 is TrackChanged),
    {
        match event {
            AppEvent::PlaybackEvent(PlaybackEvent::TrackChanged(_)) => true,
            _ => false,
        }
    }

    /// The like button refreshes when the saved tracks change.
    pub fn should_refresh_liked(&self, event: &AppEvent) -> (r: bool)
        ensures
            r == (*event == AppEvent::BrowserEvent(BrowserEvent::SavedTracksUpdated)),
    {
        match event {
            AppEvent::BrowserEvent(BrowserEvent::SavedTracksUpdated) => true,
            _ => false,
        }
    }
}

/// What a details page knows when an event arrives: what its model answers
/// for the event and the state of its header.
#[derive(Clone, Copy, Debug, PartialEq, Eq, Structural)]
pub struct DetailsPageFacts {
    pub has_play_button: bool,
    pub source_is_playing: bool,
    /// The model's answer to "should the details be refreshed?"
    pub refreshes_details: bool,
    /// The model's answer to "should the like button be refreshed?"
    pub refreshes_liked: bool,
    pub has_like_button: bool,
    pub is_liked: bool,
    pub like_visible: bool,
}

/// What a details page does with an event.
#[derive(Clone, Debug, PartialEq, Eq)]
pub struct DetailsEventOutcome {
    /// Start playing the song with this id.
    pub start_play: Option<String>,
    /// Refresh the header from the model.
    pub refresh_details: bool,
    /// Show the play button as playing (`true`) or paused.
    pub set_playing: Option<bool>,
    /// Show the like button as liked (`true`) or not.
    pub set_liked: Option<bool>,
    /// Hide the like button.
    pub hide_like: bool,
    /// Whether the event was handled.
    pub consumed: bool,
}

/// A details page's handling of an event, in order of precedence: a song
/// playback request (when the page can play), a details refresh, a like
/// refresh, a change of playback; anything else is not handled.
pub open spec fn details_event_spec(event: AppEvent, f: DetailsPageFacts) -> (
    Option<Seq<char>>,
    bool,
    Option<bool>,
    Option<bool>,
    bool,
    bool,
) {
    let play_request: Option<Seq<char>> = match event {
        AppEvent::BrowserEvent(BrowserEvent::SongPlaybackRequested(id)) => Some(id@),
        _ => None,
    };
    let playback: Option<bool> = match event {
        AppEvent::PlaybackEvent(PlaybackEvent::PlaybackPaused) => Some(false),
        AppEvent::PlaybackEvent(PlaybackEvent::PlaybackResumed) => Some(true),
        AppEvent::PlaybackEvent(PlaybackEvent::TrackChanged(_)) => Some(true),
        _ => None,
    };
    if play_request is Some && f.has_play_button {
        (play_request, false, None, None, false, true)
    } else if f.refreshes_details {
        (
            None,
            true,
            if f.has_play_button {
                Some(f.source_is_playing)
            } else {
                None
            },
            None,
            false,
            true,
        )
    } else if f.refreshes_liked {
        (
            None,
            false,
            None,
            if f.has_like_button {
                Some(f.is_liked)
            } else {
                None
            },
            f.has_like_button && !f.like_visible,
            true,
        )
    } else if playback is Some {
        (
            None,
            false,
            if f.has_play_button {
                Some(f.source_is_playing && playback->0)
            } else {
                None
            },
            None,
            false,
            true,
        )
    } else {
        (None, false, None, None, false, false)
    }
}

pub open spec fn outcome_view(o: DetailsEventOutcome) -> (
    Option<Seq<char>>,
    bool,
    Option<bool>,
    Option<bool>,
    bool,
    bool,
) {
    (
        match o.start_play {
            Some(id) => Some(id@),
            None => None,
        },
        o.refresh_details,
        o.set_playing,
        o.set_liked,
        o.hide_like,
        o.consumed,
    )
}

/// How a details page reacts to an event.
pub fn details_event_outcome(event: &AppEvent, facts: DetailsPageFacts) -> (r: DetailsEventOutcome)
    ensures
        outcome_view(r) == details_event_spec(*event, facts),
{
    if facts.has_play_button {
        if let AppEvent::BrowserEvent(BrowserEvent::SongPlaybackRequested(id)) = event {
            return DetailsEventOutcome {
                start_play: Some(id.clone()),
                refresh_details: false,
                set_playing: None,
                set_liked: None,
                hide_like: false,
                consumed: true,
            };
        }
    }
    if facts.refreshes_details {
        let set_playing = if facts.has_play_button {
            Some(facts.source_is_playing)
        } else {
            None
        };
        return DetailsEventOutcome {
            start_play: None,
            refresh_details: true,
            set_playing,
            set_liked: None,
            hide_like: false,
            consumed: true,
        };
    }
    if facts.refreshes_liked {
        let set_liked = if facts.has_like_button {
            Some(facts.is_liked)
        } else {
            None
        };
        return DetailsEventOutcome {
            start_play: None,
            refresh_details: false,
            set_playing: None,
            set_liked,
            hide_like: facts.has_like_button && !facts.like_visible,
            consumed: true,
        };
    }
    match is_playback_event(event) {
        Some(playing) => {
            let set_playing = if facts.has_play_button {
                Some(facts.source_is_playing && playing)
            } else {
                None
            };
            DetailsEventOutcome {
                start_play: None,
                refresh_details: false,
                set_playing,
                set_liked: None,
                hide_like: false,
                consumed: true,
            }
        },
        None => DetailsEventOutcome {
            start_play: None,
            refresh_details: false,
            set_playing: None,
            set_liked: None,
            hide_like: false,
            consumed: false,
        },
    }
}

/// What refreshing a details header shows.
#[derive(Clone, Debug, PartialEq, Eq)]
pub struct HeaderRefresh {
    /// The title and subtitle, once a title is known (no subtitle shows as
    /// empty).
    pub details: Option<(String, String)>,
    /// The subtitle is made of links (the track's artists).
    pub show_links: bool,
    /// The caption, shown when there is one.
    pub caption: Option<String>,
    /// The like button's state, on pages that have one.
    pub liked: Option<bool>,
    pub hide_like: bool,
}

/// What refreshing a details header shows, from what the page's model gives.
pub fn header_refresh(
    title: Option<String>,
    subtitle: Option<String>,
    link_count: usize,
    caption: Option<String>,
    has_like_button: bool,
    is_liked: bool,
    like_visible: bool,
) -> (r: HeaderRefresh)
    ensures
        match title {
            Some(t) => r.details matches Some(d) && d.0@ == t@ && d.1@ == match subtitle {
                Some(s) => s@,
                None => Seq::<char>::empty(),
            },
            None => r.details is None,
        },
        r.show_links == (link_count > 0),
        match caption {
            Some(c) => r.caption is Some && r.caption->0@ == c@,
            None => r.caption is None,
        },
        r.liked == if has_like_button {
            Some(is_liked)
        } else {
            None
        },
        r.hide_like == (has_like_button && !like_visible),
{
    let details = match title {
        Some(t) => {
            let sub = match subtitle {
                Some(s) => s,
                None => String::new(),
            };
            Some((t, sub))
        },
        None => None,
    };
    HeaderRefresh {
        details,
        show_links: link_count > 0,
        caption,
        liked: if has_like_button {
            Some(is_liked)
        } else {
            None
        },
        hide_like: has_like_button && !like_visible,
    }
}

/// A change of the current track's saved state, to ask Spotify for.
#[derive(Clone, Debug, PartialEq, Eq)]
pub enum LikeRequest {
    /// Remove the track with this id from the saved tracks.
    Unsave(String),
    /// Save the track with this id.
    Save(String),
}

impl LikeRequest {
    /// The action dispatched once Spotify confirmed the change.
    pub fn confirmed_action(&self) -> (r: AppAction)
        ensures
            r@ == match self {
                LikeRequest::Unsave(id) => AppActionView::RemoveSavedTrack(id@),
                LikeRequest::Save(id) => AppActionView::SaveTrack(id@),
            },
    {
        match self {
            LikeRequest::Unsave(id) => AppAction::RemoveSavedTrack(id.clone()),
            LikeRequest::Save(id) => AppAction::SaveTrack(id.clone()),
        }
    }
}

/// An entry label of a track's context menu.
#[derive(Clone, Debug, PartialEq, Eq)]
pub enum SongMenuLabel {
    ViewAlbum,
    /// "More from" the artist with this name.
    MoreFrom(String),
    CopyLink,
    RemoveFromQueue,
}

pub enum SongMenuLabelView {
    ViewAlbum,
    MoreFrom(Seq<char>),
    CopyLink,
    RemoveFromQueue,
}

/// An entry of a track's context menu: its label and the action it triggers.
pub struct SongMenuEntry {
    pub label: SongMenuLabel,
    pub action: String,
}

pub open spec fn menu_entry_view(e: SongMenuEntry) -> (SongMenuLabelView, Seq<char>) {
    (
        match e.label {
            SongMenuLabel::ViewAlbum => SongMenuLabelView::ViewAlbum,
            SongMenuLabel::MoreFrom(n) => SongMenuLabelView::MoreFrom(n@),
            SongMenuLabel::CopyLink => SongMenuLabelView::CopyLink,
            SongMenuLabel::RemoveFromQueue => SongMenuLabelView::RemoveFromQueue,
        },
        e.action@,
    )
}

pub open spec fn view_artist_prefix() -> Seq<char> {
    "song.view_artist_"@
}

/// A track's context menu for its artists (as `(id, name)`): view the album,
/// one "more from" entry per artist, copy the link, and, in the queue, remove
/// it from the queue.
pub open spec fn song_menu_spec(artists: Seq<(String, String)>, in_queue: bool) -> Seq<
    (SongMenuLabelView, Seq<char>),
> {
    let head = seq![(SongMenuLabelView::ViewAlbum, "song.view_album"@)];
    let middle = Seq::new(
        artists.len(),
        |i: int|
            (SongMenuLabelView::MoreFrom(artists[i].1@), view_artist_prefix() + artists[i].0@),
    );
    let tail = seq![(SongMenuLabelView::CopyLink, "song.copy_link"@)];
    let all = head + middle + tail;
    if in_queue {
        all.push((SongMenuLabelView::RemoveFromQueue, "song.dequeue"@))
    } else {
        all
    }
}

/// A track's context menu.
pub fn song_menu(artists: &Vec<(String, String)>, in_queue: bool) -> (r: Vec<SongMenuEntry>)
    ensures
        r@.map_values(|e: SongMenuEntry| menu_entry_view(e)) == song_menu_spec(artists@, in_queue),
{
    let mut v: Vec<SongMenuEntry> = Vec::new();
    v.push(SongMenuEntry { label: SongMenuLabel::ViewAlbum, action: String::from_str("song.view_album") });
    let mut i: usize = 0;
    while i < artists.len()
        invariant
            i <= artists.len(),
            v.len() == i + 1,
            menu_entry_view(v@[0]) == (SongMenuLabelView::ViewAlbum, "song.view_album"@),
            forall|j: int|
                0 <= j < i ==> menu_entry_view(#[trigger] v@[j + 1]) == (
                    SongMenuLabelView::MoreFrom(artists@[j].1@),
                    view_artist_prefix() + artists@[j].0@,
                ),
        decreases artists.len() - i,
    {
        let mut action = String::from_str("song.view_artist_");
        action.append(artists[i].0.as_str());
        let name = artists[i].1.clone();
        v.push(SongMenuEntry { label: SongMenuLabel::MoreFrom(name), action });
        i = i + 1;
    }
    v.push(SongMenuEntry { label: SongMenuLabel::CopyLink, action: String::from_str("song.copy_link") });
    if in_queue {
        v.push(
            SongMenuEntry {
                label: SongMenuLabel::RemoveFromQueue,
                action: String::from_str("song.dequeue"),
            },
        );
    }
    proof {
        let n = artists@.len() as int;
        let head = seq![(SongMenuLabelView::ViewAlbum, "song.view_album"@)];
        let middle = Seq::new(
            artists@.len(),
            |i: int|
                (SongMenuLabelView::MoreFrom(artists@[i].1@), view_artist_prefix() + artists@[i].0@),
        );
        let tail = seq![(SongMenuLabelView::CopyLink, "song.copy_link"@)];
        let all = head + middle + tail;
        let spec = song_menu_spec(artists@, in_queue);
        let mapped = v@.map_values(|e: SongMenuEntry| menu_entry_view(e));
        assert(all.len() == n + 2);
        assert(mapped.len() == spec.len());
        assert forall|k: int| 0 <= k < mapped.len() implies mapped[k] == spec[k] by {
            if k == 0 {
                assert(all[0] == head[0]);
            } else if k <= n {
                let j = k - 1;
                assert(menu_entry_view(v@[j + 1]) == middle[j]);
                assert(all[k] == (head + middle)[k]);
                assert((head + middle)[k] == middle[j]);
            } else if k == n + 1 {
                assert(all[k] == tail[0]);
            } else {
            }
        }
        assert(mapped =~= spec);
    }
    v
}

impl NowPlayingModel {
    /// Whether the current track (if any) is among the saved tracks (when
    /// they are known).
    pub fn is_liked(&self, current: Option<&str>, saved: Option<&Vec<String>>) -> (r: bool)
        ensures
            r == (current is Some && saved is Some && exists|i: int|
                0 <= i < saved->0.len() && saved->0@[i]@ == current->0@),
    {
        let id = match current {
            Some(id) => id,
            None => return false,
        };
        let s = match saved {
            Some(s) => s,
            None => return false,
        };
        let mut i: usize = 0;
        while i < s.len()
            invariant
                i <= s.len(),
                saved == Some(s),
                current == Some(id),
                forall|j: int| 0 <= j < i ==> s@[j]@ != id@,
            decreases s.len() - i,
        {
            if str_equals(s[i].as_str(), id) {
                assert(saved->0@[i as int]@ == current->0@);
                return true;
            }
            i = i + 1;
        }
        false
    }

    /// The like button of the current track: a liked track is removed from
    /// the saved tracks, another one saved; nothing without a current track.
    pub fn toggle_like(&self, current: Option<&str>, liked: bool) -> (r: Option<LikeRequest>)
        ensures
            match current {
                Some(id) => r is Some && (if liked {
                    r->0 matches LikeRequest::Unsave(x) && x@ == id@
                } else {
                    r->0 matches LikeRequest::Save(x) && x@ == id@
                }),
                None => r is None,
            },
    {
        match current {
            Some(id) => if liked {
                Some(LikeRequest::Unsave(String::from_str(id)))
            } else {
                Some(LikeRequest::Save(String::from_str(id)))
            },
            None => None,
        }
    }

    /// The header bar offers selection only when select mode is on.
    pub fn header_selection_context(&self, select_mode_enabled: bool, device: Device) -> (r: Option<
        SelectionContext,
    >)
        ensures
            r == if select_mode_enabled {
                Some(
                    if device == Device::Local {
                        SelectionContext::Queue
                    } else {
                        SelectionContext::ReadOnlyQueue
                    },
                )
            } else {
                None
            },
    {
        if select_mode_enabled {
            Some(self.selection_context(device))
        } else {
            None
        }
    }

    /// The context menu of a queued track.
    pub fn menu_for(&self, artists: &Vec<(String, String)>) -> (r: Vec<SongMenuEntry>)
        ensures
            r@.map_values(|e: SongMenuEntry| menu_entry_view(e)) == song_menu_spec(artists@, true),
    {
        song_menu(artists, true)
    }
}

/// What a card page does with an event, besides refreshing when its model
/// asks for it.
#[derive(Clone, Copy, Debug, PartialEq, Eq, Structural)]
pub enum CardPageReaction {
    /// After login: show placeholders and refresh the model.
    ShowPlaceholdersAndRefresh,
    /// After logout: remove every card and hide the empty-page status.
    Clear,
    /// The card layout or size changed.
    UpdateCards,
    Nothing,
}

pub fn card_page_reaction(event: &AppEvent) -> (r: CardPageReaction)
    ensures
        r == match event {
            AppEvent::LoginEvent(LoginEvent::LoginCompleted) => CardPageReaction::ShowPlaceholdersAndRefresh,
            AppEvent::LoginEvent(LoginEvent::LogoutCompleted) => CardPageReaction::Clear,
            AppEvent::BrowserEvent(BrowserEvent::CardLayoutChanged) => CardPageReaction::UpdateCards,
            AppEvent::BrowserEvent(BrowserEvent::CardSizeChanged) => CardPageReaction::UpdateCards,
            _ => CardPageReaction::Nothing,
        },
{
    match event {
        AppEvent::LoginEvent(LoginEvent::LoginCompleted) => CardPageReaction::ShowPlaceholdersAndRefresh,
        AppEvent::LoginEvent(LoginEvent::LogoutCompleted) => CardPageReaction::Clear,
        AppEvent::BrowserEvent(BrowserEvent::CardLayoutChanged) => CardPageReaction::UpdateCards,
        AppEvent::BrowserEvent(BrowserEvent::CardSizeChanged) => CardPageReaction::UpdateCards,
        _ => CardPageReaction::Nothing,
    }
}

/// What the login window does with an event.
#[derive(Clone, Debug, PartialEq, Eq)]
pub enum LoginWindowStep {
    /// Hide the window and reset its status.
    Hide,
    /// Show the window with the "premium required" status.
    ShowNotPremium,
    /// Show the window with the login error status.
    ShowLoginError,
    /// Open this address in the browser.
    OpenUrl(String),
    /// Try to log in with stored credentials.
    TryAutologin,
    /// Show the window.
    Show,
    Nothing,
}

pub fn login_window_step(event: &AppEvent) -> (r: LoginWindowStep)
    ensures
        match event {
            AppEvent::LoginEvent(LoginEvent::LoginCompleted) => r == LoginWindowStep::Hide,
            AppEvent::LoginEvent(LoginEvent::NotPremium) => r == LoginWindowStep::ShowNotPremium,
            AppEvent::LoginEvent(LoginEvent::LoginFailed) => r == LoginWindowStep::ShowLoginError,
            AppEvent::LoginEvent(LoginEvent::LoginStartedAtUrl(url)) => r matches LoginWindowStep::OpenUrl(u)
                && u@ == url@,
            AppEvent::Started => r == LoginWindowStep::TryAutologin,
            AppEvent::LoginEvent(LoginEvent::LogoutCompleted) => r == LoginWindowStep::Show,
            AppEvent::LoginEvent(LoginEvent::LoginShown) => r == LoginWindowStep::Show,
            _ => r == LoginWindowStep::Nothing,
        },
{
    match event {
        AppEvent::LoginEvent(LoginEvent::LoginCompleted) => LoginWindowStep::Hide,
        AppEvent::LoginEvent(LoginEvent::NotPremium) => LoginWindowStep::ShowNotPremium,
        AppEvent::LoginEvent(LoginEvent::LoginFailed) => LoginWindowStep::ShowLoginError,
        AppEvent::LoginEvent(LoginEvent::LoginStartedAtUrl(url)) => LoginWindowStep::OpenUrl(url.clone()),
        AppEvent::Started => LoginWindowStep::TryAutologin,
        AppEvent::LoginEvent(LoginEvent::LogoutCompleted) => LoginWindowStep::Show,
        AppEvent::LoginEvent(LoginEvent::LoginShown) => LoginWindowStep::Show,
        _ => LoginWindowStep::Nothing,
    }
}

/// The status shown in the login window after a step: "error" for a
/// non-premium account, "login_error" after a failure, "notice" otherwise.
pub fn login_status_page(step: &LoginWindowStep) -> (r: Option<&'static str>)
    ensures
        match step {
            LoginWindowStep::ShowNotPremium => r matches Some(p) && p@ == "error"@,
            LoginWindowStep::ShowLoginError => r matches Some(p) && p@ == "login_error"@,
            LoginWindowStep::Hide => r matches Some(p) && p@ == "notice"@,
            _ => r is None,
        },
{
    match step {
        LoginWindowStep::ShowNotPremium => Some("error"),
        LoginWindowStep::ShowLoginError => Some("login_error"),
        LoginWindowStep::Hide => Some("notice"),
        _ => None,
    }
}

/// The play button's tooltip.
#[derive(Clone, Copy, Debug, PartialEq, Eq, Structural)]
pub enum PlayTooltip {
    Play,
    Pause,
}

/// The play button of a details header: a pause icon while playing, a start
/// icon otherwise, with the matching tooltip.
pub fn play_button_look(is_playing: bool) -> (r: (&'static str, PlayTooltip))
    ensures
        r.0@ == if is_playing {
            "media-playback-pause-symbolic"@
        } else {
            "media-playback-start-symbolic"@
        },
        r.1 == if is_playing {
            PlayTooltip::Pause
        } else {
            PlayTooltip::Play
        },
{
    if is_playing {
        ("media-playback-pause-symbolic", PlayTooltip::Pause)
    } else {
        ("media-playback-start-symbolic", PlayTooltip::Play)
    }
}

/// The like button's icon: a filled star for a saved item.
pub fn like_icon(is_liked: bool) -> (r: &'static str)
    ensures
        r@ == if is_liked {
            "starred-symbolic"@
        } else {
            "non-starred-symbolic"@
        },
{
    if is_liked {
        "starred-symbolic"
    } else {
        "non-starred-symbolic"
    }
}

/// A piece of a subtitle made of artist links.
#[derive(Clone, Debug, PartialEq, Eq)]
pub enum SubtitlePiece {
    /// A button opening the artist with this id, labelled with this name.
    Link(String, String),
    /// The ", " between two links.
    Separator,
}

pub open spec fn piece_view(p: SubtitlePiece) -> Option<(Seq<char>, Seq<char>)> {
    match p {
        SubtitlePiece::Link(id, name) => Some((id@, name@)),
        SubtitlePiece::Separator => None,
    }
}

/// The subtitle for artists given as `(id, name)`: a link per artist, in
/// order, with a separator between each two.
pub open spec fn subtitle_pieces_spec(artists: Seq<(String, String)>) -> Seq<
    Option<(Seq<char>, Seq<char>)>,
> {
    Seq::new(
        if artists.len() == 0 {
            0
        } else {
            (2 * artists.len() - 1) as nat
        },
        |k: int|
            if k % 2 == 0 {
                Some((artists[k / 2].0@, artists[k / 2].1@))
            } else {
                None
            },
    )
}

pub fn subtitle_pieces(artists: &Vec<(String, String)>) -> (r: Vec<SubtitlePiece>)
    requires
        artists.len() < usize::MAX / 2,
    ensures
        r@.map_values(|p: SubtitlePiece| piece_view(p)) == subtitle_pieces_spec(artists@),
{
    let mut v: Vec<SubtitlePiece> = Vec::new();
    let mut i: usize = 0;
    while i < artists.len()
        invariant
            i <= artists.len(),
            artists.len() < usize::MAX / 2,
            v.len() == if i == 0 {
                0
            } else {
                2 * i - 1
            },
            forall|k: int|
                0 <= k < v.len() ==> piece_view(#[trigger] v@[k]) == if k % 2 == 0 {
                    Some((artists@[k / 2].0@, artists@[k / 2].1@))
                } else {
                    None
                },
        decreases artists.len() - i,
    {
        if i > 0 {
            v.push(SubtitlePiece::Separator);
        }
        let id = artists[i].0.clone();
        let name = artists[i].1.clone();
        v.push(SubtitlePiece::Link(id, name));
        i = i + 1;
    }
    assert(v@.map_values(|p: SubtitlePiece| piece_view(p)) =~= subtitle_pieces_spec(artists@));
    v
}

/// The now-playing page shows the queue while a song is current, and an
/// empty-state page otherwise.
pub fn now_playing_page(has_current_song: bool) -> (r: &'static str)
    ensures
        r@ == if has_current_song {
            "content"@
        } else {
            "empty"@
        },
{
    if has_current_song {
        "content"
    } else {
        "empty"
    }
}

/// The now-playing page looks again at whether a song is current when the
/// track changes or playback stops.
pub fn now_playing_rechecks_song(event: &AppEvent) -> (r: bool)
    ensures
        r == match event {
            AppEvent::PlaybackEvent(PlaybackEvent::TrackChanged(_)) => true,
            AppEvent::PlaybackEvent(PlaybackEvent::PlaybackStopped) => true,
            _ => false,
        },
{
    match event {
        AppEvent::PlaybackEvent(PlaybackEvent::TrackChanged(_)) => true,
        AppEvent::PlaybackEvent(PlaybackEvent::PlaybackStopped) => true,
        _ => false,
    }
}

/// What leaving or entering the edit mode of a playlist page does with its
/// title.
#[derive(Clone, Debug, PartialEq, Eq)]
pub enum RenameStep {
    Nothing,
    /// Ask Spotify to rename the playlist.
    Rename(String),
    /// Put the playlist's title back in the header.
    RestoreTitle(String),
}

/// On leaving the edit mode of an editable playlist whose details are known,
/// a new, non-empty title renames it; otherwise the header shows its title
/// again. Entering the edit mode, or a playlist that cannot be edited, does
/// nothing.
pub fn playlist_rename_step(editable: bool, editing: bool, new_title: &str, title: Option<&str>) -> (r:
    RenameStep)
    ensures
        if !editable || editing || title is None {
            r == RenameStep::Nothing
        } else if new_title@ != title->0@ && new_title@.len() > 0 {
            r matches RenameStep::Rename(t) && t@ == new_title@
        } else {
            r matches RenameStep::RestoreTitle(t) && t@ == title->0@
        },
{
    if !editable || editing {
        return RenameStep::Nothing;
    }
    match title {
        None => RenameStep::Nothing,
        Some(t) => if !str_equals(new_title, t) && new_title.unicode_len() > 0 {
            RenameStep::Rename(String::from_str(new_title))
        } else {
            RenameStep::RestoreTitle(String::from_str(t))
        },
    }
}

/// The link shared for the current track opens that track again when it is
/// pasted back (for track ids as Spotify issues them).
pub proof fn law_shared_track_link_opens_the_track(id: Seq<char>)
    requires
        valid_web_id(id),
    ensures
        parse_spec(track_link_prefix() + id) == Some((LinkKind::Track, id)),
{
    reveal_strlit("https://open.spotify.com/track/");
    assert(track_link_prefix() + id =~= web_link_spec(LinkKind::Track, id));
    law_web_link_parses_back(LinkKind::Track, id);
}

/// How a details page starts once its header is wired.
#[derive(Clone, Copy, Debug, PartialEq, Eq, Structural)]
pub enum DetailsStart {
    /// The data is there: fill the header now.
    RefreshDetails,
    /// Ask for the page's data first.
    LoadPageInfo,
}

pub fn details_start(is_loaded: bool) -> (r: DetailsStart)
    ensures
        r == if is_loaded {
            DetailsStart::RefreshDetails
        } else {
            DetailsStart::LoadPageInfo
        },
{
    if is_loaded {
        DetailsStart::RefreshDetails
    } else {
        DetailsStart::LoadPageInfo
    }
}

/// The header bar of a details page while the page scrolls: once the big
/// header is half scrolled out of view, the bar shows the title on a solid
/// background; back above that point it is flat and untitled again.
pub struct HeaderCollapse {
    header_visible: bool,
}

/// What the header bar changes to: whether it shows the title (and then is
/// not flat).
pub open spec fn collapse_step_spec(header_visible: bool, scrolled_past: bool) -> (bool, Option<bool>) {
    if scrolled_past == header_visible {
        (!scrolled_past, Some(scrolled_past))
    } else {
        (header_visible, None)
    }
}

impl HeaderCollapse {
    pub closed spec fn header_visible(&self) -> bool {
        self.header_visible
    }

    /// The page starts at the top: header visible, bar flat and untitled.
    pub fn new() -> (r: HeaderCollapse)
        ensures
            r.header_visible(),
    {
        HeaderCollapse { header_visible: true }
    }

    /// The page scrolled; `scrolled_past` says whether half the header is out
    /// of view. Gives the bar's new title visibility when it changes.
    pub fn on_scroll(&mut self, scrolled_past: bool) -> (r: Option<bool>)
        ensures
            (final(self).header_visible(), r) == collapse_step_spec(
                old(self).header_visible(),
                scrolled_past,
            ),
    {
        if scrolled_past == self.header_visible {
            self.header_visible = !scrolled_past;
            Some(scrolled_past)
        } else {
            None
        }
    }
}

/// Scrolling further on the same side of the threshold changes nothing: the
/// bar is only updated when the threshold is crossed.
pub proof fn law_header_updates_only_on_crossing(header_visible: bool, scrolled_past: bool)
    ensures
        ({
            let (after, _) = collapse_step_spec(header_visible, scrolled_past);
            collapse_step_spec(after, scrolled_past).1 is None
        }),
{
}

} // verus!
