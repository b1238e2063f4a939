//! Decisions of the sidebar: its fixed entries, where an entry leads, the
//! context menu of a playlist, and what playing or shuffling a playlist queues.

use vstd::prelude::*;

use crate::spotify_link::{law_web_link_parses_back, parse_spec, valid_web_id, web_link_spec, LinkKind};

use crate::actions::{actions_view, AppAction, AppActionView, HomePage};
use crate::batch_loader::{SongsSource, SongsSourceView};
use crate::text::str_equals;

verus! {

/// A random number used to pick where a shuffled playlist starts. Wraps
/// `rand::random::<usize>()`; nothing is claimed of the value.
#[verifier::external_body]
fn random_usize() -> usize {
    rand::random::<usize>()
}

pub open spec fn playlist_link_prefix() -> Seq<char> {
    "https://open.spotify.com/playlist/"@
}

/// A saved playlist as the sidebar lists it.
#[derive(Clone, Debug, PartialEq, Eq)]
pub struct PlaylistSummary {
    pub id: String,
    pub title: String,
}

/// Where a sidebar entry leads.
#[derive(Clone, Debug, PartialEq, Eq)]
pub enum SidebarDestination {
    Library,
    SavedTracks,
    NowPlaying,
    SavedPlaylists,
    SavedArtists,
    Playlist(PlaylistSummary),
}

/// The view of a [`SidebarDestination`]: a page of the home screen, or a
/// playlist's id and title.
pub enum SidebarDestinationView {
    Home(HomePage),
    Playlist(Seq<char>, Seq<char>),
}

impl View for SidebarDestination {
    type V = SidebarDestinationView;

    open spec fn view(&self) -> SidebarDestinationView {
        match self {
            SidebarDestination::Library => SidebarDestinationView::Home(HomePage::Library),
            SidebarDestination::SavedTracks => SidebarDestinationView::Home(HomePage::SavedTracks),
            SidebarDestination::NowPlaying => SidebarDestinationView::Home(HomePage::NowPlaying),
            SidebarDestination::SavedPlaylists => SidebarDestinationView::Home(
                HomePage::SavedPlaylists,
            ),
            SidebarDestination::SavedArtists => SidebarDestinationView::Home(
                HomePage::SavedArtists,
            ),
            SidebarDestination::Playlist(p) => SidebarDestinationView::Playlist(p.id@, p.title@),
        }
    }
}

/// An entry of the sidebar's list.
#[derive(Clone, Debug, PartialEq, Eq)]
pub enum SidebarItem {
    Destination(SidebarDestination),
    /// The heading above the saved playlists.
    PlaylistsSection,
    /// The entry that opens the "new playlist" popover.
    CreatePlaylist,
}

pub enum SidebarItemView {
    Destination(SidebarDestinationView),
    PlaylistsSection,
    CreatePlaylist,
}

impl View for SidebarItem {
    type V = SidebarItemView;

    open spec fn view(&self) -> SidebarItemView {
        match self {
            SidebarItem::Destination(d) => SidebarItemView::Destination(d@),
            SidebarItem::PlaylistsSection => SidebarItemView::PlaylistsSection,
            SidebarItem::CreatePlaylist => SidebarItemView::CreatePlaylist,
        }
    }
}

pub open spec fn items_view(s: Seq<SidebarItem>) -> Seq<SidebarItemView> {
    s.map_values(|i: SidebarItem| i@)
}

pub open spec fn home_item(p: HomePage) -> SidebarItemView {
    SidebarItemView::Destination(SidebarDestinationView::Home(p))
}

/// The entries above the saved playlists, in order; the "new playlist" entry
/// only when that feature is on.
pub open spec fn fixed_items_spec(create_playlist_enabled: bool) -> Seq<SidebarItemView> {
    let base = seq![
        home_item(HomePage::NowPlaying),
        home_item(HomePage::SavedArtists),
        home_item(HomePage::Library),
        home_item(HomePage::SavedPlaylists),
        home_item(HomePage::SavedTracks),
        SidebarItemView::PlaylistsSection,
    ];
    if create_playlist_enabled {
        base.push(SidebarItemView::CreatePlaylist)
    } else {
        base
    }
}

/// What activating a sidebar row does.
#[derive(Debug)]
pub enum RowActivation {
    /// Dispatch these actions.
    Navigate(Vec<AppAction>),
    /// Open the "new playlist" popover.
    ShowCreatePlaylistPopover,
}

/// Going to a destination: a home page is shown on the home screen, a
/// playlist opens its own page.
pub open spec fn navigate_spec(dest: SidebarDestinationView) -> Seq<AppActionView> {
    match dest {
        SidebarDestinationView::Home(p) => seq![
            AppActionView::NavigationPopToHome,
            AppActionView::SetHomeVisiblePage(p),
        ],
        SidebarDestinationView::Playlist(id, _) => seq![AppActionView::ViewPlaylist(id)],
    }
}

/// The labels of a playlist's context menu.
#[derive(Clone, Copy, Debug, PartialEq, Eq, Structural)]
pub enum MenuLabel {
    Play,
    Shuffle,
    CopyLink,
    DeletePlaylist,
    UnfollowPlaylist,
}

/// The actions a playlist's context menu can trigger.
#[derive(Clone, Copy, Debug, PartialEq, Eq, Structural)]
pub enum PlaylistMenuAction {
    Play,
    Shuffle,
    CopyLink,
    Unfollow,
}

/// A playlist's context menu: a playback section and a managing section. A
/// playlist of the user's own is deleted, another one unfollowed; both go
/// through the same action.
pub open spec fn playlist_menu_spec(is_owned: bool) -> (
    Seq<(MenuLabel, PlaylistMenuAction)>,
    Seq<(MenuLabel, PlaylistMenuAction)>,
) {
    (
        seq![(MenuLabel::Play, PlaylistMenuAction::Play), (MenuLabel::Shuffle, PlaylistMenuAction::Shuffle)],
        seq![
            (MenuLabel::CopyLink, PlaylistMenuAction::CopyLink),
            (
                if is_owned {
                    MenuLabel::DeletePlaylist
                } else {
                    MenuLabel::UnfollowPlaylist
                },
                PlaylistMenuAction::Unfollow,
            ),
        ],
    )
}

/// The action name a menu entry is bound to.
pub open spec fn menu_action_name_spec(a: PlaylistMenuAction) -> Seq<char> {
    match a {
        PlaylistMenuAction::Play => "playlist.play"@,
        PlaylistMenuAction::Shuffle => "playlist.shuffle"@,
        PlaylistMenuAction::CopyLink => "playlist.copy_link"@,
        PlaylistMenuAction::Unfollow => "playlist.unfollow"@,
    }
}

/// What playing a playlist queues: shuffling set as asked, the fetched tracks
/// of the playlist, and the track at `start` loaded when there is one.
pub open spec fn playback_actions_spec(
    id: Seq<char>,
    tracks: Seq<Seq<char>>,
    shuffled: bool,
    start: Option<int>,
) -> Seq<AppActionView> {
    let head = seq![
        AppActionView::SetShuffled(shuffled),
        AppActionView::LoadPagedSongs(SongsSourceView::Playlist(id)),
    ];
    match start {
        Some(i) => head.push(AppActionView::LoadTrack(tracks[i])),
        None => head,
    }
}

pub open spec fn strings_view(v: Seq<String>) -> Seq<Seq<char>> {
    v.map_values(|s: String| s@)
}

/// The context menu of a playlist: its playback section and its managing
/// section.
pub fn build_playlist_menu(is_owned: bool) -> (r: (
    Vec<(MenuLabel, PlaylistMenuAction)>,
    Vec<(MenuLabel, PlaylistMenuAction)>,
))
    ensures
        (r.0@, r.1@) == playlist_menu_spec(is_owned),
{
    let mut playback: Vec<(MenuLabel, PlaylistMenuAction)> = Vec::new();
    playback.push((MenuLabel::Play, PlaylistMenuAction::Play));
    playback.push((MenuLabel::Shuffle, PlaylistMenuAction::Shuffle));
    let mut manage: Vec<(MenuLabel, PlaylistMenuAction)> = Vec::new();
    manage.push((MenuLabel::CopyLink, PlaylistMenuAction::CopyLink));
    let label = if is_owned {
        MenuLabel::DeletePlaylist
    } else {
        MenuLabel::UnfollowPlaylist
    };
    manage.push((label, PlaylistMenuAction::Unfollow));
    assert(playback@ =~= playlist_menu_spec(is_owned).0);
    assert(manage@ =~= playlist_menu_spec(is_owned).1);
    (playback, manage)
}

/// How many of a playlist's tracks playing or shuffling it fetches.
pub const PLAYLIST_PLAY_BATCH: usize = 100;

/// The sidebar's playlist entries and the actions on them.
pub struct SidebarModel {}

impl SidebarModel {
    pub fn new() -> (r: SidebarModel) {
        SidebarModel {  }
    }

    /// The title shown for a playlist; `None` when it has none, and the
    /// translated "Unnamed playlist" is shown instead.
    pub fn playlist_title(&self, title: &str) -> (r: Option<String>)
        ensures
            if title@.len() > 0 {
                r is Some && r->0@ == title@
            } else {
                r is None
            },
    {
        if title.unicode_len() > 0 {
            Some(String::from_str(title))
        } else {
            None
        }
    }

    /// The sidebar entry of a saved playlist; a playlist without a title is
    /// listed under `unnamed`.
    pub fn map_to_destination(&self, id: &str, title: &str, unnamed: &str) -> (r:
        SidebarDestination)
        ensures
            r@ == SidebarDestinationView::Playlist(
                id@,
                if title@.len() > 0 {
                    title@
                } else {
                    unnamed@
                },
            ),
    {
        let shown = match self.playlist_title(title) {
            Some(t) => t,
            None => String::from_str(unnamed),
        };
        SidebarDestination::Playlist(PlaylistSummary { id: String::from_str(id), title: shown })
    }

    /// The entries of the saved playlists, in their order.
    pub fn get_playlists(&self, playlists: &Vec<PlaylistSummary>, unnamed: &str) -> (r: Vec<
        SidebarItem,
    >)
        ensures
            r.len() == playlists.len(),
            forall|i: int|
                0 <= i < r.len() ==> r@[i]@ == SidebarItemView::Destination(
                    SidebarDestinationView::Playlist(
                        playlists@[i].id@,
                        if playlists@[i].title@.len() > 0 {
                            playlists@[i].title@
                        } else {
                            unnamed@
                        },
                    ),
                ),
    {
        let mut out: Vec<SidebarItem> = Vec::new();
        let mut i: usize = 0;
        while i < playlists.len()
            invariant
                i <= playlists.len(),
                out.len() == i,
                forall|j: int|
                    0 <= j < i ==> out@[j]@ == SidebarItemView::Destination(
                        SidebarDestinationView::Playlist(
                            playlists@[j].id@,
                            if playlists@[j].title@.len() > 0 {
                                playlists@[j].title@
                            } else {
                                unnamed@
                            },
                        ),
                    ),
            decreases playlists.len() - i,
        {
            let p = &playlists[i];
            let d = self.map_to_destination(p.id.as_str(), p.title.as_str(), unnamed);
            out.push(SidebarItem::Destination(d));
            i = i + 1;
        }
        out
    }

    /// The entries above the saved playlists.
    pub fn fixed_items(&self, create_playlist_enabled: bool) -> (r: Vec<SidebarItem>)
        ensures
            items_view(r@) == fixed_items_spec(create_playlist_enabled),
    {
        let mut v: Vec<SidebarItem> = Vec::new();
        v.push(SidebarItem::Destination(SidebarDestination::NowPlaying));
        v.push(SidebarItem::Destination(SidebarDestination::SavedArtists));
        v.push(SidebarItem::Destination(SidebarDestination::Library));
        v.push(SidebarItem::Destination(SidebarDestination::SavedPlaylists));
        v.push(SidebarItem::Destination(SidebarDestination::SavedTracks));
        v.push(SidebarItem::PlaylistsSection);
        if create_playlist_enabled {
            v.push(SidebarItem::CreatePlaylist);
        }
        assert(items_view(v@) =~= fixed_items_spec(create_playlist_enabled));
        v
    }

    /// The actions that take the user to a destination.
    pub fn navigate(&self, dest: &SidebarDestination) -> (r: Vec<AppAction>)
        ensures
            actions_view(r@) == navigate_spec(dest@),
    {
        let mut v: Vec<AppAction> = Vec::new();
        let page = match dest {
            SidebarDestination::Playlist(p) => {
                v.push(AppAction::ViewPlaylist(p.id.clone()));
                assert(actions_view(v@) =~= navigate_spec(dest@));
                return v;
            },
            SidebarDestination::Library => HomePage::Library,
            SidebarDestination::SavedTracks => HomePage::SavedTracks,
            SidebarDestination::NowPlaying => HomePage::NowPlaying,
            SidebarDestination::SavedPlaylists => HomePage::SavedPlaylists,
            SidebarDestination::SavedArtists => HomePage::SavedArtists,
        };
        v.push(AppAction::NavigationPopToHome);
        v.push(AppAction::SetHomeVisiblePage(page));
        assert(actions_view(v@) =~= navigate_spec(dest@));
        v
    }

    /// What activating a row does: a destination is navigated to, the "new
    /// playlist" entry opens its popover. (The section heading is not
    /// activatable.)
    pub fn on_row_activated(&self, item: &SidebarItem) -> (r: RowActivation)
        requires
            !(item@ is PlaylistsSection),
        ensures
            match item@ {
                SidebarItemView::Destination(d) => r is Navigate && actions_view(r->Navigate_0@)
                    == navigate_spec(d),
                _ => r is ShowCreatePlaylistPopover,
            },
    {
        match item {
            SidebarItem::Destination(d) => RowActivation::Navigate(self.navigate(d)),
            _ => RowActivation::ShowCreatePlaylistPopover,
        }
    }

    /// The playlist whose context menu a row opens: only playlist entries
    /// have one.
    pub fn context_menu_playlist(&self, item: &SidebarItem) -> (r: Option<String>)
        ensures
            match item@ {
                SidebarItemView::Destination(SidebarDestinationView::Playlist(id, _)) => r is Some
                    && r->0@ == id,
                _ => r is None,
            },
    {
        match item {
            SidebarItem::Destination(SidebarDestination::Playlist(p)) => Some(p.id.clone()),
            _ => None,
        }
    }

    /// Whether the playlist is one of the user's own.
    pub fn is_playlist_owned(&self, owned_ids: &Vec<String>, id: &str) -> (r: bool)
        ensures
            r == (exists|i: int| 0 <= i < owned_ids.len() && owned_ids@[i]@ == id@),
    {
        let mut i: usize = 0;
        while i < owned_ids.len()
            invariant
                i <= owned_ids.len(),
                forall|j: int| 0 <= j < i ==> owned_ids@[j]@ != id@,
            decreases owned_ids.len() - i,
        {
            if str_equals(owned_ids[i].as_str(), id) {
                return true;
            }
            i = i + 1;
        }
        false
    }

    /// The action dispatched once Spotify confirmed that the playlist was
    /// unfollowed (or deleted): it leaves the saved playlists.
    pub fn unfollow_playlist(&self, id: String) -> (r: AppAction)
        ensures
            r@ == AppActionView::RemovePlaylist(id@),
    {
        AppAction::RemovePlaylist(id)
    }

    /// The name of the action a menu entry triggers.
    pub fn menu_action_name(&self, action: PlaylistMenuAction) -> (r: &'static str)
        ensures
            r@ == menu_action_name_spec(action),
    {
        match action {
            PlaylistMenuAction::Play => "playlist.play",
            PlaylistMenuAction::Shuffle => "playlist.shuffle",
            PlaylistMenuAction::CopyLink => "playlist.copy_link",
            PlaylistMenuAction::Unfollow => "playlist.unfollow",
        }
    }

    /// The web link copied for a playlist.
    pub fn playlist_link(&self, id: &str) -> (r: String)
        ensures
            r@ == playlist_link_prefix() + id@,
    {
        let mut link = String::from_str("https://open.spotify.com/playlist/");
        link.append(id);
        link
    }

    /// The position of the track a shuffled playlist of `len` tracks starts
    /// with, from a random number; none for an empty playlist.
    pub fn start_index_from(&self, len: usize, random: usize) -> (r: Option<usize>)
        ensures
            len == 0 ==> r is None,
            len > 0 ==> r == Some((random % len) as usize),
    {
        if len > 0 {
            Some(random % len)
        } else {
            None
        }
    }

    /// A random starting position for a shuffled playlist of `len` tracks.
    pub fn shuffle_start_index(&self, len: usize) -> (r: Option<usize>)
        ensures
            len == 0 ==> r is None,
            len > 0 ==> r is Some && r->0 < len,
    {
        let random = random_usize();
        self.start_index_from(len, random)
    }

    /// What starting the playlist `id`, whose fetched tracks are `tracks`,
    /// queues: shuffling as asked, the tracks, and the track at `start`.
    pub fn playback_actions(
        &self,
        id: &str,
        tracks: &Vec<String>,
        shuffled: bool,
        start: Option<usize>,
    ) -> (r: Vec<AppAction>)
        requires
            start matches Some(i) ==> i < tracks.len(),
        ensures
            actions_view(r@) == playback_actions_spec(
                id@,
                strings_view(tracks@),
                shuffled,
                match start {
                    Some(i) => Some(i as int),
                    None => None,
                },
            ),
    {
        let mut v: Vec<AppAction> = Vec::new();
        v.push(AppAction::SetShuffled(shuffled));
        v.push(AppAction::LoadPagedSongs(SongsSource::Playlist(String::from_str(id))));
        match start {
            Some(i) => {
                v.push(AppAction::LoadTrack(tracks[i].clone()));
            },
            None => {},
        }
        proof {
            let ghost s = match start {
                Some(i) => Some(i as int),
                None => None,
            };
            assert(actions_view(v@) =~= playback_actions_spec(
                id@,
                strings_view(tracks@),
                shuffled,
                s,
            ));
        }
        v
    }

    /// The tracks that playing or shuffling the playlist `id` fetches first:
    /// its first `PLAYLIST_PLAY_BATCH` tracks, from offset 0, as
    /// `(id, offset, count)`.
    pub fn playlist_play_request(&self, id: &str) -> (r: (String, usize, usize))
        ensures
            r.0@ == id@,
            r.1 == 0,
            r.2 == PLAYLIST_PLAY_BATCH,
    {
        (String::from_str(id), 0, PLAYLIST_PLAY_BATCH)
    }

    /// Playing a playlist from the start: not shuffled, beginning with its
    /// first track.
    pub fn play_playlist(&self, id: &str, tracks: &Vec<String>) -> (r: Vec<AppAction>)
        ensures
            actions_view(r@) == playback_actions_spec(
                id@,
                strings_view(tracks@),
                false,
                if tracks.len() > 0 {
                    Some(0int)
                } else {
                    None
                },
            ),
    {
        let start = if tracks.len() > 0 {
            Some(0usize)
        } else {
            None
        };
        self.playback_actions(id, tracks, false, start)
    }

    /// Shuffling a playlist with a given random number: shuffled, beginning
    /// with the track at `random` modulo the number of tracks.
    pub fn shuffle_playlist_from(&self, id: &str, tracks: &Vec<String>, random: usize) -> (r: Vec<
        AppAction,
    >)
        ensures
            actions_view(r@) == playback_actions_spec(
                id@,
                strings_view(tracks@),
                true,
                if tracks.len() > 0 {
                    Some((random % tracks.len()) as int)
                } else {
                    None
                },
            ),
    {
        let start = self.start_index_from(tracks.len(), random);
        self.playback_actions(id, tracks, true, start)
    }

    /// Shuffling a playlist: shuffled, beginning with a random one of its
    /// tracks.
    pub fn shuffle_playlist(&self, id: &str, tracks: &Vec<String>) -> (r: Vec<AppAction>)
        ensures
            tracks.len() == 0 ==> actions_view(r@) == playback_actions_spec(
                id@,
                strings_view(tracks@),
                true,
                None,
            ),
            tracks.len() > 0 ==> exists|i: int|
                0 <= i < tracks.len() && actions_view(r@) == playback_actions_spec(
                    id@,
                    strings_view(tracks@),
                    true,
                    Some(i),
                ),
    {
        let random = random_usize();
        let r = self.shuffle_playlist_from(id, tracks, random);
        proof {
            if tracks.len() > 0 {
                let i = (random % tracks.len()) as int;
                assert(0 <= i < tracks.len());
            }
        }
        r
    }

    /// The next page of saved playlists to load, when there is one.
    pub fn load_more_playlists(&self, next_offset: Option<usize>, batch_size: usize) -> (r: Option<
        (usize, usize),
    >)
        ensures
            r == match next_offset {
                Some(o) => Some((o, batch_size)),
                None => None,
            },
    {
        match next_offset {
            Some(o) => Some((o, batch_size)),
            None => None,
        }
    }
}

/// The link copied for a playlist opens that playlist again when it is pasted
/// back (for playlist ids as Spotify issues them).
pub proof fn law_copied_playlist_link_opens_the_playlist(id: Seq<char>)
    requires
        valid_web_id(id),
    ensures
        parse_spec(playlist_link_prefix() + id) == Some((LinkKind::Playlist, id)),
{
    reveal_strlit("https://open.spotify.com/playlist/");
    assert(playlist_link_prefix() + id =~= web_link_spec(LinkKind::Playlist, id));
    law_web_link_parses_back(LinkKind::Playlist, id);
}

} // verus!
