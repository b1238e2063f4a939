//! The actions the page models ask the application to dispatch.
//!
//! The models decide; the application performs: navigation, searches, playback
//! commands and notifications are described by [`AppAction`] values.

use vstd::prelude::*;

use crate::batch_loader::{SongsSource, SongsSourceView};
use crate::search::SearchType;

verus! {

/// A notification shown to the user after a failed Spotify call.
#[derive(Clone, Copy, Debug, PartialEq, Eq, Structural)]
pub enum Notice {
    /// Spotify throttled the requests.
    RateLimited,
    /// Any other failure (details go to the log).
    GenericError,
}

/// The pages of the home screen that the sidebar switches between.
#[derive(Clone, Copy, Debug, PartialEq, Eq, Structural)]
pub enum HomePage {
    Library,
    SavedTracks,
    NowPlaying,
    SavedPlaylists,
    SavedArtists,
}

/// An action for the application's dispatcher.
#[derive(Clone, Debug, PartialEq, Eq)]
pub enum AppAction {
    ViewAlbum(String),
    ViewArtist(String),
    ViewPlaylist(String),
    ViewUser(String),
    /// Go back one page.
    NavigationPop,
    /// Run a search for the query.
    Search(String),
    /// Show the combined results (`None`) or a single kind of result.
    SetSearchFilter(Option<SearchType>),
    /// Start playing the track with this id.
    PlaySong(String),
    /// Load the track with this id into the player.
    LoadTrack(String),
    StopPlayer,
    ChangeSettings,
    ShowNotification(Notice),
    /// Go back to the home screen.
    NavigationPopToHome,
    /// Show this page of the home screen.
    SetHomeVisiblePage(HomePage),
    /// Turn shuffling on or off.
    SetShuffled(bool),
    /// Queue the batch of songs just fetched from this source.
    LoadPagedSongs(SongsSource),
    /// Drop the playlist with this id from the saved playlists.
    RemovePlaylist(String),
    /// Add the track with this id to the saved tracks.
    SaveTrack(String),
    /// Drop the track with this id from the saved tracks.
    RemoveSavedTrack(String),
}

/// The mathematical view of an [`AppAction`].
pub enum AppActionView {
    ViewAlbum(Seq<char>),
    ViewArtist(Seq<char>),
    ViewPlaylist(Seq<char>),
    ViewUser(Seq<char>),
    NavigationPop,
    Search(Seq<char>),
    SetSearchFilter(Option<SearchType>),
    PlaySong(Seq<char>),
    LoadTrack(Seq<char>),
    StopPlayer,
    ChangeSettings,
    ShowNotification(Notice),
    NavigationPopToHome,
    SetHomeVisiblePage(HomePage),
    SetShuffled(bool),
    LoadPagedSongs(SongsSourceView),
    RemovePlaylist(Seq<char>),
    SaveTrack(Seq<char>),
    RemoveSavedTrack(Seq<char>),
}

impl View for AppAction {
    type V = AppActionView;

    open spec fn view(&self) -> AppActionView {
        match self {
            AppAction::ViewAlbum(id) => AppActionView::ViewAlbum(id@),
            AppAction::ViewArtist(id) => AppActionView::ViewArtist(id@),
            AppAction::ViewPlaylist(id) => AppActionView::ViewPlaylist(id@),
            AppAction::ViewUser(id) => AppActionView::ViewUser(id@),
            AppAction::NavigationPop => AppActionView::NavigationPop,
            AppAction::Search(q) => AppActionView::Search(q@),
            AppAction::SetSearchFilter(f) => AppActionView::SetSearchFilter(*f),
            AppAction::PlaySong(id) => AppActionView::PlaySong(id@),
            AppAction::LoadTrack(id) => AppActionView::LoadTrack(id@),
            AppAction::StopPlayer => AppActionView::StopPlayer,
            AppAction::ChangeSettings => AppActionView::ChangeSettings,
            AppAction::ShowNotification(n) => AppActionView::ShowNotification(*n),
            AppAction::NavigationPopToHome => AppActionView::NavigationPopToHome,
            AppAction::SetHomeVisiblePage(p) => AppActionView::SetHomeVisiblePage(*p),
            AppAction::SetShuffled(b) => AppActionView::SetShuffled(*b),
            AppAction::LoadPagedSongs(s) => AppActionView::LoadPagedSongs(s@),
            AppAction::RemovePlaylist(id) => AppActionView::RemovePlaylist(id@),
            AppAction::SaveTrack(id) => AppActionView::SaveTrack(id@),
            AppAction::RemoveSavedTrack(id) => AppActionView::RemoveSavedTrack(id@),
        }
    }
}

/// The view of an optional action.
pub open spec fn action_view(a: Option<AppAction>) -> Option<AppActionView> {
    match a {
        Some(x) => Some(x@),
        None => None,
    }
}

/// The views of a list of actions.
pub open spec fn actions_view(s: Seq<AppAction>) -> Seq<AppActionView> {
    s.map_values(|a: AppAction| a@)
}

} // verus!
