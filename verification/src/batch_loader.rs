//! Loading songs in batches from the sources the player can queue from.

use vstd::prelude::*;

use crate::spotify_link::{
    album_word, lemma_uri_parses, parse_spec, playlist_word, uri_scheme, valid_uri_id, LinkKind,
};
use crate::text::str_equals;

verus! {

/// The sources songs are loaded from.
#[derive(Clone, Debug, PartialEq, Eq)]
pub enum SongsSource {
    Playlist(String),
    Album(String),
    Artist(String),
    SavedTracks,
}

/// The view of a [`SongsSource`].
pub enum SongsSourceView {
    Playlist(Seq<char>),
    Album(Seq<char>),
    Artist(Seq<char>),
    SavedTracks,
}

impl View for SongsSource {
    type V = SongsSourceView;

    open spec fn view(&self) -> SongsSourceView {
        match self {
            SongsSource::Playlist(id) => SongsSourceView::Playlist(id@),
            SongsSource::Album(id) => SongsSourceView::Album(id@),
            SongsSource::Artist(id) => SongsSourceView::Artist(id@),
            SongsSource::SavedTracks => SongsSourceView::SavedTracks,
        }
    }
}

pub open spec fn playlist_uri_prefix() -> Seq<char> {
    "spotify:playlist:"@
}

pub open spec fn album_uri_prefix() -> Seq<char> {
    "spotify:album:"@
}

/// Playlists and albums have a `spotify:` URI; the other sources do not.
pub open spec fn spotify_uri_spec(s: SongsSourceView) -> Option<Seq<char>> {
    match s {
        SongsSourceView::Playlist(id) => Some(playlist_uri_prefix() + id),
        SongsSourceView::Album(id) => Some(album_uri_prefix() + id),
        _ => None,
    }
}

impl SongsSource {
    /// Whether two sources are the same (same kind and id).
    pub fn same_as(&self, other: &SongsSource) -> (r: bool)
        ensures
            r == (self@ == other@),
    {
        match (self, other) {
            (SongsSource::Playlist(l), SongsSource::Playlist(r)) => str_equals(l.as_str(), r.as_str()),
            (SongsSource::Album(l), SongsSource::Album(r)) => str_equals(l.as_str(), r.as_str()),
            (SongsSource::Artist(l), SongsSource::Artist(r)) => str_equals(l.as_str(), r.as_str()),
            (SongsSource::SavedTracks, SongsSource::SavedTracks) => true,
            _ => false,
        }
    }

    pub fn has_spotify_uri(&self) -> (r: bool)
        ensures
            r == spotify_uri_spec(self@) is Some,
    {
        match self {
            SongsSource::Playlist(_) | SongsSource::Album(_) => true,
            _ => false,
        }
    }

    pub fn spotify_uri(&self) -> (r: Option<String>)
        ensures
            match r {
                Some(u) => spotify_uri_spec(self@) == Some(u@),
                None => spotify_uri_spec(self@) is None,
            },
    {
        match self {
            SongsSource::Playlist(id) => {
                let mut uri = String::from_str("spotify:playlist:");
                uri.append(id.as_str());
                Some(uri)
            },
            SongsSource::Album(id) => {
                let mut uri = String::from_str("spotify:album:");
                uri.append(id.as_str());
                Some(uri)
            },
            _ => None,
        }
    }
}

/// A window into a paginated list: where it starts, how many items it asks
/// for, and how many there are in all.
#[derive(Clone, Copy, Debug, PartialEq, Eq, Structural)]
pub struct Batch {
    pub offset: usize,
    pub batch_size: usize,
    pub total: usize,
}

/// Which batch to load from which source.
#[derive(Clone, Debug)]
pub struct BatchQuery {
    pub source: SongsSource,
    pub batch: Batch,
}

/// The Web API request that loads a batch.
pub enum FetchRequest {
    PlaylistTracks { id: String, offset: usize, batch_size: usize },
    SavedTracks { offset: usize, batch_size: usize },
    AlbumTracks { id: String, offset: usize, batch_size: usize },
}

pub enum FetchRequestView {
    PlaylistTracks { id: Seq<char>, offset: usize, batch_size: usize },
    SavedTracks { offset: usize, batch_size: usize },
    AlbumTracks { id: Seq<char>, offset: usize, batch_size: usize },
}

pub open spec fn fetch_view(r: Option<FetchRequest>) -> Option<FetchRequestView> {
    match r {
        Some(FetchRequest::PlaylistTracks { id, offset, batch_size }) => Some(
            FetchRequestView::PlaylistTracks { id: id@, offset, batch_size },
        ),
        Some(FetchRequest::SavedTracks { offset, batch_size }) => Some(
            FetchRequestView::SavedTracks { offset, batch_size },
        ),
        Some(FetchRequest::AlbumTracks { id, offset, batch_size }) => Some(
            FetchRequestView::AlbumTracks { id: id@, offset, batch_size },
        ),
        None => None,
    }
}

/// Artist top tracks are not paginated, so they are never batch-loaded.
pub open spec fn fetch_spec(source: SongsSourceView, batch: Batch) -> Option<FetchRequestView> {
    match source {
        SongsSourceView::Playlist(id) => Some(
            FetchRequestView::PlaylistTracks {
                id,
                offset: batch.offset,
                batch_size: batch.batch_size,
            },
        ),
        SongsSourceView::SavedTracks => Some(
            FetchRequestView::SavedTracks { offset: batch.offset, batch_size: batch.batch_size },
        ),
        SongsSourceView::Album(id) => Some(
            FetchRequestView::AlbumTracks { id, offset: batch.offset, batch_size: batch.batch_size },
        ),
        SongsSourceView::Artist(_) => None,
    }
}

impl BatchQuery {
    /// The request that loads this batch; none for an artist.
    pub fn fetch_request(&self) -> (r: Option<FetchRequest>)
        ensures
            fetch_view(r) == fetch_spec(self.source@, self.batch),
    {
        let offset = self.batch.offset;
        let batch_size = self.batch.batch_size;
        match &self.source {
            SongsSource::Playlist(id) => Some(
                FetchRequest::PlaylistTracks { id: id.clone(), offset, batch_size },
            ),
            SongsSource::SavedTracks => Some(FetchRequest::SavedTracks { offset, batch_size }),
            SongsSource::Album(id) => Some(
                FetchRequest::AlbumTracks { id: id.clone(), offset, batch_size },
            ),
            SongsSource::Artist(_) => None,
        }
    }
}

/// Loads batches of songs through an API client.
pub struct BatchLoader<A> {
    api: A,
}

impl<A> BatchLoader<A> {
    pub closed spec fn api_spec(&self) -> A {
        self.api
    }

    pub fn new(api: A) -> (r: BatchLoader<A>)
        ensures
            r.api_spec() == api,
    {
        BatchLoader { api }
    }

    pub fn api(&self) -> (r: &A)
        ensures
            *r == self.api_spec(),
    {
        &self.api
    }
}

/// The `spotify:` URI of a playlist or album source parses back to a link to
/// the same playlist or album, for ids as Spotify issues them: non-empty, with
/// no `:` and no white space at the end.
pub proof fn law_source_uri_parses_back(source: SongsSourceView)
    requires
        spotify_uri_spec(source) is Some,
        valid_uri_id(
            match source {
                SongsSourceView::Playlist(id) => id,
                SongsSourceView::Album(id) => id,
                _ => Seq::empty(),
            },
        ),
    ensures
        parse_spec(spotify_uri_spec(source)->0) == match source {
            SongsSourceView::Playlist(id) => Some((LinkKind::Playlist, id)),
            SongsSourceView::Album(id) => Some((LinkKind::Album, id)),
            _ => None,
        },
{
    reveal_strlit("spotify:playlist:");
    reveal_strlit("spotify:album:");
    match source {
        SongsSourceView::Playlist(id) => {
            assert(playlist_uri_prefix() =~= uri_scheme() + playlist_word() + seq![':']);
            lemma_uri_parses(playlist_word(), LinkKind::Playlist, id);
        },
        SongsSourceView::Album(id) => {
            assert(album_uri_prefix() =~= uri_scheme() + album_word() + seq![':']);
            lemma_uri_parses(album_word(), LinkKind::Album, id);
        },
        _ => {},
    }
}

/// The request for a batch asks for that batch: the batch's own offset and
/// size, from the source's own list (a playlist's tracks by its id, an
/// album's tracks by its id, the saved tracks); an artist has no batches.
pub proof fn law_fetch_request_is_for_the_batch(source: SongsSourceView, batch: Batch)
    ensures
        source matches SongsSourceView::Playlist(id) ==> fetch_spec(source, batch) == Some(
            FetchRequestView::PlaylistTracks {
                id,
                offset: batch.offset,
                batch_size: batch.batch_size,
            },
        ),
        source matches SongsSourceView::Album(id) ==> fetch_spec(source, batch) == Some(
            FetchRequestView::AlbumTracks {
                id,
                offset: batch.offset,
                batch_size: batch.batch_size,
            },
        ),
        source is SavedTracks ==> fetch_spec(source, batch) == Some(
            FetchRequestView::SavedTracks { offset: batch.offset, batch_size: batch.batch_size },
        ),
        source is Artist ==> fetch_spec(source, batch) is None,
        fetch_spec(source, batch) matches Some(r) ==> match r {
            FetchRequestView::PlaylistTracks { offset, batch_size, .. } => offset == batch.offset
                && batch_size == batch.batch_size,
            FetchRequestView::SavedTracks { offset, batch_size } => offset == batch.offset
                && batch_size == batch.batch_size,
            FetchRequestView::AlbumTracks { offset, batch_size, .. } => offset == batch.offset
                && batch_size == batch.batch_size,
        },
{
}

} // verus!
