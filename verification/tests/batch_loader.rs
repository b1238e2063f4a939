use riff::batch_loader::{Batch, BatchLoader, BatchQuery, FetchRequest, SongsSource};
use riff::spotify_link::{LinkKind, SpotifyLink};

#[test]
fn playlist_and_album_have_uris() {
    let p = SongsSource::Playlist("37i9dQZF1DXcBWIGoYBM5M".to_string());
    assert_eq!(p.spotify_uri().unwrap(), "spotify:playlist:37i9dQZF1DXcBWIGoYBM5M");
    assert!(p.has_spotify_uri());
    let a = SongsSource::Album("4aawyAB9vmqN3uQ7FjRGTy".to_string());
    assert_eq!(a.spotify_uri().unwrap(), "spotify:album:4aawyAB9vmqN3uQ7FjRGTy");
    assert!(SongsSource::Artist("x".to_string()).spotify_uri().is_none());
    assert!(!SongsSource::SavedTracks.has_spotify_uri());
}

#[test]
fn sources_compare_by_kind_and_id() {
    let a = SongsSource::Playlist("1".to_string());
    assert!(a.same_as(&SongsSource::Playlist("1".to_string())));
    assert!(!a.same_as(&SongsSource::Playlist("2".to_string())));
    assert!(!a.same_as(&SongsSource::Album("1".to_string())));
    assert!(SongsSource::SavedTracks.same_as(&SongsSource::SavedTracks));
}

#[test]
fn source_uri_parses_back_to_the_source() {
    let p = SongsSource::Playlist("abc123".to_string());
    let link = SpotifyLink::parse(&p.spotify_uri().unwrap()).unwrap();
    assert_eq!(link.kind(), LinkKind::Playlist);
    assert_eq!(link.id(), "abc123");
    let a = SongsSource::Album("xyz".to_string());
    let link = SpotifyLink::parse(&a.spotify_uri().unwrap()).unwrap();
    assert_eq!(link.kind(), LinkKind::Album);
    assert_eq!(link.id(), "xyz");
}

#[test]
fn batch_queries_pick_the_request() {
    let batch = Batch { offset: 50, batch_size: 25, total: 200 };
    let q = BatchQuery { source: SongsSource::Playlist("p".to_string()), batch };
    match q.fetch_request() {
        Some(FetchRequest::PlaylistTracks { id, offset, batch_size }) => {
            assert_eq!(id, "p");
            assert_eq!(offset, 50);
            assert_eq!(batch_size, 25);
        }
        _ => panic!("expected a playlist request"),
    }
    let q = BatchQuery { source: SongsSource::SavedTracks, batch };
    assert!(matches!(
        q.fetch_request(),
        Some(FetchRequest::SavedTracks { offset: 50, batch_size: 25 })
    ));
    let q = BatchQuery { source: SongsSource::Album("al".to_string()), batch };
    assert!(matches!(q.fetch_request(), Some(FetchRequest::AlbumTracks { .. })));
    let q = BatchQuery { source: SongsSource::Artist("ar".to_string()), batch };
    assert!(q.fetch_request().is_none());
}

#[test]
fn loader_keeps_its_client() {
    let loader = BatchLoader::new(42u32);
    assert_eq!(*loader.api(), 42);
}
