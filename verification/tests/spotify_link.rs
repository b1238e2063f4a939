use riff::pages::NowPlayingModel;
use riff::sidebar::SidebarModel;
use riff::spotify_link::{LinkKind, SpotifyLink};

#[test]
fn test_parse_uri_album() {
    assert_eq!(
        SpotifyLink::parse("spotify:album:6akEvsycLGftJxYudPjmqK"),
        Some(SpotifyLink::Album("6akEvsycLGftJxYudPjmqK".to_string()))
    );
}

#[test]
fn test_parse_uri_all_types() {
    assert_eq!(
        SpotifyLink::parse("spotify:artist:abc"),
        Some(SpotifyLink::Artist("abc".to_string()))
    );
    assert_eq!(
        SpotifyLink::parse("spotify:playlist:abc"),
        Some(SpotifyLink::Playlist("abc".to_string()))
    );
    assert_eq!(
        SpotifyLink::parse("spotify:user:abc"),
        Some(SpotifyLink::User("abc".to_string()))
    );
    assert_eq!(
        SpotifyLink::parse("spotify:track:abc"),
        Some(SpotifyLink::Track("abc".to_string()))
    );
}

#[test]
fn test_parse_uri_with_glib_slashes() {
    assert_eq!(
        SpotifyLink::parse("spotify:///playlist:xyz"),
        Some(SpotifyLink::Playlist("xyz".to_string()))
    );
}

#[test]
fn test_parse_url_track() {
    assert_eq!(
        SpotifyLink::parse("https://open.spotify.com/track/6rqhFgbbKwnb9MLmUQDhG6"),
        Some(SpotifyLink::Track("6rqhFgbbKwnb9MLmUQDhG6".to_string()))
    );
}

#[test]
fn test_parse_url_with_query() {
    assert_eq!(
        SpotifyLink::parse(
            "https://open.spotify.com/album/6akEvsycLGftJxYudPjmqK?si=abcdef123456"
        ),
        Some(SpotifyLink::Album("6akEvsycLGftJxYudPjmqK".to_string()))
    );
}

#[test]
fn test_parse_url_with_locale_prefix() {
    assert_eq!(
        SpotifyLink::parse("https://open.spotify.com/intl-de/track/abc?si=xyz"),
        Some(SpotifyLink::Track("abc".to_string()))
    );
}

#[test]
fn test_parse_url_http_scheme() {
    assert_eq!(
        SpotifyLink::parse("http://open.spotify.com/artist/abc"),
        Some(SpotifyLink::Artist("abc".to_string()))
    );
}

#[test]
fn test_parse_url_trailing_slash() {
    assert_eq!(
        SpotifyLink::parse("https://open.spotify.com/playlist/abc/"),
        Some(SpotifyLink::Playlist("abc".to_string()))
    );
}

#[test]
fn test_parse_with_surrounding_whitespace() {
    assert_eq!(
        SpotifyLink::parse("  spotify:album:abc\n"),
        Some(SpotifyLink::Album("abc".to_string()))
    );
}

#[test]
fn test_reject_non_spotify() {
    assert_eq!(SpotifyLink::parse(""), None);
    assert_eq!(SpotifyLink::parse("hello world"), None);
    assert_eq!(SpotifyLink::parse("https://example.com/track/abc"), None);
    assert_eq!(
        SpotifyLink::parse("https://open.spotify.com/unknown/abc"),
        None
    );
    assert_eq!(SpotifyLink::parse("spotify:album:"), None);
    assert_eq!(SpotifyLink::parse("spotify:album"), None);
    assert_eq!(SpotifyLink::parse("https://open.spotify.com/track"), None);
}

#[test]
fn parse_url_with_fragment_and_double_slashes() {
    assert_eq!(
        SpotifyLink::parse("https://open.spotify.com//album//xyz#frag"),
        Some(SpotifyLink::Album("xyz".to_string()))
    );
    assert_eq!(
        SpotifyLink::parse("https://open.spotify.com/intl-de"),
        None
    );
    assert_eq!(
        SpotifyLink::parse("https://open.spotify.com/intl-fr/album"),
        None
    );
}

#[test]
fn parse_uri_keeps_only_second_component() {
    assert_eq!(
        SpotifyLink::parse("spotify:track:abc:extra"),
        Some(SpotifyLink::Track("abc".to_string()))
    );
    assert_eq!(SpotifyLink::parse("spotify:episode:abc"), None);
    assert_eq!(SpotifyLink::parse("   \t\n "), None);
}

#[test]
fn parse_handles_unicode_whitespace_and_ids() {
    assert_eq!(
        SpotifyLink::parse("\u{3000}spotify:user:j\u{00f6}rg\u{00a0}"),
        Some(SpotifyLink::User("j\u{00f6}rg".to_string()))
    );
}

#[test]
fn parse_uri_and_url_helpers() {
    assert_eq!(
        SpotifyLink::parse_uri("///album:q"),
        Some(SpotifyLink::Album("q".to_string()))
    );
    assert_eq!(
        SpotifyLink::parse_url("https://open.spotify.com/user/me"),
        Some(SpotifyLink::User("me".to_string()))
    );
    assert_eq!(SpotifyLink::from_kind_and_id("track", ""), None);
    assert_eq!(SpotifyLink::from_kind_and_id("show", "x"), None);
}

#[test]
fn kind_labels() {
    assert_eq!(SpotifyLink::Album("a".to_string()).kind_label(), "album");
    assert_eq!(SpotifyLink::Artist("a".to_string()).kind_label(), "artist");
    assert_eq!(SpotifyLink::Playlist("a".to_string()).kind_label(), "playlist");
    assert_eq!(SpotifyLink::User("a".to_string()).kind_label(), "profile");
    assert_eq!(SpotifyLink::Track("a".to_string()).kind_label(), "track");
    assert_eq!(SpotifyLink::Track("a".to_string()).kind(), LinkKind::Track);
    assert_eq!(SpotifyLink::User("me".to_string()).id(), "me");
}

#[test]
fn copied_links_open_again() {
    let track = NowPlayingModel::new().share_link("4uLU6hMCjMI75M1A2tKUQC");
    assert_eq!(
        SpotifyLink::parse(&track),
        Some(SpotifyLink::Track("4uLU6hMCjMI75M1A2tKUQC".to_string()))
    );
    let playlist = SidebarModel::new().playlist_link("37i9dQZF1DXcBWIGoYBM5M");
    assert_eq!(
        SpotifyLink::parse(&playlist),
        Some(SpotifyLink::Playlist("37i9dQZF1DXcBWIGoYBM5M".to_string()))
    );
}

#[test]
fn shared_links_with_locale_and_tracking_open_the_same_object() {
    assert_eq!(
        SpotifyLink::parse("  https://open.spotify.com/intl-de/track/4uLU6hMCjMI75M1A2tKUQC?si=abc  "),
        Some(SpotifyLink::Track("4uLU6hMCjMI75M1A2tKUQC".to_string()))
    );
    assert_eq!(
        SpotifyLink::parse("https://open.spotify.com/intl-pt/album/xyz?"),
        Some(SpotifyLink::Album("xyz".to_string()))
    );
}

#[test]
fn every_form_of_a_link_opens_the_same_object() {
    let forms = [
        "spotify:artist:0OdUWJ0sBjDrqHygGUXeCF",
        "https://open.spotify.com/artist/0OdUWJ0sBjDrqHygGUXeCF",
        "http://open.spotify.com/artist/0OdUWJ0sBjDrqHygGUXeCF",
        "https://open.spotify.com/artist/0OdUWJ0sBjDrqHygGUXeCF/",
        "http://open.spotify.com/artist/0OdUWJ0sBjDrqHygGUXeCF/",
    ];
    for f in forms {
        assert_eq!(
            SpotifyLink::parse(f),
            Some(SpotifyLink::Artist("0OdUWJ0sBjDrqHygGUXeCF".to_string()))
        );
    }
}
