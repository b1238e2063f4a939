//! Parsing of Spotify links into a small, typed representation.
//!
//! Two flavours of link are understood:
//!  - `spotify:` URIs, e.g. `spotify:album:6akEvsycLGftJxYudPjmqK`, used for
//!    deep links;
//!  - `https://open.spotify.com/...` URLs, as copied out of the Spotify apps and
//!    web player. A locale prefix (`/intl-de/track/...`) and a query or fragment
//!    (`?si=...`) are normalised away.

use vstd::prelude::*;

use crate::text::{
    chars_of, find, find_char_in, is_char, is_not_char, is_white_space, lemma_find_bounds,
    lemma_find_is, lemma_rfind_end_is, lemma_trim_idempotent, not_white_space, range_equals,
    range_starts_with, starts_with, trim, trim_bounds,
};

verus! {

/// The kinds of Spotify object a link can point at.
#[derive(Clone, Copy, Debug, PartialEq, Eq, Structural)]
pub enum LinkKind {
    Album,
    Artist,
    Playlist,
    User,
    Track,
}

/// A resolved reference to something on Spotify that the app knows how to open.
#[derive(Clone, Debug, PartialEq, Eq)]
pub enum SpotifyLink {
    Album(String),
    Artist(String),
    Playlist(String),
    User(String),
    Track(String),
}

impl View for SpotifyLink {
    type V = (LinkKind, Seq<char>);

    open spec fn view(&self) -> (LinkKind, Seq<char>) {
        match self {
            SpotifyLink::Album(id) => (LinkKind::Album, id@),
            SpotifyLink::Artist(id) => (LinkKind::Artist, id@),
            SpotifyLink::Playlist(id) => (LinkKind::Playlist, id@),
            SpotifyLink::User(id) => (LinkKind::User, id@),
            SpotifyLink::Track(id) => (LinkKind::Track, id@),
        }
    }
}

/// The view of an optional link.
pub open spec fn link_view(o: Option<SpotifyLink>) -> Option<(LinkKind, Seq<char>)> {
    match o {
        Some(l) => Some(l@),
        None => None,
    }
}

pub open spec fn uri_scheme() -> Seq<char> {
    seq!['s', 'p', 'o', 't', 'i', 'f', 'y', ':']
}

pub open spec fn https_scheme() -> Seq<char> {
    seq!['h', 't', 't', 'p', 's', ':', '/', '/']
}

pub open spec fn http_scheme() -> Seq<char> {
    seq!['h', 't', 't', 'p', ':', '/', '/']
}

pub open spec fn web_host() -> Seq<char> {
    seq!['o', 'p', 'e', 'n', '.', 's', 'p', 'o', 't', 'i', 'f', 'y', '.', 'c', 'o', 'm', '/']
}

pub open spec fn locale_prefix() -> Seq<char> {
    seq!['i', 'n', 't', 'l', '-']
}

pub open spec fn album_word() -> Seq<char> {
    seq!['a', 'l', 'b', 'u', 'm']
}

pub open spec fn artist_word() -> Seq<char> {
    seq!['a', 'r', 't', 'i', 's', 't']
}

pub open spec fn playlist_word() -> Seq<char> {
    seq!['p', 'l', 'a', 'y', 'l', 'i', 's', 't']
}

pub open spec fn user_word() -> Seq<char> {
    seq!['u', 's', 'e', 'r']
}

pub open spec fn track_word() -> Seq<char> {
    seq!['t', 'r', 'a', 'c', 'k']
}

pub open spec fn profile_word() -> Seq<char> {
    seq!['p', 'r', 'o', 'f', 'i', 'l', 'e']
}

/// The link kind named by a path or URI component.
pub open spec fn kind_named(kind: Seq<char>) -> Option<LinkKind> {
    if kind == album_word() {
        Some(LinkKind::Album)
    } else if kind == artist_word() {
        Some(LinkKind::Artist)
    } else if kind == playlist_word() {
        Some(LinkKind::Playlist)
    } else if kind == user_word() {
        Some(LinkKind::User)
    } else if kind == track_word() {
        Some(LinkKind::Track)
    } else {
        None
    }
}

/// A link from a kind component and an id component: the id must be non-empty
/// and the kind one of the known words.
pub open spec fn link_of(kind: Seq<char>, id: Seq<char>) -> Option<(LinkKind, Seq<char>)> {
    if id.len() == 0 {
        None
    } else {
        match kind_named(kind) {
            Some(k) => Some((k, id)),
            None => None,
        }
    }
}

/// The non-empty `/`-separated segments of a path, in order.
pub open spec fn segments(s: Seq<char>) -> Seq<Seq<char>>
    decreases s.len(),
{
    if s.len() == 0 {
        Seq::empty()
    } else if s[0] == '/' {
        segments(s.drop_first())
    } else {
        let i = find(s, is_char('/'));
        proof {
            lemma_find_bounds(s, is_char('/'));
        }
        seq![s.take(i as int)] + segments(s.skip(i as int))
    }
}

pub open spec fn is_query_or_fragment() -> spec_fn(char) -> bool {
    |c: char| c == '?' || c == '#'
}

/// What follows `spotify:` in a URI: leading slashes are ignored, the kind runs
/// up to the first `:`, and the id runs from there up to the next `:` or the end.
pub open spec fn parse_uri_spec(rest: Seq<char>) -> Option<(LinkKind, Seq<char>)> {
    let r = rest.skip(find(rest, is_not_char('/')) as int);
    let p = find(r, is_char(':'));
    if p == r.len() {
        None
    } else {
        let after = r.skip(p + 1 as int);
        link_of(r.take(p as int), after.take(find(after, is_char(':')) as int))
    }
}

/// An `http(s)://open.spotify.com/` URL: the path (before any `?` or `#`) is
/// split into non-empty segments; an optional `intl-...` locale segment is
/// skipped; then come the kind and the id.
pub open spec fn parse_url_spec(t: Seq<char>) -> Option<(LinkKind, Seq<char>)> {
    let rest_opt: Option<Seq<char>> = if starts_with(t, https_scheme()) {
        Some(t.skip(8))
    } else if starts_with(t, http_scheme()) {
        Some(t.skip(7))
    } else {
        None
    };
    match rest_opt {
        None => None,
        Some(rest) => {
            if !starts_with(rest, web_host()) {
                None
            } else {
                let r = rest.skip(17);
                let path = r.take(find(r, is_query_or_fragment()) as int);
                let segs = segments(path);
                let k: int = if segs.len() > 0 && starts_with(segs[0], locale_prefix()) {
                    1
                } else {
                    0
                };
                if segs.len() < k + 2 {
                    None
                } else {
                    link_of(segs[k], segs[k + 1])
                }
            }
        }
    }
}

/// The link denoted by some input text: surrounding white space is ignored,
/// empty text is no link, `spotify:` selects the URI form and anything else
/// the URL form.
pub open spec fn parse_spec(input: Seq<char>) -> Option<(LinkKind, Seq<char>)> {
    let t = trim(input);
    if t.len() == 0 {
        None
    } else if starts_with(t, uri_scheme()) {
        parse_uri_spec(t.skip(8))
    } else {
        parse_url_spec(t)
    }
}

/// The label shown for each kind of link.
pub open spec fn kind_label_spec(k: LinkKind) -> Seq<char> {
    match k {
        LinkKind::Album => album_word(),
        LinkKind::Artist => artist_word(),
        LinkKind::Playlist => playlist_word(),
        LinkKind::User => profile_word(),
        LinkKind::Track => track_word(),
    }
}

/// The first non-empty segment of `v[from..end]` and where the rest begins.
fn next_segment(v: &Vec<char>, from: usize, end: usize) -> (r: (usize, usize))
    requires
        from <= end <= v@.len(),
    ensures
        from <= r.0 <= r.1 <= end,
        r.0 == r.1 ==> segments(v@.subrange(from as int, end as int)) == Seq::<Seq<char>>::empty(),
        r.0 < r.1 ==> segments(v@.subrange(from as int, end as int)) == seq![
            v@.subrange(r.0 as int, r.1 as int),
        ] + segments(v@.subrange(r.1 as int, end as int)),
{
    let mut i = from;
    while i < end && v[i] == '/'
        invariant
            from <= i <= end <= v@.len(),
            segments(v@.subrange(from as int, end as int)) == segments(
                v@.subrange(i as int, end as int),
            ),
        decreases end - i,
    {
        proof {
            let sub = v@.subrange(i as int, end as int);
            assert(sub[0] == '/');
            assert(sub.drop_first() =~= v@.subrange(i + 1, end as int));
        }
        i = i + 1;
    }
    if i == end {
        proof {
            assert(v@.subrange(i as int, end as int).len() == 0);
        }
        return (i, i);
    }
    let stop = find_char_in(v, i, end, '/');
    proof {
        let sub = v@.subrange(i as int, end as int);
        assert(sub[0] == v@[i as int]);
        lemma_find_bounds(sub, is_char('/'));
        assert(sub[0] != '/');
        assert(stop > i);
        assert(sub.take(stop - i) =~= v@.subrange(i as int, stop as int));
        assert(sub.skip(stop - i) =~= v@.subrange(stop as int, end as int));
    }
    (i, stop)
}

/// Index (at or after `from`) of the first `?` or `#` in `v`, or `v.len()`.
fn find_query_start(v: &Vec<char>, from: usize) -> (r: usize)
    requires
        from <= v@.len(),
    ensures
        from <= r <= v@.len(),
        r - from == find(v@.skip(from as int), is_query_or_fragment()),
{
    let n = v.len();
    let mut i = from;
    while i < n && v[i] != '?' && v[i] != '#'
        invariant
            n == v@.len(),
            from <= i <= n,
            forall|k: int| from <= k < i ==> v@[k] != '?' && v@[k] != '#',
        decreases n - i,
    {
        i = i + 1;
    }
    proof {
        let sub = v@.skip(from as int);
        assert forall|k: int| 0 <= k < i - from implies !is_query_or_fragment()(
            #[trigger] sub[k],
        ) by {
            assert(sub[k] == v@[from + k]);
        }
        if i < n {
            assert(sub[i - from] == v@[i as int]);
        }
        lemma_find_is(sub, is_query_or_fragment(), i - from);
    }
    i
}

impl SpotifyLink {
    /// Parse a `spotify:` URI or an `open.spotify.com` URL.
    ///
    /// Returns `None` if the input is not a Spotify link or references a type
    /// the app does not know how to open.
    pub fn parse(input: &str) -> (r: Option<SpotifyLink>)
        ensures
            link_view(r) == parse_spec(input@),
    {
        let v = chars_of(input);
        let (a, b) = trim_bounds(&v);
        if a == b {
            return None;
        }
        let scheme: [char; 8] = ['s', 'p', 'o', 't', 'i', 'f', 'y', ':'];
        proof {
            assert(scheme@ == uri_scheme());
        }
        let trimmed = input.substring_char(a, b);
        if range_starts_with(&v, a, b, &scheme) {
            let rest = input.substring_char(a + 8, b);
            proof {
                assert(trimmed@.skip(8) =~= rest@);
            }
            Self::parse_uri(rest)
        } else {
            Self::parse_url(trimmed)
        }
    }

    /// Parse the part of a `spotify:` URI following the scheme, e.g.
    /// `album:6akEvsycLGftJxYudPjmqK`.
    pub fn parse_uri(rest: &str) -> (r: Option<SpotifyLink>)
        ensures
            link_view(r) == parse_uri_spec(rest@),
    {
        let v = chars_of(rest);
        let n = v.len();
        // Some URI handlers hand over a leading `///` before the first component.
        let mut s: usize = 0;
        while s < n && v[s] == '/'
            invariant
                n == v@.len(),
                s <= n,
                forall|k: int| 0 <= k < s ==> v@[k] == '/',
            decreases n - s,
        {
            s = s + 1;
        }
        proof {
            lemma_find_is(rest@, is_not_char('/'), s as int);
            assert(v@.subrange(s as int, n as int) =~= rest@.skip(s as int));
        }
        let p = find_char_in(&v, s, n, ':');
        if p == n {
            return None;
        }
        let q = find_char_in(&v, p + 1, n, ':');
        proof {
            let r = rest@.skip(s as int);
            assert(r.skip(p - s + 1) =~= v@.subrange(p + 1, n as int));
            assert(r.take(p - s) =~= rest@.subrange(s as int, p as int));
            assert(r.skip(p - s + 1).take(q - (p + 1)) =~= rest@.subrange(p + 1, q as int));
        }
        let kind = rest.substring_char(s, p);
        let id = rest.substring_char(p + 1, q);
        Self::from_kind_and_id(kind, id)
    }

    /// Parse an `https://open.spotify.com/...` URL.
    pub fn parse_url(input: &str) -> (r: Option<SpotifyLink>)
        ensures
            link_view(r) == parse_url_spec(input@),
    {
        let v = chars_of(input);
        let n = v.len();
        let https: [char; 8] = ['h', 't', 't', 'p', 's', ':', '/', '/'];
        let http: [char; 7] = ['h', 't', 't', 'p', ':', '/', '/'];
        let host: [char; 17] = [
            'o',
            'p',
            'e',
            'n',
            '.',
            's',
            'p',
            'o',
            't',
            'i',
            'f',
            'y',
            '.',
            'c',
            'o',
            'm',
            '/',
        ];
        let intl: [char; 5] = ['i', 'n', 't', 'l', '-'];
        proof {
            assert(https@ == https_scheme());
            assert(http@ == http_scheme());
            assert(host@ == web_host());
            assert(intl@ == locale_prefix());
            assert(v@.subrange(0, n as int) =~= v@);
        }
        let rest_start: usize = if range_starts_with(&v, 0, n, &https) {
            8
        } else if range_starts_with(&v, 0, n, &http) {
            7
        } else {
            return None;
        };
        proof {
            assert(v@.subrange(rest_start as int, n as int) =~= v@.skip(rest_start as int));
        }
        if !range_starts_with(&v, rest_start, n, &host) {
            return None;
        }
        let path_start = rest_start + 17;
        let path_end = find_query_start(&v, path_start);
        proof {
            let rest = v@.skip(rest_start as int);
            assert(rest.skip(17) =~= v@.skip(path_start as int));
            assert(v@.skip(path_start as int).take(path_end - path_start) =~= v@.subrange(
                path_start as int,
                path_end as int,
            ));
        }
        let ghost path = v@.subrange(path_start as int, path_end as int);
        let ghost segs = segments(path);
        let (s1, e1) = next_segment(&v, path_start, path_end);
        if s1 == e1 {
            return None;
        }
        assert(segs[0] == v@.subrange(s1 as int, e1 as int));
        let (kind_start, kind_end, after_kind) = if range_starts_with(&v, s1, e1, &intl) {
            let (s2, e2) = next_segment(&v, e1, path_end);
            if s2 == e2 {
                return None;
            }
            assert(segs[1] == v@.subrange(s2 as int, e2 as int));
            (s2, e2, e2)
        } else {
            (s1, e1, e1)
        };
        let (s3, e3) = next_segment(&v, after_kind, path_end);
        if s3 == e3 {
            proof {
                if kind_start != s1 {
                    assert(segs.len() == 2);
                } else {
                    assert(segs.len() == 1);
                }
            }
            return None;
        }
        proof {
            if kind_start != s1 {
                assert(segs[2] == v@.subrange(s3 as int, e3 as int));
            } else {
                assert(segs[1] == v@.subrange(s3 as int, e3 as int));
            }
        }
        let kind = input.substring_char(kind_start, kind_end);
        let id = input.substring_char(s3, e3);
        Self::from_kind_and_id(kind, id)
    }

    /// The link with the given kind word and id, when the id is non-empty and
    /// the kind is one of `album`, `artist`, `playlist`, `user`, `track`.
    pub fn from_kind_and_id(kind: &str, id: &str) -> (r: Option<SpotifyLink>)
        ensures
            link_view(r) == link_of(kind@, id@),
    {
        if id.unicode_len() == 0 {
            return None;
        }
        let k = chars_of(kind);
        let n = k.len();
        let album: [char; 5] = ['a', 'l', 'b', 'u', 'm'];
        let artist: [char; 6] = ['a', 'r', 't', 'i', 's', 't'];
        let playlist: [char; 8] = ['p', 'l', 'a', 'y', 'l', 'i', 's', 't'];
        let user: [char; 4] = ['u', 's', 'e', 'r'];
        let track: [char; 5] = ['t', 'r', 'a', 'c', 'k'];
        proof {
            assert(album@ == album_word());
            assert(artist@ == artist_word());
            assert(playlist@ == playlist_word());
            assert(user@ == user_word());
            assert(track@ == track_word());
            assert(k@.subrange(0, n as int) =~= kind@);
        }
        let id = String::from_str(id);
        if range_equals(&k, 0, n, &album) {
            Some(SpotifyLink::Album(id))
        } else if range_equals(&k, 0, n, &artist) {
            Some(SpotifyLink::Artist(id))
        } else if range_equals(&k, 0, n, &playlist) {
            Some(SpotifyLink::Playlist(id))
        } else if range_equals(&k, 0, n, &user) {
            Some(SpotifyLink::User(id))
        } else if range_equals(&k, 0, n, &track) {
            Some(SpotifyLink::Track(id))
        } else {
            None
        }
    }

    /// The kind of object this link points at.
    pub fn kind(&self) -> (r: LinkKind)
        ensures
            r == self@.0,
    {
        match self {
            SpotifyLink::Album(_) => LinkKind::Album,
            SpotifyLink::Artist(_) => LinkKind::Artist,
            SpotifyLink::Playlist(_) => LinkKind::Playlist,
            SpotifyLink::User(_) => LinkKind::User,
            SpotifyLink::Track(_) => LinkKind::Track,
        }
    }

    /// The Spotify id the link points at.
    pub fn id(&self) -> (r: &String)
        ensures
            r@ == self@.1,
    {
        match self {
            SpotifyLink::Album(id) => id,
            SpotifyLink::Artist(id) => id,
            SpotifyLink::Playlist(id) => id,
            SpotifyLink::User(id) => id,
            SpotifyLink::Track(id) => id,
        }
    }

    /// A short, human-readable label for the kind of link, used in the
    /// "open this link?" prompt.
    pub fn kind_label(&self) -> (r: &'static str)
        ensures
            r@ == kind_label_spec(self@.0),
    {
        proof {
            reveal_strlit("album");
            reveal_strlit("artist");
            reveal_strlit("playlist");
            reveal_strlit("profile");
            reveal_strlit("track");
        }
        match self {
            SpotifyLink::Album(_) => "album",
            SpotifyLink::Artist(_) => "artist",
            SpotifyLink::Playlist(_) => "playlist",
            SpotifyLink::User(_) => "profile",
            SpotifyLink::Track(_) => "track",
        }
    }
}

/// The path word of each kind of link.
pub open spec fn kind_word(k: LinkKind) -> Seq<char> {
    match k {
        LinkKind::Album => album_word(),
        LinkKind::Artist => artist_word(),
        LinkKind::Playlist => playlist_word(),
        LinkKind::User => user_word(),
        LinkKind::Track => track_word(),
    }
}

/// The web link of an object: `https://open.spotify.com/<kind>/<id>`.
pub open spec fn web_link_spec(k: LinkKind, id: Seq<char>) -> Seq<char> {
    https_scheme() + web_host() + kind_word(k) + seq!['/'] + id
}

/// An id as Spotify issues them, as far as web links are concerned:
/// non-empty, without `/`, `?` or `#`, and not ending in white space.
pub open spec fn valid_web_id(id: Seq<char>) -> bool {
    &&& id.len() > 0
    &&& !is_white_space(id.last())
    &&& forall|k: int| 0 <= k < id.len() ==> #[trigger] id[k] != '/' && id[k] != '?' && id[k] != '#'
}

/// The segments of `w/id` are `w` and `id` when neither holds a `/`.
proof fn lemma_two_segments(w: Seq<char>, id: Seq<char>)
    requires
        w.len() > 0,
        id.len() > 0,
        forall|k: int| 0 <= k < w.len() ==> #[trigger] w[k] != '/',
        forall|k: int| 0 <= k < id.len() ==> #[trigger] id[k] != '/',
    ensures
        segments(w + seq!['/'] + id) == seq![w, id],
{
    let s = w + seq!['/'] + id;
    assert(s[0] == w[0]);
    assert forall|k: int| 0 <= k < w.len() implies !is_char('/')(#[trigger] s[k]) by {
        assert(s[k] == w[k]);
    }
    assert(s[w.len() as int] == '/');
    lemma_find_is(s, is_char('/'), w.len() as int);
    assert(s.take(w.len() as int) =~= w);
    let rest = s.skip(w.len() as int);
    assert(rest =~= seq!['/'] + id);
    assert(rest[0] == '/');
    assert(rest.drop_first() =~= id);
    assert(segments(rest) == segments(id));
    assert(id[0] != '/');
    assert forall|k: int| 0 <= k < id.len() implies !is_char('/')(#[trigger] id[k]) by {}
    lemma_find_is(id, is_char('/'), id.len() as int);
    assert(id.take(id.len() as int) =~= id);
    let e = id.skip(id.len() as int);
    assert(e.len() == 0);
    assert(segments(e) =~= Seq::<Seq<char>>::empty());
    assert(segments(id) == seq![id.take(id.len() as int)] + segments(e));
    assert(segments(id) =~= seq![id]);
    assert(segments(s) =~= seq![w] + seq![id]);
}

/// A web link of an object, as the app copies them, opens that object again:
/// `https://open.spotify.com/<kind>/<id>` parses back to the kind and the id,
/// for ids as Spotify issues them.
pub proof fn law_web_link_parses_back(k: LinkKind, id: Seq<char>)
    requires
        valid_web_id(id),
    ensures
        parse_spec(web_link_spec(k, id)) == Some((k, id)),
{
    lemma_web_form(k, id, true, false);
}

/// Text around a link does not matter: white space before and after it is
/// ignored.
pub proof fn law_parse_ignores_surrounding_white_space(input: Seq<char>)
    ensures
        parse_spec(trim(input)) == parse_spec(input),
{
    lemma_trim_idempotent(input);
}

/// A leading segment without `/` is the first of the segments.
proof fn lemma_segment_head(a: Seq<char>, rest: Seq<char>)
    requires
        a.len() > 0,
        forall|k: int| 0 <= k < a.len() ==> #[trigger] a[k] != '/',
    ensures
        segments(a + seq!['/'] + rest) == seq![a] + segments(rest),
{
    let s = a + seq!['/'] + rest;
    assert(s[0] == a[0]);
    assert forall|k: int| 0 <= k < a.len() implies !is_char('/')(#[trigger] s[k]) by {
        assert(s[k] == a[k]);
    }
    assert(s[a.len() as int] == '/');
    lemma_find_is(s, is_char('/'), a.len() as int);
    assert(s.take(a.len() as int) =~= a);
    let t = s.skip(a.len() as int);
    assert(t =~= seq!['/'] + rest);
    assert(t[0] == '/');
    assert(t.drop_first() =~= rest);
    assert(segments(t) == segments(rest));
    assert(segments(s) == seq![s.take(a.len() as int)] + segments(t));
    assert(segments(s) =~= seq![a] + segments(rest));
}

/// What follows `open.spotify.com/` in a web link: the path before any `?`
/// or `#`, split into segments, an optional locale segment skipped, then the
/// kind and the id.
pub open spec fn url_path_link(r: Seq<char>) -> Option<(LinkKind, Seq<char>)> {
    let path = r.take(find(r, is_query_or_fragment()) as int);
    let segs = segments(path);
    let k: int = if segs.len() > 0 && starts_with(segs[0], locale_prefix()) {
        1
    } else {
        0
    };
    if segs.len() < k + 2 {
        None
    } else {
        link_of(segs[k], segs[k + 1])
    }
}

/// An `https://open.spotify.com/` link with nothing to trim is read from what
/// follows the host.
proof fn lemma_https_link(tail: Seq<char>)
    requires
        tail.len() > 0,
        !is_white_space(tail.last()),
    ensures
        parse_spec(https_scheme() + web_host() + tail) == url_path_link(tail),
{
    let s = https_scheme() + web_host() + tail;
    assert(!is_white_space(s[0]));
    lemma_find_is(s, not_white_space(), 0);
    assert(s[s.len() - 1] == tail.last());
    lemma_rfind_end_is(s, not_white_space(), s.len() as int);
    assert(trim(s) =~= s);
    assert(s.take(8)[0] != uri_scheme()[0]);
    assert(!starts_with(s, uri_scheme()));
    assert(s.take(8) =~= https_scheme());
    let rest = s.skip(8);
    assert(rest.take(17) =~= web_host());
    assert(rest.skip(17) =~= tail);
}

/// The locale prefix and the tracking query of a web link, as shared from the
/// Spotify apps (`https://open.spotify.com/intl-de/track/<id>?si=...`), are
/// ignored: such a link opens the same object as the plain one.
pub proof fn law_locale_and_query_are_ignored(
    k: LinkKind,
    id: Seq<char>,
    locale: Seq<char>,
    query: Seq<char>,
)
    requires
        valid_web_id(id),
        forall|i: int| 0 <= i < locale.len() ==> #[trigger] locale[i] != '/' && locale[i] != '?'
            && locale[i] != '#',
        query.len() == 0 || !is_white_space(query.last()),
    ensures
        parse_spec(
            https_scheme() + web_host() + locale_prefix() + locale + seq!['/'] + kind_word(k) + seq![
                '/',
            ] + id + seq!['?'] + query,
        ) == Some((k, id)),
{
    let w = kind_word(k);
    let loc = locale_prefix() + locale;
    let path = loc + seq!['/'] + w + seq!['/'] + id;
    let tail = path + seq!['?'] + query;
    assert(https_scheme() + web_host() + tail =~= https_scheme() + web_host() + locale_prefix()
        + locale + seq!['/'] + kind_word(k) + seq!['/'] + id + seq!['?'] + query);
    if query.len() == 0 {
        assert(tail.last() == '?');
    } else {
        assert(tail.last() == query.last());
    }
    lemma_https_link(tail);
    lemma_path_of_localized_link(k, id, locale, query);
}

proof fn lemma_path_of_localized_link(k: LinkKind, id: Seq<char>, locale: Seq<char>, query: Seq<char>)
    requires
        valid_web_id(id),
        forall|i: int| 0 <= i < locale.len() ==> #[trigger] locale[i] != '/' && locale[i] != '?'
            && locale[i] != '#',
    ensures
        url_path_link(
            locale_prefix() + locale + seq!['/'] + kind_word(k) + seq!['/'] + id + seq!['?'] + query,
        ) == Some((k, id)),
{
    let w = kind_word(k);
    let loc = locale_prefix() + locale;
    let path = loc + seq!['/'] + w + seq!['/'] + id;
    let r = path + seq!['?'] + query;
    assert forall|i: int| 0 <= i < w.len() implies #[trigger] w[i] != '/' && w[i] != '?' && w[i]
        != '#' by {}
    assert forall|i: int| 0 <= i < loc.len() implies #[trigger] loc[i] != '/' && loc[i] != '?'
        && loc[i] != '#' by {
        if i >= 5 {
            assert(loc[i] == locale[i - 5]);
        }
    }
    assert forall|i: int| 0 <= i < path.len() implies !is_query_or_fragment()(#[trigger] r[i]) by {
        assert(r[i] == path[i]);
        let a = loc.len() as int;
        let b = a + 1 + w.len();
        if i < a {
            assert(path[i] == loc[i]);
        } else if a < i < b {
            assert(path[i] == w[i - a - 1]);
        } else if i > b {
            assert(path[i] == id[i - b - 1]);
        }
    }
    assert(r[path.len() as int] == '?');
    lemma_find_is(r, is_query_or_fragment(), path.len() as int);
    assert(r.take(path.len() as int) =~= path);
    assert forall|i: int| 0 <= i < loc.len() implies #[trigger] loc[i] != '/' by {}
    assert(path =~= loc + seq!['/'] + (w + seq!['/'] + id));
    lemma_segment_head(loc, w + seq!['/'] + id);
    lemma_two_segments(w, id);
    let segs = segments(path);
    assert(segs =~= seq![loc, w, id]);
    assert(loc.take(5) =~= locale_prefix());
    assert(starts_with(segs[0], locale_prefix()));
    assert(kind_named(w) == Some(k));
    assert(r =~= locale_prefix() + locale + seq!['/'] + kind_word(k) + seq!['/'] + id + seq!['?']
        + query);
}

/// An id as Spotify issues them: non-empty, with no `:` and no white space at
/// the end.
pub open spec fn valid_uri_id(id: Seq<char>) -> bool {
    &&& id.len() > 0
    &&& !is_white_space(id.last())
    &&& forall|k: int| 0 <= k < id.len() ==> #[trigger] id[k] != ':'
}


/// A `spotify:` URI built from a kind word and an id parses to that kind and id.
pub proof fn lemma_uri_parses(word: Seq<char>, kind: LinkKind, id: Seq<char>)
    requires
        word.len() > 0,
        word[0] != '/',
        forall|k: int| 0 <= k < word.len() ==> #[trigger] word[k] != ':',
        kind_named(word) == Some(kind),
        valid_uri_id(id),
    ensures
        parse_spec(uri_scheme() + word + seq![':'] + id) == Some((kind, id)),
{
    let s = uri_scheme() + word + seq![':'] + id;
    // Nothing to trim: the URI starts with `s` and ends with the id's last character.
    assert(!is_white_space(s[0]));
    lemma_find_is(s, not_white_space(), 0);
    assert(s[s.len() - 1] == id.last());
    lemma_rfind_end_is(s, not_white_space(), s.len() as int);
    assert(trim(s) =~= s);
    assert(s.take(8) =~= uri_scheme());
    let rest = s.skip(8);
    assert(rest =~= word + seq![':'] + id);
    assert(rest[0] == word[0]);
    lemma_find_is(rest, is_not_char('/'), 0);
    assert(rest.skip(0) =~= rest);
    let p = word.len() as int;
    assert forall|k: int| 0 <= k < p implies !is_char(':')(#[trigger] rest[k]) by {
        assert(rest[k] == word[k]);
    }
    assert(rest[p] == ':');
    lemma_find_is(rest, is_char(':'), p);
    let after = rest.skip(p + 1);
    assert(after =~= id);
    assert forall|k: int| 0 <= k < after.len() implies !is_char(':')(#[trigger] after[k]) by {
        assert(after[k] == id[k]);
    }
    lemma_find_is(after, is_char(':'), after.len() as int);
    assert(after.take(after.len() as int) =~= id);
    assert(rest.take(p) =~= word);
}


/// An http (not https) web link is read like the https one.
proof fn lemma_http_link(tail: Seq<char>)
    requires
        tail.len() > 0,
        !is_white_space(tail.last()),
    ensures
        parse_spec(http_scheme() + web_host() + tail) == url_path_link(tail),
{
    let s = http_scheme() + web_host() + tail;
    assert(!is_white_space(s[0]));
    lemma_find_is(s, not_white_space(), 0);
    assert(s[s.len() - 1] == tail.last());
    lemma_rfind_end_is(s, not_white_space(), s.len() as int);
    assert(trim(s) =~= s);
    assert(s.take(8)[0] != uri_scheme()[0]);
    assert(!starts_with(s, uri_scheme()));
    assert(s.take(8)[4] != https_scheme()[4]);
    assert(!starts_with(s, https_scheme()));
    assert(s.take(7) =~= http_scheme());
    let rest = s.skip(7);
    assert(rest.take(17) =~= web_host());
    assert(rest.skip(17) =~= tail);
}

/// The path of a plain link, with or without a trailing `/`, names the kind
/// and the id.
proof fn lemma_plain_path(k: LinkKind, id: Seq<char>, trailing: bool)
    requires
        valid_web_id(id),
    ensures
        url_path_link(kind_word(k) + seq!['/'] + id + if trailing {
            seq!['/']
        } else {
            Seq::<char>::empty()
        }) == Some((k, id)),
{
    let w = kind_word(k);
    let end: Seq<char> = if trailing {
        seq!['/']
    } else {
        Seq::<char>::empty()
    };
    let r = w + seq!['/'] + id + end;
    assert forall|i: int| 0 <= i < w.len() implies #[trigger] w[i] != '/' && w[i] != '?' && w[i]
        != '#' by {}
    assert forall|i: int| 0 <= i < r.len() implies !is_query_or_fragment()(#[trigger] r[i]) by {
        if i < w.len() {
            assert(r[i] == w[i]);
        } else if w.len() < i < w.len() + 1 + id.len() {
            assert(r[i] == id[i - w.len() - 1]);
        }
    }
    lemma_find_is(r, is_query_or_fragment(), r.len() as int);
    assert(r.take(r.len() as int) =~= r);
    assert forall|i: int| 0 <= i < id.len() implies #[trigger] id[i] != '/' by {}
    if trailing {
        lemma_segment_head(w, id + seq!['/']);
        assert(r =~= w + seq!['/'] + (id + seq!['/']));
        let e = Seq::<char>::empty();
        lemma_segment_head(id, e);
        assert(id + seq!['/'] =~= id + seq!['/'] + e);
        assert(e.len() == 0);
        assert(segments(e) =~= Seq::<Seq<char>>::empty());
        assert(segments(r) =~= seq![w, id]);
    } else {
        assert(r =~= w + seq!['/'] + id);
        lemma_two_segments(w, id);
    }
    assert(!starts_with(w, locale_prefix())) by {
        assert(w.len() < 5 || w.take(5)[4] != '-' || w.take(5)[0] != 'i');
    }
    assert(kind_named(w) == Some(k));
}

/// The scheme of a web link: https or http.
pub open spec fn web_scheme(secure: bool) -> Seq<char> {
    if secure {
        https_scheme()
    } else {
        http_scheme()
    }
}

proof fn lemma_web_form(k: LinkKind, id: Seq<char>, secure: bool, trailing: bool)
    requires
        valid_web_id(id),
    ensures
        !trailing ==> parse_spec(web_scheme(secure) + web_host() + kind_word(k) + seq!['/'] + id)
            == Some((k, id)),
        trailing ==> parse_spec(
            web_scheme(secure) + web_host() + kind_word(k) + seq!['/'] + id + seq!['/'],
        ) == Some((k, id)),
{
    let w = kind_word(k);
    let end: Seq<char> = if trailing {
        seq!['/']
    } else {
        Seq::<char>::empty()
    };
    let tail = w + seq!['/'] + id + end;
    lemma_plain_path(k, id, trailing);
    if trailing {
        assert(tail.last() == '/');
    } else {
        assert(tail =~= w + seq!['/'] + id);
        assert(tail.last() == id.last());
    }
    if secure {
        lemma_https_link(tail);
    } else {
        lemma_http_link(tail);
    }
    if trailing {
        assert(web_scheme(secure) + web_host() + w + seq!['/'] + id + seq!['/'] =~= web_scheme(
            secure,
        ) + web_host() + tail);
    } else {
        assert(web_scheme(secure) + web_host() + w + seq!['/'] + id =~= web_scheme(secure)
            + web_host() + tail);
    }
}

/// Every form of link to an object opens that object: its `spotify:` URI,
/// its https and http web links, with or without a trailing `/`, for every
/// kind and for ids as Spotify issues them (see also
/// `law_locale_and_query_are_ignored` and
/// `law_parse_ignores_surrounding_white_space`).
pub proof fn law_link_forms_agree(k: LinkKind, id: Seq<char>, secure: bool)
    requires
        valid_web_id(id),
        valid_uri_id(id),
    ensures
        parse_spec(uri_scheme() + kind_word(k) + seq![':'] + id) == Some((k, id)),
        parse_spec(web_scheme(secure) + web_host() + kind_word(k) + seq!['/'] + id) == Some(
            (k, id),
        ),
        parse_spec(web_scheme(secure) + web_host() + kind_word(k) + seq!['/'] + id + seq!['/'])
            == Some((k, id)),
{
    let w = kind_word(k);
    assert(w.len() > 0);
    assert forall|i: int| 0 <= i < w.len() implies #[trigger] w[i] != ':' by {}
    assert(kind_named(w) == Some(k));
    lemma_uri_parses(w, k, id);
    lemma_web_form(k, id, secure, false);
    lemma_web_form(k, id, secure, true);
}

} // verus!
