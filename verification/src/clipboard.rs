//! Offering to open Spotify links found on the clipboard.
//!
//! When the window gains focus the clipboard text is checked; a Spotify link
//! copied from somewhere else is offered once. Links the app itself copied
//! ("Copy link" actions) are not offered back, nor is a link the user already
//! answered, until the clipboard holds something else.

use vstd::prelude::*;

use crate::actions::{AppAction, AppActionView};
use crate::spotify_link::{link_view, parse_spec, LinkKind, SpotifyLink};
use crate::text::{str_equals, trim, trimmed};

verus! {

/// The last link the app itself wrote to the clipboard.
pub struct ClipboardLinkMemory {
    last: Option<String>,
}

impl View for ClipboardLinkMemory {
    type V = Option<Seq<char>>;

    closed spec fn view(&self) -> Option<Seq<char>> {
        match self.last {
            Some(s) => Some(s@),
            None => None,
        }
    }
}

/// Whether `text` is the remembered link, ignoring surrounding white space.
pub open spec fn matches_memory(memory: Option<Seq<char>>, text: Seq<char>) -> bool {
    memory == Some(trim(text))
}

impl ClipboardLinkMemory {
    pub fn new() -> (r: ClipboardLinkMemory)
        ensures
            r@ is None,
    {
        ClipboardLinkMemory { last: None }
    }

    /// Record a link that the app just wrote to the clipboard.
    pub fn remember_app_copied_link(&mut self, link: &str)
        ensures
            final(self)@ == Some(trim(link@)),
    {
        self.last = Some(String::from_str(trimmed(link)));
    }

    /// Whether the clipboard text is (still) the last link the app copied.
    pub fn is_app_copied_link(&self, text: &str) -> (r: bool)
        ensures
            r == matches_memory(self@, text@),
    {
        let text = trimmed(text);
        match &self.last {
            Some(last) => str_equals(last.as_str(), text),
            None => false,
        }
    }
}

/// Remembering a link makes exactly the texts with the same trimmed content
/// match it, so surrounding white space on either side does not matter.
pub proof fn law_remembered_link_matches(link: Seq<char>, text: Seq<char>)
    ensures
        matches_memory(Some(trim(link)), text) <==> trim(text) == trim(link),
        matches_memory(Some(trim(link)), link),
{
}

/// Which link, if any, to offer for some clipboard text.
pub open spec fn decide_spec(text: Seq<char>, is_app_copied: bool, dismissed: Option<Seq<char>>) -> Option<
    (LinkKind, Seq<char>),
> {
    if is_app_copied || dismissed == Some(trim(text)) {
        None
    } else {
        parse_spec(text)
    }
}

pub open spec fn opt_str_view(o: Option<&str>) -> Option<Seq<char>> {
    match o {
        Some(s) => Some(s@),
        None => None,
    }
}

/// Given the clipboard text, whether it is a link the app itself copied, and
/// the last dismissed link, the link to offer (if any).
pub fn decide(text: &str, is_app_copied: bool, dismissed: Option<&str>) -> (r: Option<SpotifyLink>)
    ensures
        link_view(r) == decide_spec(text@, is_app_copied, opt_str_view(dismissed)),
{
    let link = match SpotifyLink::parse(text) {
        Some(l) => l,
        None => return None,
    };
    if is_app_copied {
        return None;
    }
    if let Some(d) = dismissed {
        if str_equals(d, trimmed(text)) {
            return None;
        }
    }
    Some(link)
}

/// What opening an offered link takes: most kinds open their page directly;
/// a track has no page of its own, so its album is looked up and opened.
pub enum OpenRequest {
    Dispatch(AppAction),
    /// Look up the album of the track with this id, then open the album.
    OpenAlbumOfTrack(String),
}

pub open spec fn open_request_spec(link: (LinkKind, Seq<char>)) -> Result<AppActionView, Seq<char>> {
    match link.0 {
        LinkKind::Album => Ok(AppActionView::ViewAlbum(link.1)),
        LinkKind::Artist => Ok(AppActionView::ViewArtist(link.1)),
        LinkKind::Playlist => Ok(AppActionView::ViewPlaylist(link.1)),
        LinkKind::User => Ok(AppActionView::ViewUser(link.1)),
        LinkKind::Track => Err(link.1),
    }
}

pub open spec fn open_request_view(r: OpenRequest) -> Result<AppActionView, Seq<char>> {
    match r {
        OpenRequest::Dispatch(a) => Ok(a@),
        OpenRequest::OpenAlbumOfTrack(id) => Err(id@),
    }
}

/// The way to open a link.
pub fn open_link(link: SpotifyLink) -> (r: OpenRequest)
    ensures
        open_request_view(r) == open_request_spec(link@),
{
    match link {
        SpotifyLink::Album(id) => OpenRequest::Dispatch(AppAction::ViewAlbum(id)),
        SpotifyLink::Artist(id) => OpenRequest::Dispatch(AppAction::ViewArtist(id)),
        SpotifyLink::Playlist(id) => OpenRequest::Dispatch(AppAction::ViewPlaylist(id)),
        SpotifyLink::User(id) => OpenRequest::Dispatch(AppAction::ViewUser(id)),
        SpotifyLink::Track(id) => OpenRequest::OpenAlbumOfTrack(id),
    }
}

/// The clipboard watcher's state: the last link the user answered, and whether
/// the prompt is on screen.
pub struct ClipboardWatcher {
    dismissed: Option<String>,
    dialog_open: bool,
}

impl ClipboardWatcher {
    pub closed spec fn dismissed_view(&self) -> Option<Seq<char>> {
        match self.dismissed {
            Some(s) => Some(s@),
            None => None,
        }
    }

    pub closed spec fn dialog_open_spec(&self) -> bool {
        self.dialog_open
    }

    pub fn new() -> (r: ClipboardWatcher)
        ensures
            r.dismissed_view() is None,
            !r.dialog_open_spec(),
    {
        ClipboardWatcher { dismissed: None, dialog_open: false }
    }

    /// The clipboard is read only while no prompt is on screen.
    pub fn should_check_clipboard(&self) -> (r: bool)
        ensures
            r == !self.dialog_open_spec(),
    {
        !self.dialog_open
    }

    /// The link to offer for clipboard text read while the window has focus.
    pub fn handle_text(&self, text: &str, is_app_copied: bool) -> (r: Option<SpotifyLink>)
        ensures
            link_view(r) == decide_spec(text@, is_app_copied, self.dismissed_view()),
    {
        match &self.dismissed {
            Some(d) => decide(text, is_app_copied, Some(d.as_str())),
            None => decide(text, is_app_copied, None),
        }
    }

    /// Put the prompt on screen; `false` when one is already showing (and then
    /// nothing changes).
    pub fn begin_prompt(&mut self) -> (r: bool)
        ensures
            r == !old(self).dialog_open_spec(),
            final(self).dialog_open_spec(),
            final(self).dismissed_view() == old(self).dismissed_view(),
    {
        let was_open = self.dialog_open;
        self.dialog_open = true;
        !was_open
    }

    /// The user answered the prompt for `text`: the prompt closes, the text is
    /// remembered so it is not offered again, and the link opens if chosen.
    pub fn finish_prompt(&mut self, text: &str, link: SpotifyLink, open: bool) -> (r: Option<
        OpenRequest,
    >)
        ensures
            !final(self).dialog_open_spec(),
            final(self).dismissed_view() == Some(trim(text@)),
            open ==> r is Some && open_request_view(r->0) == open_request_spec(link@),
            !open ==> r is None,
    {
        self.dialog_open = false;
        self.dismissed = Some(String::from_str(trimmed(text)));
        if open {
            Some(open_link(link))
        } else {
            None
        }
    }
}

/// Once the user has answered the prompt for some text, that text (with any
/// surrounding white space) is not offered again.
pub proof fn law_answered_link_not_offered_again(
    answered: Seq<char>,
    text: Seq<char>,
    is_app_copied: bool,
)
    requires
        trim(text) == trim(answered),
    ensures
        decide_spec(text, is_app_copied, Some(trim(answered))) is None,
{
}

/// A link copied by the app itself is never offered.
pub proof fn law_app_copied_link_not_offered(text: Seq<char>, dismissed: Option<Seq<char>>)
    ensures
        decide_spec(text, true, dismissed) is None,
{
}

/// Text that is not a Spotify link is never offered; a link from elsewhere that
/// was not answered before is offered as parsed.
pub proof fn law_offer_is_the_parsed_link(text: Seq<char>, dismissed: Option<Seq<char>>)
    requires
        dismissed != Some(trim(text)),
    ensures
        decide_spec(text, false, dismissed) == parse_spec(text),
{
}

/// Opening a link shows the page of the link's own kind, for the link's own
/// id: an album link its album, an artist link its artist, a playlist link
/// its playlist, a user link the profile; a track link (which has no page)
/// opens the album of that very track.
pub proof fn law_link_opens_its_own_page(id: Seq<char>)
    ensures
        open_request_spec((LinkKind::Album, id)) == Ok::<AppActionView, Seq<char>>(
            AppActionView::ViewAlbum(id),
        ),
        open_request_spec((LinkKind::Artist, id)) == Ok::<AppActionView, Seq<char>>(
            AppActionView::ViewArtist(id),
        ),
        open_request_spec((LinkKind::Playlist, id)) == Ok::<AppActionView, Seq<char>>(
            AppActionView::ViewPlaylist(id),
        ),
        open_request_spec((LinkKind::User, id)) == Ok::<AppActionView, Seq<char>>(
            AppActionView::ViewUser(id),
        ),
        open_request_spec((LinkKind::Track, id)) == Err::<AppActionView, Seq<char>>(id),
{
}

} // verus!
