//! The system details put into a bug report, and the link that opens a
//! pre-filled issue with them.

use vstd::prelude::*;
use vstd::utf8::encode_utf8;

use crate::text::{
    chars_of, find, find_char_in, idx, is_char, is_not_char, lemma_find_bounds, lemma_find_is,
    lemma_rfind_end_is, range_starts_with, rfind_end, starts_with,
};

verus! {

/// Whether a byte is an ASCII letter or digit.
pub open spec fn is_ascii_alphanumeric(b: u8) -> bool {
    (0x30 <= b <= 0x39) || (0x41 <= b <= 0x5A) || (0x61 <= b <= 0x7A)
}

/// The upper-case hexadecimal digit for `d < 16`.
pub open spec fn hex_digit(d: u8) -> char {
    if d < 10 {
        (0x30 + d) as char
    } else {
        (0x37 + d) as char
    }
}

/// One byte percent-encoded: letters and digits stay, any other byte becomes
/// `%` and two upper-case hexadecimal digits.
pub open spec fn percent_encode_byte(b: u8) -> Seq<char> {
    if is_ascii_alphanumeric(b) {
        seq![b as char]
    } else {
        seq!['%', hex_digit(b / 16), hex_digit(b % 16)]
    }
}

/// Every byte percent-encoded, in order.
pub open spec fn percent_encode_bytes(bytes: Seq<u8>) -> Seq<char>
    decreases bytes.len(),
{
    if bytes.len() == 0 {
        Seq::empty()
    } else {
        percent_encode_bytes(bytes.drop_last()) + percent_encode_byte(bytes.last())
    }
}

/// Percent-encodes the UTF-8 bytes of `s`, escaping every byte that is not an
/// ASCII letter or digit. Wraps `percent_encoding::utf8_percent_encode` with
/// the `NON_ALPHANUMERIC` set, rendered with `to_string`; the contract is that
/// crate's documented behaviour (`NON_ALPHANUMERIC`: "everything that is not an
/// ASCII letter or digit"; each escaped byte as `%XX` in upper case).
#[verifier::external_body]
fn percent_encode_non_alphanumeric(s: &str) -> (r: String)
    ensures
        r@ == percent_encode_bytes(encode_utf8(s@)),
{
    percent_encoding::utf8_percent_encode(s, percent_encoding::NON_ALPHANUMERIC).to_string()
}

pub open spec fn body_intro() -> Seq<char> {
    "**Describe the bug**\nA clear and concise description of what the bug is.\n\n**To Reproduce**\nSteps to reproduce the behavior:\n1. Go to '...'\n2. Click on '....'\n3. Scroll down to '....'\n4. See error\n\n**Screenshots**\nIf applicable, add screenshots to help explain your problem.\n\n**General information:**\n- Distribution: "@
}

pub open spec fn body_install_label() -> Seq<char> {
    "\n- Installation method: "@
}

pub open spec fn body_version_label() -> Seq<char> {
    "\n- Riff Version: "@
}

pub open spec fn body_arch_label() -> Seq<char> {
    "\n- Arch: "@
}

pub open spec fn body_desktop_label() -> Seq<char> {
    "\n- Desktop: "@
}

pub open spec fn body_display_label() -> Seq<char> {
    "\n- Display server: "@
}

pub open spec fn body_outro() -> Seq<char> {
    "\n- Device used: \n\n**Logs:**\nPlease paste relevant log output below. You can retrieve logs with:\n```sh\njournalctl --user _COMM=riff --since=\"1 hour ago\" --no-pager\n```\n<details><summary>Log output</summary>\n\n```\n(paste logs here)\n```\n\n</details>\n\n**Additional context**\nAdd any other context about the problem here."@
}

/// The bug report template filled in with the system details.
pub open spec fn issue_body_spec(info: SystemInfoView) -> Seq<char> {
    body_intro() + info.distro + body_install_label() + info.install_method + body_version_label()
        + info.version + body_arch_label() + info.arch + body_desktop_label() + info.desktop
        + body_display_label() + info.display_server + body_outro()
}

pub open spec fn new_issue_prefix() -> Seq<char> {
    "https://github.com/Diegovsky/riff/issues/new?labels=bug&body="@
}

pub open spec fn issues_page() -> Seq<char> {
    "https://github.com/Diegovsky/riff/issues"@
}

/// The details shown in a bug report.
pub struct SystemInfo {
    pub version: String,
    pub distro: String,
    pub arch: String,
    pub desktop: String,
    pub display_server: String,
    pub install_method: String,
}

pub struct SystemInfoView {
    pub version: Seq<char>,
    pub distro: Seq<char>,
    pub arch: Seq<char>,
    pub desktop: Seq<char>,
    pub display_server: Seq<char>,
    pub install_method: Seq<char>,
}

impl View for SystemInfo {
    type V = SystemInfoView;

    open spec fn view(&self) -> SystemInfoView {
        SystemInfoView {
            version: self.version@,
            distro: self.distro@,
            arch: self.arch@,
            desktop: self.desktop@,
            display_server: self.display_server@,
            install_method: self.install_method@,
        }
    }
}

/// A line as `str::lines` yields it: a `\r` right before the line's `\n` is
/// not part of the line.
pub open spec fn strip_cr(line: Seq<char>) -> Seq<char> {
    if line.len() > 0 && line.last() == '\r' {
        line.drop_last()
    } else {
        line
    }
}

/// The first line of `s` (split as `str::lines` does) that starts with `prefix`.
pub open spec fn first_line_with_prefix(s: Seq<char>, prefix: Seq<char>) -> Option<Seq<char>>
    decreases s.len(),
{
    if s.len() == 0 {
        None
    } else {
        let nl = find(s, is_char('\n'));
        let line = if nl < s.len() {
            strip_cr(s.take(nl as int))
        } else {
            s
        };
        if starts_with(line, prefix) {
            Some(line)
        } else if nl < s.len() {
            proof {
                lemma_find_bounds(s, is_char('\n'));
            }
            first_line_with_prefix(s.skip(nl + 1 as int), prefix)
        } else {
            None
        }
    }
}

/// `s` with every leading repetition of `prefix` removed (as
/// `str::trim_start_matches` does).
pub open spec fn strip_prefixes(s: Seq<char>, prefix: Seq<char>) -> Seq<char>
    decreases s.len(),
{
    if prefix.len() > 0 && starts_with(s, prefix) {
        strip_prefixes(s.skip(prefix.len() as int), prefix)
    } else {
        s
    }
}

pub open spec fn not_quote() -> spec_fn(char) -> bool {
    |c: char| c != '"'
}

/// `s` without leading and trailing double quotes.
pub open spec fn trim_quotes(s: Seq<char>) -> Seq<char> {
    let a = find(s, not_quote());
    if a == s.len() {
        Seq::empty()
    } else {
        s.subrange(a as int, rfind_end(s, not_quote()) as int)
    }
}

pub open spec fn pretty_name_key() -> Seq<char> {
    seq!['P', 'R', 'E', 'T', 'T', 'Y', '_', 'N', 'A', 'M', 'E', '=']
}

/// The distribution's name from the contents of `/etc/os-release`: the value
/// of the first `PRETTY_NAME=` line, without its quotes.
pub open spec fn pretty_name_spec(os_release: Seq<char>) -> Option<Seq<char>> {
    match first_line_with_prefix(os_release, pretty_name_key()) {
        Some(line) => Some(trim_quotes(strip_prefixes(line, pretty_name_key()))),
        None => None,
    }
}

/// Start and end of the first line of `v[from..]` beginning with `key`.
fn find_line(v: &Vec<char>, key: &[char]) -> (r: Option<(usize, usize)>)
    requires
        key@.len() > 0,
    ensures
        match r {
            Some((a, b)) => a <= b <= v@.len() && first_line_with_prefix(v@, key@) == Some(
                v@.subrange(a as int, b as int),
            ),
            None => first_line_with_prefix(v@, key@) is None,
        },
{
    let n = v.len();
    let mut pos: usize = 0;
    assert(v@.skip(0) =~= v@);
    while pos < n
        invariant
            n == v@.len(),
            pos <= n,
            key@.len() > 0,
            first_line_with_prefix(v@, key@) == first_line_with_prefix(v@.skip(idx(pos)), key@),
        decreases n - pos,
    {
        let nl = find_char_in(v, pos, n, '\n');
        let ghost s = v@.skip(idx(pos));
        proof {
            assert(v@.subrange(idx(pos), n as int) =~= s);
            lemma_find_bounds(s, is_char('\n'));
        }
        let mut end = nl;
        if nl < n && nl > pos && v[nl - 1] == '\r' {
            end = nl - 1;
        }
        proof {
            if nl < n {
                assert(s.take(nl - pos) =~= v@.subrange(idx(pos), nl as int));
                if nl > pos && v@[nl - 1] == '\r' {
                    assert(strip_cr(s.take(nl - pos)) =~= v@.subrange(idx(pos), end as int));
                } else {
                    assert(strip_cr(s.take(nl - pos)) =~= v@.subrange(idx(pos), end as int));
                }
            } else {
                assert(s =~= v@.subrange(idx(pos), end as int));
            }
        }
        if range_starts_with(v, pos, end, key) {
            return Some((pos, end));
        }
        if nl == n {
            return None;
        }
        proof {
            assert(s.skip(nl - pos + 1) =~= v@.skip(nl + 1));
        }
        pos = nl + 1;
    }
    proof {
        assert(v@.skip(idx(pos)).len() == 0);
    }
    None
}

/// Start of `v[from..to]` after removing every leading repetition of `key`.
fn skip_prefixes(v: &Vec<char>, from: usize, to: usize, key: &[char]) -> (r: usize)
    requires
        from <= to <= v@.len(),
        key@.len() > 0,
    ensures
        from <= r <= to,
        strip_prefixes(v@.subrange(from as int, to as int), key@) == v@.subrange(r as int, to as int),
{
    let mut i = from;
    while range_starts_with(v, i, to, key)
        invariant
            from <= i <= to <= v@.len(),
            key@.len() > 0,
            strip_prefixes(v@.subrange(from as int, to as int), key@) == strip_prefixes(
                v@.subrange(i as int, to as int),
                key@,
            ),
        decreases to - i,
    {
        proof {
            assert(v@.subrange(i as int, to as int).skip(key@.len() as int) =~= v@.subrange(
                i + key@.len(),
                to as int,
            ));
        }
        i = i + key.len();
    }
    i
}

/// The value of the first `PRETTY_NAME=` line of an os-release file.
pub fn pretty_name(os_release: &str) -> (r: Option<String>)
    ensures
        match r {
            Some(name) => pretty_name_spec(os_release@) == Some(name@),
            None => pretty_name_spec(os_release@) is None,
        },
{
    let v = chars_of(os_release);
    let key: [char; 12] = ['P', 'R', 'E', 'T', 'T', 'Y', '_', 'N', 'A', 'M', 'E', '='];
    proof {
        assert(key@ == pretty_name_key());
    }
    let (a, b) = match find_line(&v, &key) {
        Some(p) => p,
        None => return None,
    };
    let s = skip_prefixes(&v, a, b, &key);
    let ghost t = v@.subrange(s as int, b as int);
    let mut x = s;
    while x < b && v[x] == '"'
        invariant
            s <= x <= b <= v@.len(),
            t == v@.subrange(s as int, b as int),
            forall|k: int| s <= k < x ==> v@[k] == '"',
        decreases b - x,
    {
        x = x + 1;
    }
    proof {
        assert forall|k: int| 0 <= k < x - s implies !not_quote()(#[trigger] t[k]) by {
            assert(t[k] == v@[s + k]);
        }
        if x < b {
            assert(t[x - s] == v@[x as int]);
        }
        lemma_find_is(t, not_quote(), x - s);
    }
    if x == b {
        proof {
            assert(trim_quotes(t) =~= Seq::<char>::empty());
        }
        return Some(String::new());
    }
    let mut y = b;
    while y > x && v[y - 1] == '"'
        invariant
            s <= x < b <= v@.len(),
            x <= y <= b,
            v@[x as int] != '"',
            t == v@.subrange(s as int, b as int),
            forall|k: int| y <= k < b ==> v@[k] == '"',
        decreases y,
    {
        y = y - 1;
    }
    proof {
        assert forall|k: int| y - s <= k < t.len() implies !not_quote()(#[trigger] t[k]) by {
            assert(t[k] == v@[s + k]);
        }
        assert(t[y - s - 1] == v@[y - 1]);
        lemma_rfind_end_is(t, not_quote(), y - s);
        assert(t.subrange(x - s, y - s) =~= v@.subrange(x as int, y as int));
    }
    Some(crate::text::substring(os_release, x, y))
}

impl SystemInfo {
    /// Assemble the details: the distribution is the os-release file's pretty
    /// name, or the OS and architecture when there is none; the installation
    /// method is Flatpak when the Flatpak info file exists, else native.
    pub fn new(
        version: String,
        os_release: Option<&str>,
        os: &str,
        arch: String,
        desktop: String,
        display_server: String,
        flatpak: bool,
    ) -> (r: SystemInfo)
        ensures
            r.version@ == version@,
            r.arch@ == arch@,
            r.desktop@ == desktop@,
            r.display_server@ == display_server@,
            r.distro@ == match os_release {
                Some(c) => match pretty_name_spec(c@) {
                    Some(p) => p,
                    None => os@ + " "@ + arch@,
                },
                None => os@ + " "@ + arch@,
            },
            r.install_method@ == if flatpak {
                "Flatpak"@
            } else {
                "Native"@
            },
    {
        let found = match os_release {
            Some(c) => pretty_name(c),
            None => None,
        };
        let distro = match found {
            Some(p) => p,
            None => {
                let mut d = String::from_str(os);
                d.append(" ");
                d.append(arch.as_str());
                d
            },
        };
        let install_method = if flatpak {
            String::from_str("Flatpak")
        } else {
            String::from_str("Native")
        };
        SystemInfo { version, distro, arch, desktop, display_server, install_method }
    }

    /// The bug report template filled in with these details.
    pub fn issue_body(&self) -> (r: String)
        ensures
            r@ == issue_body_spec(self@),
    {
        let mut b = String::from_str("**Describe the bug**\nA clear and concise description of what the bug is.\n\n**To Reproduce**\nSteps to reproduce the behavior:\n1. Go to '...'\n2. Click on '....'\n3. Scroll down to '....'\n4. See error\n\n**Screenshots**\nIf applicable, add screenshots to help explain your problem.\n\n**General information:**\n- Distribution: ");
        b.append(self.distro.as_str());
        b.append("\n- Installation method: ");
        b.append(self.install_method.as_str());
        b.append("\n- Riff Version: ");
        b.append(self.version.as_str());
        b.append("\n- Arch: ");
        b.append(self.arch.as_str());
        b.append("\n- Desktop: ");
        b.append(self.desktop.as_str());
        b.append("\n- Display server: ");
        b.append(self.display_server.as_str());
        b.append("\n- Device used: \n\n**Logs:**\nPlease paste relevant log output below. You can retrieve logs with:\n```sh\njournalctl --user _COMM=riff --since=\"1 hour ago\" --no-pager\n```\n<details><summary>Log output</summary>\n\n```\n(paste logs here)\n```\n\n</details>\n\n**Additional context**\nAdd any other context about the problem here.");
        b
    }

    /// The link that opens a new bug report with the body filled in.
    pub fn issue_url(&self) -> (r: String)
        ensures
            r@ == new_issue_prefix() + percent_encode_bytes(encode_utf8(issue_body_spec(self@))),
    {
        let body = self.issue_body();
        let encoded = percent_encode_non_alphanumeric(body.as_str());
        let mut url = String::from_str("https://github.com/Diegovsky/riff/issues/new?labels=bug&body=");
        url.append(encoded.as_str());
        url
    }
}

/// Whether a link clicked in the About dialog is one of the project's issue
/// pages (which then get the pre-filled report).
pub fn is_issue_link(uri: &str) -> (r: bool)
    ensures
        r == starts_with(uri@, issues_page()),
{
    let v = chars_of(uri);
    let page = chars_of("https://github.com/Diegovsky/riff/issues");
    let n = v.len();
    proof {
        assert(v@.subrange(0, n as int) =~= uri@);
    }
    range_starts_with(&v, 0, n, page.as_slice())
}

/// The pieces of `s` between line breaks, in order (a text without a line
/// break is one piece; an empty text is one empty piece).
pub open spec fn split_lines(s: Seq<char>) -> Seq<Seq<char>>
    decreases s.len(),
{
    let i = find(s, is_char('\n'));
    if i >= s.len() {
        seq![s]
    } else {
        seq![s.take(i as int)] + split_lines(s.skip(i + 1int))
    }
}

/// The names listed in a credits file: one per line, trailing line breaks
/// ignored.
pub open spec fn credit_lines_spec(text: Seq<char>) -> Seq<Seq<char>> {
    split_lines(text.take(rfind_end(text, is_not_char('\n')) as int))
}

pub open spec fn strings_view(v: Seq<String>) -> Seq<Seq<char>> {
    v.map_values(|s: String| s@)
}

/// The names listed in a credits file (authors, artists), for the About
/// dialog.
pub fn credit_lines(text: &str) -> (r: Vec<String>)
    ensures
        strings_view(r@) == credit_lines_spec(text@),
{
    let v = chars_of(text);
    let n = v.len();
    let mut end: usize = n;
    while end > 0 && v[end - 1] == '\n'
        invariant
            end <= n,
            n == v@.len(),
            forall|k: int| end <= k < n ==> v@[k] == '\n',
        decreases end,
    {
        end = end - 1;
    }
    proof {
        assert forall|k: int| end <= k < v@.len() implies !is_not_char('\n')(#[trigger] v@[k]) by {}
        lemma_rfind_end_is(v@, is_not_char('\n'), end as int);
        assert(v@.subrange(0, end as int) =~= text@.take(end as int));
    }
    let ghost whole = v@.subrange(0, end as int);
    let mut out: Vec<String> = Vec::new();
    let mut start: usize = 0;
    let mut done = false;
    while !done
        invariant
            start <= end <= n,
            n == v@.len(),
            v@ == text@,
            whole == v@.subrange(0, end as int),
            done ==> strings_view(out@) == split_lines(whole),
            !done ==> strings_view(out@) + split_lines(v@.subrange(start as int, end as int))
                == split_lines(whole),
        decreases end - start + if done {
            0int
        } else {
            1int
        },
    {
        let i = find_char_in(&v, start, end, '\n');
        let piece = crate::text::substring(text, start, i);
        proof {
            let sub = v@.subrange(start as int, end as int);
            let f = i - start;
            lemma_find_bounds(sub, is_char('\n'));
            assert(sub.take(f) =~= v@.subrange(start as int, i as int));
            if i < end {
                assert(sub.skip(f + 1) =~= v@.subrange(i + 1, end as int));
                assert(split_lines(sub) == seq![sub.take(f)] + split_lines(sub.skip(f + 1)));
            } else {
                assert(split_lines(sub) == seq![sub]);
                assert(sub.take(f) =~= sub);
            }
            assert(strings_view(out@.push(piece)) =~= strings_view(out@).push(piece@));
        }
        out.push(piece);
        if i == end {
            done = true;
            proof {
                let sub = v@.subrange(start as int, end as int);
                assert(strings_view(out@) =~= split_lines(whole));
            }
        } else {
            proof {
                let sub = v@.subrange(start as int, end as int);
                let rest = v@.subrange(i + 1, end as int);
                assert(strings_view(out@) + split_lines(rest) =~= split_lines(whole));
            }
            start = i + 1;
        }
    }
    out
}

/// A credits file's text without its trailing line breaks (the translators
/// are credited as one block).
pub fn credits_text(text: &str) -> (r: String)
    ensures
        r@ == text@.take(rfind_end(text@, is_not_char('\n')) as int),
{
    let v = chars_of(text);
    let n = v.len();
    let mut end: usize = n;
    while end > 0 && v[end - 1] == '\n'
        invariant
            end <= n,
            n == v@.len(),
            forall|k: int| end <= k < n ==> v@[k] == '\n',
        decreases end,
    {
        end = end - 1;
    }
    proof {
        assert forall|k: int| end <= k < v@.len() implies !is_not_char('\n')(#[trigger] v@[k]) by {}
        lemma_rfind_end_is(v@, is_not_char('\n'), end as int);
        assert(text@.subrange(0, end as int) =~= text@.take(end as int));
    }
    crate::text::substring(text, 0, end)
}

/// A character that may stand in a URL's query unescaped: an ASCII letter or
/// digit, or the `%` of an escape.
pub open spec fn url_safe_char(c: char) -> bool {
    ('0' <= c && c <= '9') || ('A' <= c && c <= 'Z') || ('a' <= c && c <= 'z') || c == '%'
}

proof fn lemma_encoded_byte_is_url_safe(b: u8)
    ensures
        forall|k: int|
            0 <= k < percent_encode_byte(b).len() ==> url_safe_char(
                #[trigger] percent_encode_byte(b)[k],
            ),
{
    if !is_ascii_alphanumeric(b) {
        let hi = b / 16;
        let lo = b % 16;
        assert(hi < 16 && lo < 16);
    }
}

/// Percent-encoded text is safe to put in a URL: it holds only ASCII letters,
/// digits and `%`, whatever the text was (so the bug report's body, spaces,
/// line breaks and non-ASCII characters included, cannot break the link).
pub proof fn law_encoded_text_is_url_safe(bytes: Seq<u8>)
    ensures
        forall|k: int|
            0 <= k < percent_encode_bytes(bytes).len() ==> url_safe_char(
                #[trigger] percent_encode_bytes(bytes)[k],
            ),
    decreases bytes.len(),
{
    if bytes.len() > 0 {
        law_encoded_text_is_url_safe(bytes.drop_last());
        lemma_encoded_byte_is_url_safe(bytes.last());
        let a = percent_encode_bytes(bytes.drop_last());
        let e = percent_encode_byte(bytes.last());
        assert forall|k: int| 0 <= k < (a + e).len() implies url_safe_char(#[trigger] (a + e)[k]) by {
            if k < a.len() {
                assert((a + e)[k] == a[k]);
            } else {
                assert((a + e)[k] == e[k - a.len()]);
            }
        }
    }
}

} // verus!
