//! The settings page's mappings between stored setting values and the rows of
//! its choice lists, and the decisions it makes when opened and closed.
//!
//! A choice setting is stored as a string and shown as the index of a row.
//! Some settings accept only known strings; the others fall back to their
//! first choice for anything unknown.

use vstd::prelude::*;

use crate::actions::{actions_view, AppAction, AppActionView};
use crate::text::str_equals;

verus! {

/// The position of `s` in `table`, if it is there.
pub open spec fn index_in(table: Seq<Seq<char>>, s: Seq<char>) -> Option<nat>
    decreases table.len(),
{
    if table.len() == 0 {
        None
    } else if table[0] == s {
        Some(0)
    } else {
        match index_in(table.drop_first(), s) {
            Some(i) => Some(i + 1),
            None => None,
        }
    }
}

/// The row shown for a stored value, the first row for an unknown one.
pub open spec fn lenient_index(table: Seq<Seq<char>>, s: Seq<char>) -> nat {
    match index_in(table, s) {
        Some(i) => i,
        None => 0,
    }
}

/// The value stored for a row, the first value for a row out of range.
pub open spec fn lenient_name(table: Seq<Seq<char>>, u: nat) -> Seq<char> {
    if u < table.len() {
        table[u as int]
    } else {
        table[0]
    }
}

/// No value appears twice.
pub open spec fn distinct(table: Seq<Seq<char>>) -> bool {
    forall|i: int, j: int| 0 <= i < j < table.len() ==> table[i] != table[j]
}

pub open spec fn names_view(names: Seq<&str>) -> Seq<Seq<char>> {
    names.map_values(|n: &str| n@)
}

proof fn lemma_index_in(table: Seq<Seq<char>>, s: Seq<char>)
    ensures
        match index_in(table, s) {
            Some(i) => i < table.len() && table[i as int] == s && forall|k: int|
                0 <= k < i ==> table[k] != s,
            None => forall|k: int| 0 <= k < table.len() ==> table[k] != s,
        },
    decreases table.len(),
{
    if table.len() > 0 && table[0] != s {
        lemma_index_in(table.drop_first(), s);
        assert forall|k: int| 1 <= k < table.len() implies table[k] == table.drop_first()[k - 1] by {
        }
    }
}

proof fn lemma_index_in_is(table: Seq<Seq<char>>, s: Seq<char>, i: int)
    requires
        0 <= i < table.len(),
        table[i] == s,
        forall|k: int| 0 <= k < i ==> table[k] != s,
    ensures
        index_in(table, s) == Some(i as nat),
    decreases table.len(),
{
    if i > 0 {
        assert(table.drop_first()[i - 1] == s);
        assert forall|k: int| 0 <= k < i - 1 implies table.drop_first()[k] != s by {
            assert(table.drop_first()[k] == table[k + 1]);
        }
        lemma_index_in_is(table.drop_first(), s, i - 1);
    }
}

/// Reading a row's value back gives the row, and storing the row of a known
/// value gives the value: the two mappings undo each other on a table in which
/// no value appears twice.
pub proof fn law_choice_round_trip(table: Seq<Seq<char>>, u: nat, s: Seq<char>)
    requires
        distinct(table),
    ensures
        u < table.len() ==> index_in(table, table[u as int]) == Some(u),
        index_in(table, s) matches Some(i) ==> table[i as int] == s,
        u < table.len() ==> lenient_index(table, lenient_name(table, u)) == u,
        table.contains(s) ==> lenient_name(table, lenient_index(table, s)) == s,
{
    if u < table.len() {
        lemma_index_in_is(table, table[u as int], u as int);
    }
    lemma_index_in(table, s);
}

/// The position of `s` among `names`.
fn index_of_name(names: &Vec<&str>, s: &str) -> (r: Option<u32>)
    requires
        names@.len() < u32::MAX,
    ensures
        match r {
            Some(i) => index_in(names_view(names@), s@) == Some(i as nat),
            None => index_in(names_view(names@), s@) is None,
        },
{
    let ghost t = names_view(names@);
    let mut i: usize = 0;
    while i < names.len()
        invariant
            t == names_view(names@),
            names@.len() < u32::MAX,
            i <= names@.len(),
            forall|k: int| 0 <= k < i ==> t[k] != s@,
        decreases names@.len() - i,
    {
        if str_equals(names[i], s) {
            proof {
                lemma_index_in_is(t, s@, i as int);
            }
            return Some(i as u32);
        }
        i = i + 1;
    }
    proof {
        lemma_index_in(t, s@);
        if let Some(j) = index_in(t, s@) {
            assert(t[j as int] == s@);
        }
    }
    None
}

/// A row index that must be in range, as the value it stands for.
fn name_at(names: &Vec<&'static str>, u: u32) -> (r: &'static str)
    requires
        (u as int) < names_view(names@).len(),
    ensures
        r@ == names_view(names@)[u as int],
{
    assert(names_view(names@).len() == names@.len());
    names[u as usize]
}

/// The value for a row, the first value when the row is out of range.
fn lenient_name_at(names: &Vec<&'static str>, u: u32) -> (r: &'static str)
    requires
        names@.len() > 0,
    ensures
        r@ == lenient_name(names_view(names@), u as nat),
{
    if (u as usize) < names.len() {
        names[u as usize]
    } else {
        names[0]
    }
}

pub open spec fn bitrate_table() -> Seq<Seq<char>> {
    seq!["96"@, "160"@, "320"@]
}

pub open spec fn backend_table() -> Seq<Seq<char>> {
    seq!["rodio"@, "pulseaudio"@, "alsa"@, "gstreamer"@]
}

pub open spec fn volume_curve_table() -> Seq<Seq<char>> {
    seq!["log"@, "linear"@, "cubic"@]
}

pub open spec fn audio_format_table() -> Seq<Seq<char>> {
    seq!["s16"@, "s24"@, "s24_3"@, "s32"@, "f32"@, "f64"@]
}

pub open spec fn normalisation_type_table() -> Seq<Seq<char>> {
    seq!["auto"@, "track"@, "album"@]
}

pub open spec fn normalisation_method_table() -> Seq<Seq<char>> {
    seq!["dynamic"@, "basic"@]
}

pub open spec fn theme_table() -> Seq<Seq<char>> {
    seq!["light"@, "dark"@, "system"@]
}

pub open spec fn close_behavior_table() -> Seq<Seq<char>> {
    seq!["ask"@, "minimize-to-background"@, "stop-and-quit"@]
}

fn bitrate_names() -> (r: Vec<&'static str>)
    ensures
        names_view(r@) == bitrate_table(),
{
    let r = vec!["96", "160", "320"];
    assert(names_view(r@) =~= bitrate_table());
    r
}

fn backend_names() -> (r: Vec<&'static str>)
    ensures
        names_view(r@) == backend_table(),
{
    let r = vec!["rodio", "pulseaudio", "alsa", "gstreamer"];
    assert(names_view(r@) =~= backend_table());
    r
}

fn volume_curve_names() -> (r: Vec<&'static str>)
    ensures
        names_view(r@) == volume_curve_table(),
{
    let r = vec!["log", "linear", "cubic"];
    assert(names_view(r@) =~= volume_curve_table());
    r
}

fn audio_format_names() -> (r: Vec<&'static str>)
    ensures
        names_view(r@) == audio_format_table(),
{
    let r = vec!["s16", "s24", "s24_3", "s32", "f32", "f64"];
    assert(names_view(r@) =~= audio_format_table());
    r
}

fn normalisation_type_names() -> (r: Vec<&'static str>)
    ensures
        names_view(r@) == normalisation_type_table(),
{
    let r = vec!["auto", "track", "album"];
    assert(names_view(r@) =~= normalisation_type_table());
    r
}

fn normalisation_method_names() -> (r: Vec<&'static str>)
    ensures
        names_view(r@) == normalisation_method_table(),
{
    let r = vec!["dynamic", "basic"];
    assert(names_view(r@) =~= normalisation_method_table());
    r
}

fn theme_names() -> (r: Vec<&'static str>)
    ensures
        names_view(r@) == theme_table(),
{
    let r = vec!["light", "dark", "system"];
    assert(names_view(r@) =~= theme_table());
    r
}

fn close_behavior_names() -> (r: Vec<&'static str>)
    ensures
        names_view(r@) == close_behavior_table(),
{
    let r = vec!["ask", "minimize-to-background", "stop-and-quit"];
    assert(names_view(r@) =~= close_behavior_table());
    r
}

/// The row of a stored value that must be one of the table's values.
fn strict_index(names: &Vec<&str>, s: &str) -> (r: u32)
    requires
        names@.len() < u32::MAX,
        index_in(names_view(names@), s@) is Some,
    ensures
        index_in(names_view(names@), s@) == Some(r as nat),
{
    match index_of_name(names, s) {
        Some(i) => i,
        None => 0,
    }
}

/// The row of a stored value, the first row for an unknown value.
fn lenient_index_of(names: &Vec<&str>, s: &str) -> (r: u32)
    requires
        names@.len() < u32::MAX,
    ensures
        r as nat == lenient_index(names_view(names@), s@),
{
    match index_of_name(names, s) {
        Some(i) => i,
        None => 0,
    }
}

/// Row of the stored bitrate (`96`, `160` or `320`).
pub fn bitrate_index(s: &str) -> (r: u32)
    requires
        index_in(bitrate_table(), s@) is Some,
    ensures
        index_in(bitrate_table(), s@) == Some(r as nat),
{
    strict_index(&bitrate_names(), s)
}

/// Stored value of a bitrate row.
pub fn bitrate_name(u: u32) -> (r: &'static str)
    requires
        u < 3,
    ensures
        r@ == bitrate_table()[u as int],
{
    name_at(&bitrate_names(), u)
}

/// Row of the stored audio backend.
pub fn audio_backend_index(s: &str) -> (r: u32)
    requires
        index_in(backend_table(), s@) is Some,
    ensures
        index_in(backend_table(), s@) == Some(r as nat),
{
    strict_index(&backend_names(), s)
}

/// Stored value of an audio backend row.
pub fn audio_backend_name(u: u32) -> (r: &'static str)
    requires
        u < 4,
    ensures
        r@ == backend_table()[u as int],
{
    name_at(&backend_names(), u)
}

/// Row of the stored volume curve (`log` for anything unknown).
pub fn volume_curve_index(s: &str) -> (r: u32)
    ensures
        r as nat == lenient_index(volume_curve_table(), s@),
{
    lenient_index_of(&volume_curve_names(), s)
}

/// Stored value of a volume curve row (`log` for a row out of range).
pub fn volume_curve_name(u: u32) -> (r: &'static str)
    ensures
        r@ == lenient_name(volume_curve_table(), u as nat),
{
    lenient_name_at(&volume_curve_names(), u)
}

/// Row of the stored sample format (`s16` for anything unknown).
pub fn audio_format_index(s: &str) -> (r: u32)
    ensures
        r as nat == lenient_index(audio_format_table(), s@),
{
    lenient_index_of(&audio_format_names(), s)
}

/// Stored value of a sample format row (`s16` for a row out of range).
pub fn audio_format_name(u: u32) -> (r: &'static str)
    ensures
        r@ == lenient_name(audio_format_table(), u as nat),
{
    lenient_name_at(&audio_format_names(), u)
}

/// Row of the stored normalisation type (`auto` for anything unknown).
pub fn normalisation_type_index(s: &str) -> (r: u32)
    ensures
        r as nat == lenient_index(normalisation_type_table(), s@),
{
    lenient_index_of(&normalisation_type_names(), s)
}

/// Stored value of a normalisation type row (`auto` for a row out of range).
pub fn normalisation_type_name(u: u32) -> (r: &'static str)
    ensures
        r@ == lenient_name(normalisation_type_table(), u as nat),
{
    lenient_name_at(&normalisation_type_names(), u)
}

/// Row of the stored normalisation method (`dynamic` for anything unknown).
pub fn normalisation_method_index(s: &str) -> (r: u32)
    ensures
        r as nat == lenient_index(normalisation_method_table(), s@),
{
    lenient_index_of(&normalisation_method_names(), s)
}

/// Stored value of a normalisation method row (`dynamic` for a row out of range).
pub fn normalisation_method_name(u: u32) -> (r: &'static str)
    ensures
        r@ == lenient_name(normalisation_method_table(), u as nat),
{
    lenient_name_at(&normalisation_method_names(), u)
}

/// Row of the stored theme preference.
pub fn theme_index(s: &str) -> (r: u32)
    requires
        index_in(theme_table(), s@) is Some,
    ensures
        index_in(theme_table(), s@) == Some(r as nat),
{
    strict_index(&theme_names(), s)
}

/// Stored value of a theme row.
pub fn theme_name(u: u32) -> (r: &'static str)
    requires
        u < 3,
    ensures
        r@ == theme_table()[u as int],
{
    name_at(&theme_names(), u)
}

/// Row of the stored close-window behaviour.
pub fn close_behavior_index(s: &str) -> (r: u32)
    requires
        index_in(close_behavior_table(), s@) is Some,
    ensures
        index_in(close_behavior_table(), s@) == Some(r as nat),
{
    strict_index(&close_behavior_names(), s)
}

/// Stored value of a close-window behaviour row.
pub fn close_behavior_name(u: u32) -> (r: &'static str)
    requires
        u < 3,
    ensures
        r@ == close_behavior_table()[u as int],
{
    name_at(&close_behavior_names(), u)
}

/// Every choice table of the settings page holds each value once, so the
/// stored values and the rows undo each other (see `law_choice_round_trip`).
pub proof fn law_settings_tables_are_distinct()
    ensures
        distinct(bitrate_table()),
        distinct(backend_table()),
        distinct(volume_curve_table()),
        distinct(audio_format_table()),
        distinct(normalisation_type_table()),
        distinct(normalisation_method_table()),
        distinct(theme_table()),
        distinct(close_behavior_table()),
{
    reveal_strlit("96");
    reveal_strlit("160");
    reveal_strlit("320");
    reveal_strlit("rodio");
    reveal_strlit("pulseaudio");
    reveal_strlit("alsa");
    reveal_strlit("gstreamer");
    reveal_strlit("log");
    reveal_strlit("linear");
    reveal_strlit("cubic");
    reveal_strlit("s16");
    reveal_strlit("s24");
    reveal_strlit("s24_3");
    reveal_strlit("s32");
    reveal_strlit("f32");
    reveal_strlit("f64");
    reveal_strlit("auto");
    reveal_strlit("track");
    reveal_strlit("album");
    reveal_strlit("dynamic");
    reveal_strlit("basic");
    reveal_strlit("light");
    reveal_strlit("dark");
    reveal_strlit("system");
    reveal_strlit("ask");
    reveal_strlit("minimize-to-background");
    reveal_strlit("stop-and-quit");
    assert(distinct(bitrate_table())) by {
        let t = bitrate_table();
        assert(t[0][0] != t[1][0] && t[0][0] != t[2][0] && t[1][1] != t[2][1]);
    }
    assert(distinct(backend_table())) by {
        let t = backend_table();
        assert(t[0][0] != t[1][0] && t[0][0] != t[2][0] && t[0][0] != t[3][0]);
        assert(t[1][0] != t[2][0] && t[1][0] != t[3][0] && t[2][0] != t[3][0]);
    }
    assert(distinct(volume_curve_table())) by {
        let t = volume_curve_table();
        assert(t[0][1] != t[1][1] && t[0][0] != t[2][0] && t[1][0] != t[2][0]);
    }
    assert(distinct(audio_format_table())) by {
        let t = audio_format_table();
        assert(t[0].len() == 3 && t[1].len() == 3 && t[2].len() == 5);
        assert(t[3].len() == 3 && t[4].len() == 3 && t[5].len() == 3);
        assert(t[0][2] != t[1][2] && t[0][1] != t[3][1] && t[0][0] != t[4][0]);
        assert(t[0][0] != t[5][0] && t[1][1] != t[3][1] && t[1][0] != t[4][0]);
        assert(t[1][0] != t[5][0] && t[3][0] != t[4][0] && t[3][0] != t[5][0]);
        assert(t[4][1] != t[5][1]);
    }
    assert(distinct(normalisation_type_table())) by {
        let t = normalisation_type_table();
        assert(t[0][0] != t[1][0] && t[0][1] != t[2][1] && t[1][0] != t[2][0]);
    }
    assert(distinct(normalisation_method_table())) by {
        let t = normalisation_method_table();
        assert(t[0][0] != t[1][0]);
    }
    assert(distinct(theme_table())) by {
        let t = theme_table();
        assert(t[0][0] != t[1][0] && t[0][0] != t[2][0] && t[1][0] != t[2][0]);
    }
    assert(distinct(close_behavior_table())) by {
        let t = close_behavior_table();
        assert(t[0][0] != t[1][0] && t[0][0] != t[2][0] && t[1][0] != t[2][0]);
    }
}

/// A row of a table without repeated values: the row's value is found at
/// that row, and stored back as itself.
proof fn lemma_row(table: Seq<Seq<char>>, i: nat)
    requires
        distinct(table),
        i < table.len(),
    ensures
        index_in(table, table[i as int]) == Some(i),
        lenient_index(table, table[i as int]) == i,
        lenient_name(table, i) == table[i as int],
{
    law_choice_round_trip(table, i, table[i as int]);
}

/// The rows of the bitrate, in order: "96", "160", "320". Each stored value selects its
/// own row, and each row stores its own value.
pub proof fn law_bitrate_rows()
    ensures
        index_in(bitrate_table(), "96"@) == Some(0nat),
        bitrate_table()[0] == "96"@,
        index_in(bitrate_table(), "160"@) == Some(1nat),
        bitrate_table()[1] == "160"@,
        index_in(bitrate_table(), "320"@) == Some(2nat),
        bitrate_table()[2] == "320"@,
{
    law_settings_tables_are_distinct();
    lemma_row(bitrate_table(), 0);
    lemma_row(bitrate_table(), 1);
    lemma_row(bitrate_table(), 2);
}

/// The rows of the audio backend, in order: "rodio", "pulseaudio", "alsa", "gstreamer". Each stored value selects its
/// own row, and each row stores its own value.
pub proof fn law_backend_rows()
    ensures
        index_in(backend_table(), "rodio"@) == Some(0nat),
        backend_table()[0] == "rodio"@,
        index_in(backend_table(), "pulseaudio"@) == Some(1nat),
        backend_table()[1] == "pulseaudio"@,
        index_in(backend_table(), "alsa"@) == Some(2nat),
        backend_table()[2] == "alsa"@,
        index_in(backend_table(), "gstreamer"@) == Some(3nat),
        backend_table()[3] == "gstreamer"@,
{
    law_settings_tables_are_distinct();
    lemma_row(backend_table(), 0);
    lemma_row(backend_table(), 1);
    lemma_row(backend_table(), 2);
    lemma_row(backend_table(), 3);
}

/// The rows of the volume curve, in order: "log", "linear", "cubic". Each stored value selects its
/// own row, and each row stores its own value.
pub proof fn law_volume_curve_rows()
    ensures
        lenient_index(volume_curve_table(), "log"@) == 0,
        lenient_name(volume_curve_table(), 0) == "log"@,
        lenient_index(volume_curve_table(), "linear"@) == 1,
        lenient_name(volume_curve_table(), 1) == "linear"@,
        lenient_index(volume_curve_table(), "cubic"@) == 2,
        lenient_name(volume_curve_table(), 2) == "cubic"@,
{
    law_settings_tables_are_distinct();
    lemma_row(volume_curve_table(), 0);
    lemma_row(volume_curve_table(), 1);
    lemma_row(volume_curve_table(), 2);
}

/// The rows of the sample format, in order: "s16", "s24", "s24_3", "s32", "f32", "f64". Each stored value selects its
/// own row, and each row stores its own value.
pub proof fn law_audio_format_rows()
    ensures
        lenient_index(audio_format_table(), "s16"@) == 0,
        lenient_name(audio_format_table(), 0) == "s16"@,
        lenient_index(audio_format_table(), "s24"@) == 1,
        lenient_name(audio_format_table(), 1) == "s24"@,
        lenient_index(audio_format_table(), "s24_3"@) == 2,
        lenient_name(audio_format_table(), 2) == "s24_3"@,
        lenient_index(audio_format_table(), "s32"@) == 3,
        lenient_name(audio_format_table(), 3) == "s32"@,
        lenient_index(audio_format_table(), "f32"@) == 4,
        lenient_name(audio_format_table(), 4) == "f32"@,
        lenient_index(audio_format_table(), "f64"@) == 5,
        lenient_name(audio_format_table(), 5) == "f64"@,
{
    law_settings_tables_are_distinct();
    lemma_row(audio_format_table(), 0);
    lemma_row(audio_format_table(), 1);
    lemma_row(audio_format_table(), 2);
    lemma_row(audio_format_table(), 3);
    lemma_row(audio_format_table(), 4);
    lemma_row(audio_format_table(), 5);
}

/// The rows of the normalisation type, in order: "auto", "track", "album". Each stored value selects its
/// own row, and each row stores its own value.
pub proof fn law_normalisation_type_rows()
    ensures
        lenient_index(normalisation_type_table(), "auto"@) == 0,
        lenient_name(normalisation_type_table(), 0) == "auto"@,
        lenient_index(normalisation_type_table(), "track"@) == 1,
        lenient_name(normalisation_type_table(), 1) == "track"@,
        lenient_index(normalisation_type_table(), "album"@) == 2,
        lenient_name(normalisation_type_table(), 2) == "album"@,
{
    law_settings_tables_are_distinct();
    lemma_row(normalisation_type_table(), 0);
    lemma_row(normalisation_type_table(), 1);
    lemma_row(normalisation_type_table(), 2);
}

/// The rows of the normalisation method, in order: "dynamic", "basic". Each stored value selects its
/// own row, and each row stores its own value.
pub proof fn law_normalisation_method_rows()
    ensures
        lenient_index(normalisation_method_table(), "dynamic"@) == 0,
        lenient_name(normalisation_method_table(), 0) == "dynamic"@,
        lenient_index(normalisation_method_table(), "basic"@) == 1,
        lenient_name(normalisation_method_table(), 1) == "basic"@,
{
    law_settings_tables_are_distinct();
    lemma_row(normalisation_method_table(), 0);
    lemma_row(normalisation_method_table(), 1);
}

/// The rows of the theme, in order: "light", "dark", "system". Each stored value selects its
/// own row, and each row stores its own value.
pub proof fn law_theme_rows()
    ensures
        index_in(theme_table(), "light"@) == Some(0nat),
        theme_table()[0] == "light"@,
        index_in(theme_table(), "dark"@) == Some(1nat),
        theme_table()[1] == "dark"@,
        index_in(theme_table(), "system"@) == Some(2nat),
        theme_table()[2] == "system"@,
{
    law_settings_tables_are_distinct();
    lemma_row(theme_table(), 0);
    lemma_row(theme_table(), 1);
    lemma_row(theme_table(), 2);
}

/// The rows of the close behaviour, in order: "ask", "minimize-to-background", "stop-and-quit". Each stored value selects its
/// own row, and each row stores its own value.
pub proof fn law_close_behavior_rows()
    ensures
        index_in(close_behavior_table(), "ask"@) == Some(0nat),
        close_behavior_table()[0] == "ask"@,
        index_in(close_behavior_table(), "minimize-to-background"@) == Some(1nat),
        close_behavior_table()[1] == "minimize-to-background"@,
        index_in(close_behavior_table(), "stop-and-quit"@) == Some(2nat),
        close_behavior_table()[2] == "stop-and-quit"@,
{
    law_settings_tables_are_distinct();
    lemma_row(close_behavior_table(), 0);
    lemma_row(close_behavior_table(), 1);
    lemma_row(close_behavior_table(), 2);
}

/// The device row is shown while the second backend row is selected.
pub fn alsa_device_visible(selected_backend: u32) -> (r: bool)
    ensures
        r == (selected_backend == 1),
{
    selected_backend == 1
}

/// The colour scheme applied for a theme row.
#[derive(Clone, Copy, Debug, PartialEq, Eq, Structural)]
pub enum ColorSchemeChoice {
    ForceLight,
    ForceDark,
    /// Follow the system.
    Default,
}

pub fn color_scheme_for(selected_theme: u32) -> (r: ColorSchemeChoice)
    ensures
        r == if selected_theme == 0 {
            ColorSchemeChoice::ForceLight
        } else if selected_theme == 1 {
            ColorSchemeChoice::ForceDark
        } else {
            ColorSchemeChoice::Default
        },
{
    match selected_theme {
        0 => ColorSchemeChoice::ForceLight,
        1 => ColorSchemeChoice::ForceDark,
        _ => ColorSchemeChoice::Default,
    }
}

/// How the "skip explicit tracks" switch is shown.
#[derive(Clone, Copy, Debug, PartialEq, Eq, Structural)]
pub struct ExplicitSwitchState {
    /// Turn the switch on (otherwise it keeps the stored preference).
    pub force_on: bool,
    pub sensitive: bool,
    /// Show the tooltip explaining the parental-control lock.
    pub explain_lock: bool,
}

/// When the account locks its explicit content filter (a family plan parental
/// control), the switch is forced on, cannot be changed, and says why;
/// otherwise it is interactive and shows the local preference.
pub fn explicit_switch_state(locked: bool) -> (r: ExplicitSwitchState)
    ensures
        r.force_on == locked,
        r.sensitive == !locked,
        r.explain_lock == locked,
{
    ExplicitSwitchState { force_on: locked, sensitive: !locked, explain_lock: locked }
}

/// The settings page's model.
pub struct SettingsModel {
    explicit_filter_locked: bool,
}

impl SettingsModel {
    pub fn new(explicit_filter_locked: bool) -> (r: SettingsModel)
        ensures
            r.explicit_filter_locked_spec() == explicit_filter_locked,
    {
        SettingsModel { explicit_filter_locked }
    }

    pub closed spec fn explicit_filter_locked_spec(&self) -> bool {
        self.explicit_filter_locked
    }

    /// Whether the account locked its explicit content filter.
    pub fn explicit_filter_locked(&self) -> (r: bool)
        ensures
            r == self.explicit_filter_locked_spec(),
    {
        self.explicit_filter_locked
    }

    pub fn stop_player(&self) -> (r: AppAction)
        ensures
            r@ == AppActionView::StopPlayer,
    {
        AppAction::StopPlayer
    }

    pub fn set_settings(&self) -> (r: AppAction)
        ensures
            r@ == AppActionView::ChangeSettings,
    {
        AppAction::ChangeSettings
    }

    /// What closing the page asks for: the new settings always take effect; the
    /// player is stopped first only when a change needs it reloaded (live
    /// changes such as the equalizer must not interrupt playback).
    pub fn on_close(&self, requires_reload: bool) -> (r: Vec<AppAction>)
        ensures
            actions_view(r@) == if requires_reload {
                seq![AppActionView::StopPlayer, AppActionView::ChangeSettings]
            } else {
                seq![AppActionView::ChangeSettings]
            },
    {
        let mut v: Vec<AppAction> = Vec::new();
        if requires_reload {
            v.push(self.stop_player());
        }
        v.push(self.set_settings());
        proof {
            if requires_reload {
                assert(actions_view(v@) =~= seq![
                    AppActionView::StopPlayer,
                    AppActionView::ChangeSettings,
                ]);
            } else {
                assert(actions_view(v@) =~= seq![AppActionView::ChangeSettings]);
            }
        }
        v
    }
}

/// Whether the audio backend can be chosen on this operating system: only
/// Linux offers more than one backend.
pub fn audio_backend_selectable(os: &str) -> (r: bool)
    ensures
        r == (os@ == "linux"@),
{
    str_equals(os, "linux")
}

/// A lock button of the sound controls (equalizer, pan, pitch): while locked
/// the control cannot be changed. Gives whether the control is editable and
/// the button's icon.
pub fn lock_look(locked: bool) -> (r: (bool, &'static str))
    ensures
        r.0 == !locked,
        r.1@ == if locked {
            "changes-prevent-symbolic"@
        } else {
            "changes-allow-symbolic"@
        },
{
    if locked {
        (false, "changes-prevent-symbolic")
    } else {
        (true, "changes-allow-symbolic")
    }
}

} // verus!
