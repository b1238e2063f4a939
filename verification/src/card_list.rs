//! Ordering, filtering and row-limiting of the card grids.
//!
//! Cards are sorted by a key chosen by the user, filtered by category, and a
//! grid may be limited to a number of rows: cards beyond `rows * columns`
//! (counting skeleton placeholders too) are hidden.

use std::cmp::Ordering;
use vstd::prelude::*;

use crate::text::{idx, str_equals};

verus! {

/// The orders a card list can be sorted in.
#[derive(Clone, Copy, Debug, PartialEq, Eq, Structural)]
pub enum SortOrder {
    RecentlyAdded,
    Alphabetic,
    Creator,
    DateReleased,
    Popularity,
}

/// The sort to apply on a page: the user's preferred sort if the page offers
/// it, otherwise the page's first sort (or `RecentlyAdded` if it offers none).
pub open spec fn effective_sort_spec(preferred: SortOrder, available: Seq<SortOrder>) -> SortOrder {
    if available.contains(preferred) {
        preferred
    } else if available.len() > 0 {
        available[0]
    } else {
        SortOrder::RecentlyAdded
    }
}

pub fn effective_sort(preferred: SortOrder, available: &[SortOrder]) -> (r: SortOrder)
    ensures
        r == effective_sort_spec(preferred, available@),
{
    let mut i: usize = 0;
    while i < available.len()
        invariant
            i <= available@.len(),
            forall|k: int| 0 <= k < i ==> available@[k] != preferred,
        decreases available@.len() - i,
    {
        if available[i] == preferred {
            return preferred;
        }
        i = i + 1;
    }
    if available.len() > 0 {
        available[0]
    } else {
        SortOrder::RecentlyAdded
    }
}

/// Every sort order, in menu order.
pub open spec fn all_sorts() -> Seq<SortOrder> {
    seq![
        SortOrder::RecentlyAdded,
        SortOrder::Alphabetic,
        SortOrder::Creator,
        SortOrder::DateReleased,
        SortOrder::Popularity,
    ]
}

/// The sort choices a page's menu lists: those it offers, in menu order.
pub fn sort_menu_entries(available: &[SortOrder]) -> (r: Vec<SortOrder>)
    ensures
        r@ == all_sorts().filter(|o: SortOrder| available@.contains(o)),
{
    let mut all: Vec<SortOrder> = Vec::new();
    all.push(SortOrder::RecentlyAdded);
    all.push(SortOrder::Alphabetic);
    all.push(SortOrder::Creator);
    all.push(SortOrder::DateReleased);
    all.push(SortOrder::Popularity);
    assert(all@ =~= all_sorts());
    let mut out: Vec<SortOrder> = Vec::new();
    let mut i: usize = 0;
    while i < all.len()
        invariant
            all@ == all_sorts(),
            i <= all@.len(),
            out@ == all@.take(i as int).filter(|o: SortOrder| available@.contains(o)),
        decreases all@.len() - i,
    {
        let o = all[i];
        let mut found = false;
        let mut j: usize = 0;
        while j < available.len()
            invariant
                j <= available@.len(),
                found == (exists|k: int| 0 <= k < j && available@[k] == o),
            decreases available@.len() - j,
        {
            if available[j] == o {
                found = true;
            }
            j = j + 1;
        }
        proof {
            reveal_with_fuel(Seq::filter, 1);
            assert(all@.take(i + 1).drop_last() =~= all@.take(i as int));
            if found {
                let k = choose|k: int| 0 <= k < available@.len() && available@[k] == o;
                assert(available@.contains(o));
            }
        }
        if found {
            out.push(o);
        }
        i = i + 1;
    }
    assert(all@.take(all@.len() as int) =~= all@);
    out
}

/// ASCII letters lowered, everything else kept.
pub open spec fn ascii_lower(c: char) -> char {
    if 'A' <= c <= 'Z' {
        ((c as u32) + 32) as char
    } else {
        c
    }
}

/// Code-point order of characters.
pub open spec fn char_below(a: char, b: char) -> bool {
    (a as u32) < (b as u32)
}

proof fn lemma_char_trichotomy(a: char, b: char)
    ensures
        a != b ==> char_below(a, b) || char_below(b, a),
        !(char_below(a, b) && char_below(b, a)),
{
}

fn char_is_below(a: char, b: char) -> (r: bool)
    ensures
        r == char_below(a, b),
{
    (a as u32) < (b as u32)
}

/// Lexicographic comparison of character sequences (by code point; this is
/// the order of the strings' UTF-8 bytes).
pub open spec fn lex_order(a: Seq<char>, b: Seq<char>) -> Ordering
    decreases a.len(),
{
    if a.len() == 0 {
        if b.len() == 0 {
            Ordering::Equal
        } else {
            Ordering::Less
        }
    } else if b.len() == 0 {
        Ordering::Greater
    } else if char_below(a[0], b[0]) {
        Ordering::Less
    } else if char_below(b[0], a[0]) {
        Ordering::Greater
    } else {
        lex_order(a.drop_first(), b.drop_first())
    }
}

pub open spec fn lower_seq(s: Seq<char>) -> Seq<char> {
    s.map_values(|c: char| ascii_lower(c))
}

pub open spec fn reverse_ordering(o: Ordering) -> Ordering {
    match o {
        Ordering::Less => Ordering::Greater,
        Ordering::Equal => Ordering::Equal,
        Ordering::Greater => Ordering::Less,
    }
}

pub open spec fn int_order(a: u32, b: u32) -> Ordering {
    if a < b {
        Ordering::Less
    } else if a == b {
        Ordering::Equal
    } else {
        Ordering::Greater
    }
}

/// What a card is sorted by.
pub struct CardSortKey {
    /// Position in which the card was added (1 for the first).
    pub insertion_position: u32,
    pub title: String,
    pub subtitle: String,
    pub release_date: String,
    pub popularity: u32,
}

/// How two cards compare under a sort order: insertion order; title or
/// creator, ignoring ASCII case; newest release first; most popular first.
pub open spec fn compare_spec(sort: SortOrder, a: CardSortKey, b: CardSortKey) -> Ordering {
    match sort {
        SortOrder::RecentlyAdded => int_order(a.insertion_position, b.insertion_position),
        SortOrder::Alphabetic => lex_order(lower_seq(a.title@), lower_seq(b.title@)),
        SortOrder::Creator => lex_order(lower_seq(a.subtitle@), lower_seq(b.subtitle@)),
        SortOrder::DateReleased => lex_order(b.release_date@, a.release_date@),
        SortOrder::Popularity => int_order(b.popularity, a.popularity),
    }
}

fn lower_char(c: char) -> (r: char)
    ensures
        r == ascii_lower(c),
{
    if 'A' <= c && c <= 'Z' {
        let b: u8 = (c as u8) + 32;
        b as char
    } else {
        c
    }
}

/// The characters of `s` with ASCII letters lowered.
fn lowered(s: &str) -> (r: Vec<char>)
    ensures
        r@ == lower_seq(s@),
{
    let v = crate::text::chars_of(s);
    let mut out: Vec<char> = Vec::new();
    let mut i: usize = 0;
    while i < v.len()
        invariant
            i <= v@.len(),
            v@ == s@,
            out@ == lower_seq(s@).take(i as int),
        decreases v@.len() - i,
    {
        let c = lower_char(v[i]);
        out.push(c);
        i = i + 1;
        assert(out@ =~= lower_seq(s@).take(i as int));
    }
    assert(out@ =~= lower_seq(s@));
    out
}

proof fn lemma_lex_order_skip(a: Seq<char>, b: Seq<char>, i: int)
    requires
        0 <= i <= a.len(),
        i <= b.len(),
        forall|k: int| 0 <= k < i ==> a[k] == b[k],
    ensures
        lex_order(a, b) == lex_order(a.skip(i), b.skip(i)),
    decreases i,
{
    if i > 0 {
        assert(a.skip(1) =~= a.drop_first());
        assert(b.skip(1) =~= b.drop_first());
        lemma_lex_order_skip(a.drop_first(), b.drop_first(), i - 1);
        assert(a.drop_first().skip(i - 1) =~= a.skip(i));
        assert(b.drop_first().skip(i - 1) =~= b.skip(i));
    } else {
        assert(a.skip(0) =~= a);
        assert(b.skip(0) =~= b);
    }
}

/// Length of the longest common prefix of `a` and `b`.
fn common_prefix_len(a: &Vec<char>, b: &Vec<char>) -> (r: usize)
    ensures
        r <= a@.len(),
        r <= b@.len(),
        forall|k: int| 0 <= k < r ==> a@[k] == b@[k],
        r < a@.len() && r < b@.len() ==> a@[r as int] != b@[r as int],
{
    let mut i: usize = 0;
    while i < a.len() && i < b.len() && a[i] == b[i]
        invariant
            i <= a@.len(),
            i <= b@.len(),
            forall|k: int| 0 <= k < i ==> a@[k] == b@[k],
        decreases a@.len() - i,
    {
        i = i + 1;
    }
    i
}

fn lex_compare(a: &Vec<char>, b: &Vec<char>) -> (r: Ordering)
    ensures
        r == lex_order(a@, b@),
{
    let i = common_prefix_len(a, b);
    proof {
        lemma_lex_order_skip(a@, b@, idx(i));
    }
    if i == a.len() {
        if i == b.len() {
            Ordering::Equal
        } else {
            Ordering::Less
        }
    } else if i == b.len() {
        Ordering::Greater
    } else {
        let x = a[i];
        let y = b[i];
        proof {
            assert(a@.skip(idx(i))[0] == x && b@.skip(idx(i))[0] == y);
            lemma_char_trichotomy(x, y);
        }
        if char_is_below(x, y) {
            Ordering::Less
        } else {
            Ordering::Greater
        }
    }
}

fn u32_compare(a: u32, b: u32) -> (r: Ordering)
    ensures
        r == int_order(a, b),
{
    if a < b {
        Ordering::Less
    } else if a == b {
        Ordering::Equal
    } else {
        Ordering::Greater
    }
}

/// Compare two cards for sorting.
pub fn compare_cards(sort: SortOrder, a: &CardSortKey, b: &CardSortKey) -> (r: Ordering)
    ensures
        r == compare_spec(sort, *a, *b),
{
    match sort {
        SortOrder::RecentlyAdded => u32_compare(a.insertion_position, b.insertion_position),
        SortOrder::Alphabetic => lex_compare(
            &lowered(a.title.as_str()),
            &lowered(b.title.as_str()),
        ),
        SortOrder::Creator => lex_compare(
            &lowered(a.subtitle.as_str()),
            &lowered(b.subtitle.as_str()),
        ),
        SortOrder::DateReleased => lex_compare(
            &crate::text::chars_of(b.release_date.as_str()),
            &crate::text::chars_of(a.release_date.as_str()),
        ),
        SortOrder::Popularity => u32_compare(b.popularity, a.popularity),
    }
}

/// How a grid child compares: cards by `compare_spec`, placeholders (`None`)
/// after every card.
pub open spec fn child_compare_spec(sort: SortOrder, a: Option<CardSortKey>, b: Option<CardSortKey>) -> Ordering {
    match (a, b) {
        (Some(x), Some(y)) => compare_spec(sort, x, y),
        (None, None) => Ordering::Equal,
        (None, Some(_)) => Ordering::Greater,
        (Some(_), None) => Ordering::Less,
    }
}

pub fn compare_children(sort: SortOrder, a: Option<&CardSortKey>, b: Option<&CardSortKey>) -> (r:
    Ordering)
    ensures
        r == child_compare_spec(
            sort,
            match a {
                Some(x) => Some(*x),
                None => None,
            },
            match b {
                Some(x) => Some(*x),
                None => None,
            },
        ),
{
    match (a, b) {
        (Some(x), Some(y)) => compare_cards(sort, x, y),
        (None, None) => Ordering::Equal,
        (None, Some(_)) => Ordering::Greater,
        (Some(_), None) => Ordering::Less,
    }
}

proof fn lemma_lex_order_antisymmetric(a: Seq<char>, b: Seq<char>)
    ensures
        lex_order(b, a) == reverse_ordering(lex_order(a, b)),
    decreases a.len(),
{
    if a.len() > 0 && b.len() > 0 {
        lemma_char_trichotomy(a[0], b[0]);
        if a[0] == b[0] {
            lemma_lex_order_antisymmetric(a.drop_first(), b.drop_first());
        }
    }
}

proof fn lemma_lex_order_equal(a: Seq<char>, b: Seq<char>)
    ensures
        lex_order(a, b) == Ordering::Equal <==> a == b,
    decreases a.len(),
{
    if a.len() > 0 && b.len() > 0 {
        lemma_char_trichotomy(a[0], b[0]);
        if a[0] == b[0] {
            lemma_lex_order_equal(a.drop_first(), b.drop_first());
            assert(a =~= seq![a[0]] + a.drop_first());
            assert(b =~= seq![b[0]] + b.drop_first());
            if a == b {
                assert(a.drop_first() =~= b.drop_first());
            }
        } else {
            assert(a != b);
        }
    } else if a.len() == 0 && b.len() == 0 {
        assert(a =~= b);
    } else {
        assert(a.len() != b.len());
    }
}

/// Swapping the cards reverses their order, for every sort order (so the
/// grid's sort is consistent whichever way round two cards are compared), and
/// placeholders always come after cards.
pub proof fn law_card_order_is_antisymmetric(
    sort: SortOrder,
    a: Option<CardSortKey>,
    b: Option<CardSortKey>,
)
    ensures
        child_compare_spec(sort, b, a) == reverse_ordering(child_compare_spec(sort, a, b)),
        a is Some && b is None ==> child_compare_spec(sort, a, b) == Ordering::Less,
{
    if let (Some(x), Some(y)) = (a, b) {
        match sort {
            SortOrder::Alphabetic => lemma_lex_order_antisymmetric(lower_seq(x.title@), lower_seq(y.title@)),
            SortOrder::Creator => lemma_lex_order_antisymmetric(lower_seq(x.subtitle@), lower_seq(y.subtitle@)),
            SortOrder::DateReleased => lemma_lex_order_antisymmetric(y.release_date@, x.release_date@),
            _ => {},
        }
    }
}

/// Two titles compare equal alphabetically exactly when they differ only in
/// the case of ASCII letters.
pub proof fn law_alphabetic_ignores_ascii_case(a: CardSortKey, b: CardSortKey)
    ensures
        compare_spec(SortOrder::Alphabetic, a, b) == Ordering::Equal <==> lower_seq(a.title@)
            == lower_seq(b.title@),
{
    lemma_lex_order_equal(lower_seq(a.title@), lower_seq(b.title@));
}

/// Whether a grid child is shown under a category filter: everything is shown
/// with no filter (empty), placeholders (`None`) always, cards of the category.
pub open spec fn passes_filter_spec(filter: Seq<char>, category: Option<Seq<char>>) -> bool {
    filter.len() == 0 || category is None || category == Some(filter)
}

pub fn passes_filter(filter: &str, category: Option<&str>) -> (r: bool)
    ensures
        r == passes_filter_spec(
            filter@,
            match category {
                Some(c) => Some(c@),
                None => None,
            },
        ),
{
    if filter.unicode_len() == 0 {
        return true;
    }
    match category {
        Some(c) => str_equals(c, filter),
        None => true,
    }
}

/// How many of the first `i` children count toward the row limit: the
/// placeholders and the cards that pass the filter.
pub open spec fn counted_before(filter: Seq<char>, children: Seq<Option<Seq<char>>>, i: int) -> nat
    decreases i,
{
    if i <= 0 {
        0
    } else {
        counted_before(filter, children, i - 1) + if passes_filter_spec(filter, children[i - 1]) {
            1nat
        } else {
            0nat
        }
    }
}

/// Which children of a row-limited grid are visible: a child that counts
/// toward the limit is shown while fewer than `max_visible` counted children
/// precede it; a card filtered out is hidden.
pub open spec fn grid_visibility_spec(
    filter: Seq<char>,
    children: Seq<Option<Seq<char>>>,
    max_visible: nat,
) -> Seq<bool> {
    Seq::new(
        children.len(),
        |i: int| passes_filter_spec(filter, children[i]) && counted_before(filter, children, i) < max_visible,
    )
}

pub open spec fn categories_view(children: Seq<Option<String>>) -> Seq<Option<Seq<char>>> {
    children.map_values(
        |c: Option<String>|
            match c {
                Some(s) => Some(s@),
                None => None,
            },
    )
}

/// The visibility of each child of a grid limited to `max_visible` children;
/// `children` holds each child's category, `None` for a placeholder.
pub fn grid_visibility(filter: &str, children: &Vec<Option<String>>, max_visible: usize) -> (r: Vec<
    bool,
>)
    ensures
        r@ == grid_visibility_spec(filter@, categories_view(children@), max_visible as nat),
{
    let ghost cv = categories_view(children@);
    let mut out: Vec<bool> = Vec::new();
    let mut visible_index: usize = 0;
    let mut i: usize = 0;
    while i < children.len()
        invariant
            cv == categories_view(children@),
            i <= children@.len(),
            visible_index as nat == counted_before(filter@, cv, i as int),
            visible_index <= i,
            out@ == grid_visibility_spec(filter@, cv, max_visible as nat).take(i as int),
        decreases children@.len() - i,
    {
        let passes = match &children[i] {
            Some(c) => passes_filter(filter, Some(c.as_str())),
            None => passes_filter(filter, None),
        };
        if passes {
            out.push(visible_index < max_visible);
            visible_index = visible_index + 1;
        } else {
            out.push(false);
        }
        i = i + 1;
        assert(out@ =~= grid_visibility_spec(filter@, cv, max_visible as nat).take(i as int));
    }
    assert(out@ =~= grid_visibility_spec(filter@, cv, max_visible as nat));
    out
}

proof fn lemma_counted_before_monotonic(filter: Seq<char>, children: Seq<Option<Seq<char>>>, i: int, j: int)
    requires
        0 <= i <= j,
    ensures
        counted_before(filter, children, i) <= counted_before(filter, children, j),
    decreases j - i,
{
    if i < j {
        lemma_counted_before_monotonic(filter, children, i, j - 1);
    }
}

/// A row-limited grid never shows more than `max_visible` children, and a card
/// filtered out is never shown.
pub proof fn law_grid_shows_at_most_the_limit(
    filter: Seq<char>,
    children: Seq<Option<Seq<char>>>,
    max_visible: nat,
)
    ensures
        ({
            let vis = grid_visibility_spec(filter, children, max_visible);
            &&& vis.filter(|b: bool| b).len() <= max_visible
            &&& forall|i: int|
                0 <= i < children.len() && !passes_filter_spec(filter, children[i]) ==> !vis[i]
        }),
{
    let vis = grid_visibility_spec(filter, children, max_visible);
    lemma_visible_count(filter, children, max_visible, children.len() as int);
    assert(vis.take(children.len() as int) =~= vis);
}

/// Among the first `n` children, the visible ones are those counted children
/// that come before the limit: at most `min(counted, max_visible)` of them.
proof fn lemma_visible_count(
    filter: Seq<char>,
    children: Seq<Option<Seq<char>>>,
    max_visible: nat,
    n: int,
)
    requires
        0 <= n <= children.len(),
    ensures
        ({
            let vis = grid_visibility_spec(filter, children, max_visible);
            let c = counted_before(filter, children, n);
            vis.take(n).filter(|b: bool| b).len() == if c < max_visible {
                c
            } else {
                max_visible
            }
        }),
    decreases n,
{
    let vis = grid_visibility_spec(filter, children, max_visible);
    reveal_with_fuel(Seq::filter, 1);
    if n > 0 {
        lemma_visible_count(filter, children, max_visible, n - 1);
        assert(vis.take(n).drop_last() =~= vis.take(n - 1));
    } else {
        assert(vis.take(0) =~= Seq::<bool>::empty());
    }
}

/// How many children a grid of `max_rows` rows and `columns` columns shows.
pub fn grid_capacity(max_rows: u32, columns: u32) -> (r: usize)
    requires
        max_rows * columns <= u32::MAX,
    ensures
        r == max_rows * columns,
{
    let c: u32 = max_rows * columns;
    c as usize
}

/// How many placeholders to insert: one extra row's worth under a row limit,
/// so that a low column estimate never leaves the limited area under-filled;
/// a fixed 50 without a limit.
pub fn placeholder_insert_count(max_rows: Option<u32>, columns: u32) -> (r: u32)
    requires
        max_rows matches Some(rows) ==> rows < u32::MAX && (rows + 1) * columns <= u32::MAX,
    ensures
        r == match max_rows {
            Some(rows) => (rows + 1) * columns,
            None => 50,
        },
{
    match max_rows {
        Some(rows) => (rows + 1) * columns,
        None => 50,
    }
}

/// The column count estimated from pixel widths when the grid has not been
/// laid out: how many cards of `card_width` (spacing included) fit in the
/// width, at least one; the grid's own maximum when either width is unknown.
pub fn columns_for_width(allocated_width: i32, card_width: i32, max_per_line: u32) -> (r: u32)
    requires
        allocated_width + 6 <= i32::MAX,
    ensures
        allocated_width > 0 && card_width > 0 ==> r as int == if (allocated_width + 6)
            / card_width as int >= 1 {
            (allocated_width + 6) / card_width as int
        } else {
            1
        },
        !(allocated_width > 0 && card_width > 0) ==> r == max_per_line,
{
    if allocated_width > 0 && card_width > 0 {
        let cols = (allocated_width + 6) / card_width;
        if cols >= 1 {
            cols as u32
        } else {
            1
        }
    } else {
        max_per_line
    }
}

/// The smallest top coordinate among the children that have one, starting
/// from `i32::MAX` (the value meaning "none").
pub open spec fn min_top(tops: Seq<Option<i32>>) -> i32
    decreases tops.len(),
{
    if tops.len() == 0 {
        i32::MAX
    } else {
        let rest = min_top(tops.drop_last());
        match tops.last() {
            Some(y) => if y < rest {
                y
            } else {
                rest
            },
            None => rest,
        }
    }
}

pub open spec fn count_at(tops: Seq<Option<i32>>, y: i32) -> nat
    decreases tops.len(),
{
    if tops.len() == 0 {
        0
    } else {
        count_at(tops.drop_last(), y) + if tops.last() == Some(y) {
            1nat
        } else {
            0nat
        }
    }
}

/// The column count of a laid-out grid: the number of visible children on the
/// top row (those whose top is the smallest); none when the grid has no width
/// yet or no child has a position.
pub open spec fn measured_columns_spec(width: i32, tops: Seq<Option<i32>>) -> Option<nat> {
    if width <= 0 || min_top(tops) == i32::MAX {
        None
    } else {
        let c = count_at(tops, min_top(tops));
        if c > 0 {
            Some(c)
        } else {
            None
        }
    }
}

/// `tops` holds the top coordinate of each visible child (`None` when unknown).
pub fn measured_columns(width: i32, tops: &Vec<Option<i32>>) -> (r: Option<u32>)
    requires
        tops@.len() <= u32::MAX,
    ensures
        match r {
            Some(c) => measured_columns_spec(width, tops@) == Some(c as nat),
            None => measured_columns_spec(width, tops@) is None,
        },
{
    if width <= 0 {
        return None;
    }
    let mut min_y: i32 = i32::MAX;
    let mut i: usize = 0;
    while i < tops.len()
        invariant
            i <= tops@.len(),
            min_y == min_top(tops@.take(i as int)),
        decreases tops@.len() - i,
    {
        if let Some(y) = tops[i] {
            if y < min_y {
                min_y = y;
            }
        }
        proof {
            assert(tops@.take(i + 1).drop_last() =~= tops@.take(i as int));
        }
        i = i + 1;
    }
    assert(tops@.take(tops@.len() as int) =~= tops@);
    if min_y == i32::MAX {
        return None;
    }
    let mut count: u32 = 0;
    let mut j: usize = 0;
    while j < tops.len()
        invariant
            j <= tops@.len(),
            tops@.len() <= u32::MAX,
            count as nat == count_at(tops@.take(j as int), min_y),
            count <= j,
        decreases tops@.len() - j,
    {
        proof {
            assert(tops@.take(j + 1).drop_last() =~= tops@.take(j as int));
        }
        if tops[j] == Some(min_y) {
            count = count + 1;
        }
        j = j + 1;
    }
    if count > 0 {
        Some(count)
    } else {
        None
    }
}

/// How the cards of a grid are drawn.
#[derive(Clone, Copy, Debug, PartialEq, Eq, Structural)]
pub enum CardLayout {
    Vertical,
    ImageOnly,
    Horizontal,
}

/// The icon of the layout button for each layout.
pub open spec fn layout_icon_spec(layout: CardLayout) -> Seq<char> {
    match layout {
        CardLayout::Vertical => "view-grid-symbolic"@,
        CardLayout::ImageOnly => "view-app-grid-symbolic"@,
        CardLayout::Horizontal => "view-list-symbolic"@,
    }
}

pub fn icon_for_layout(layout: CardLayout) -> (r: &'static str)
    ensures
        r@ == layout_icon_spec(layout),
{
    match layout {
        CardLayout::Vertical => "view-grid-symbolic",
        CardLayout::ImageOnly => "view-app-grid-symbolic",
        CardLayout::Horizontal => "view-list-symbolic",
    }
}

/// How many placeholders a grid shows while more cards load.
pub const PLACEHOLDER_COUNT: u32 = 50;

/// How many placeholders to append before loading another page: a full set,
/// unless placeholders are already shown.
pub fn placeholders_to_append(current: u32) -> (r: u32)
    ensures
        r == if current > 0 {
            0
        } else {
            PLACEHOLDER_COUNT
        },
{
    if current > 0 {
        0
    } else {
        PLACEHOLDER_COUNT
    }
}

/// The grid's height request after a filter is chosen: released (-1) when
/// every card is shown again; otherwise the current height, capped at the
/// visible area, is kept as a minimum so that the page does not jump (while
/// the grid has no height yet, the request stays as it was).
pub fn filter_height_request(
    show_all: bool,
    current_height: i32,
    viewport_height: Option<i32>,
    height_request: i32,
) -> (r: i32)
    ensures
        r == if show_all {
            -1i32
        } else if current_height > 0 {
            let cap = match viewport_height {
                Some(v) => v,
                None => current_height,
            };
            let locked = if current_height < cap {
                current_height
            } else {
                cap
            };
            if height_request > locked {
                height_request
            } else {
                locked
            }
        } else {
            height_request
        },
{
    if show_all {
        -1
    } else if current_height > 0 {
        let cap = match viewport_height {
            Some(v) => v,
            None => current_height,
        };
        let locked = if current_height < cap {
            current_height
        } else {
            cap
        };
        if height_request > locked {
            height_request
        } else {
            locked
        }
    } else {
        height_request
    }
}

/// How many of the first `n` children are cards left visible by the filter;
/// each child is `(is a card, visible)`.
pub open spec fn cards_shown(children: Seq<(bool, bool)>, n: int) -> nat
    decreases n,
{
    if n <= 0 {
        0
    } else {
        cards_shown(children, n - 1) + if children[n - 1].0 && children[n - 1].1 {
            1nat
        } else {
            0nat
        }
    }
}

proof fn lemma_cards_shown_bound(children: Seq<(bool, bool)>, n: int)
    requires
        0 <= n,
    ensures
        cards_shown(children, n) <= n,
    decreases n,
{
    if n > 0 {
        lemma_cards_shown_bound(children, n - 1);
    }
}

/// The number of cards (placeholders excluded) the filter leaves visible.
pub fn visible_count(children: &Vec<(bool, bool)>) -> (r: usize)
    ensures
        r == cards_shown(children@, children.len() as int),
{
    let mut count: usize = 0;
    let mut i: usize = 0;
    while i < children.len()
        invariant
            i <= children.len(),
            count == cards_shown(children@, i as int),
        decreases children.len() - i,
    {
        proof {
            lemma_cards_shown_bound(children@, i as int);
        }
        if children[i].0 && children[i].1 {
            count = count + 1;
        }
        i = i + 1;
    }
    count
}

/// The filter buttons of a card page exist twice (a bar when wide, a menu
/// when narrow); this is the choice they share. While one set is brought in
/// line with the other, the toggles it causes are ignored.
pub struct FilterToggleState {
    active_index: usize,
    syncing: bool,
}

impl View for FilterToggleState {
    type V = (usize, bool);

    closed spec fn view(&self) -> (usize, bool) {
        (self.active_index, self.syncing)
    }
}

/// A toggle: a button that became active selects its filter, unless the
/// buttons are being synchronized. Gives the new state and the filter applied.
pub open spec fn toggled_spec(state: (usize, bool), index: usize, active: bool) -> (
    (usize, bool),
    Option<usize>,
) {
    if !state.1 && active {
        ((index, state.1), Some(index))
    } else {
        (state, None)
    }
}

impl FilterToggleState {
    /// The first option starts active.
    pub fn new() -> (r: FilterToggleState)
        ensures
            r@ == (0usize, false),
    {
        FilterToggleState { active_index: 0, syncing: false }
    }

    pub fn active_index(&self) -> (r: usize)
        ensures
            r == self@.0,
    {
        self.active_index
    }

    /// A button of either set was toggled; the index of the filter to apply,
    /// if any.
    pub fn on_toggled(&mut self, index: usize, active: bool) -> (r: Option<usize>)
        ensures
            (final(self)@, r) == toggled_spec(old(self)@, index, active),
    {
        if !self.syncing && active {
            self.active_index = index;
            Some(index)
        } else {
            None
        }
    }

    /// Start bringing the other set in line: the button to activate there.
    pub fn begin_sync(&mut self) -> (r: usize)
        ensures
            final(self)@ == (old(self)@.0, true),
            r == old(self)@.0,
    {
        self.syncing = true;
        self.active_index
    }

    pub fn end_sync(&mut self)
        ensures
            final(self)@ == (old(self)@.0, false),
    {
        self.syncing = false;
    }
}

/// Switching between the wide and narrow filter buttons never changes the
/// chosen filter: whatever toggles the synchronization causes, the state
/// afterwards is the state before.
pub proof fn law_sync_keeps_the_filter(state: (usize, bool), index: usize, active: bool)
    requires
        !state.1,
    ensures
        ({
            let during = (state.0, true);
            let (after_toggle, applied) = toggled_spec(during, index, active);
            applied is None && (after_toggle.0, false) == state
        }),
{
}

/// What a card page does after its model refreshed.
#[derive(Clone, Copy, Debug, PartialEq, Eq, Structural)]
pub struct RefreshPlan {
    /// The empty-page status is shown.
    pub show_empty_status: bool,
    /// Placeholders are appended and the next page loaded, because the cards
    /// do not fill the page and more exist.
    pub load_more: bool,
    /// The grid is sorted again (cards arrive in the insertion order).
    pub apply_sort: Option<SortOrder>,
}

pub fn refresh_plan(has_items: bool, fits_without_scrolling: bool, has_more: bool, sort: SortOrder) -> (r:
    RefreshPlan)
    ensures
        r.show_empty_status == !has_items,
        r.load_more == (has_items && fits_without_scrolling && has_more),
        r.apply_sort == if has_items && sort != SortOrder::RecentlyAdded {
            Some(sort)
        } else {
            None
        },
{
    let recent = match sort {
        SortOrder::RecentlyAdded => true,
        _ => false,
    };
    RefreshPlan {
        show_empty_status: !has_items,
        load_more: has_items && fits_without_scrolling && has_more,
        apply_sort: if has_items && !recent {
            Some(sort)
        } else {
            None
        },
    }
}

/// Whether an embedded grid shows its "no items found for this filter"
/// notice after a filter was chosen: only for a category filter that leaves
/// no card visible.
pub fn filter_empty_notice(category: &str, visible_count: usize) -> (r: bool)
    ensures
        r == (category@.len() > 0 && visible_count == 0),
{
    category.unicode_len() > 0 && visible_count == 0
}

/// The numbers cards get in arrival order (the `RecentlyAdded` sort key),
/// with the next number free afterwards: a card without a number (0) takes the
/// next one; when `renumber` is set (a fresh bind) every card does.
pub open spec fn numbering(start: int, current: Seq<u32>, renumber: bool) -> (Seq<int>, int)
    decreases current.len(),
{
    if current.len() == 0 {
        (Seq::empty(), start)
    } else {
        let (prev, next) = numbering(start, current.drop_last(), renumber);
        if renumber || current.last() == 0 {
            (prev.push(next), next + 1)
        } else {
            (prev.push(current.last() as int), next)
        }
    }
}

proof fn lemma_numbering_len(start: int, current: Seq<u32>, renumber: bool)
    ensures
        numbering(start, current, renumber).0.len() == current.len(),
        start <= numbering(start, current, renumber).1 <= start + current.len(),
    decreases current.len(),
{
    if current.len() > 0 {
        lemma_numbering_len(start, current.drop_last(), renumber);
    }
}

/// A fresh bind numbers the cards `start`, `start + 1`, ... in their order, so
/// the insertion order is the order of the source list.
pub proof fn law_fresh_bind_numbers_in_order(start: int, current: Seq<u32>)
    ensures
        numbering(start, current, true).1 == start + current.len(),
        forall|i: int|
            0 <= i < current.len() ==> #[trigger] numbering(start, current, true).0[i] == start + i,
    decreases current.len(),
{
    lemma_numbering_len(start, current, true);
    if current.len() > 0 {
        law_fresh_bind_numbers_in_order(start, current.drop_last());
        let prev = numbering(start, current.drop_last(), true).0;
        assert forall|i: int| 0 <= i < current.len() implies #[trigger] numbering(
            start,
            current,
            true,
        ).0[i] == start + i by {
            if i < current.len() - 1 {
                assert(numbering(start, current, true).0[i] == prev[i]);
            }
        }
    }
}

/// The first number a fresh bind hands out: numbering starts at 1.
pub fn bind_start(next_position: u32) -> (r: u32)
    ensures
        r == if next_position > 1 {
            next_position
        } else {
            1
        },
{
    if next_position > 1 {
        next_position
    } else {
        1
    }
}

/// Number the cards of the source list, from `start`; gives their numbers and
/// the next free number.
pub fn number_cards(start: u32, current: &Vec<u32>, renumber: bool) -> (r: (Vec<u32>, u32))
    requires
        start + current.len() <= u32::MAX,
    ensures
        r.0@.map_values(|x: u32| x as int) == numbering(start as int, current@, renumber).0,
        r.1 as int == numbering(start as int, current@, renumber).1,
{
    let mut out: Vec<u32> = Vec::new();
    let mut next: u32 = start;
    let mut i: usize = 0;
    while i < current.len()
        invariant
            i <= current.len(),
            start + current.len() <= u32::MAX,
            out@.map_values(|x: u32| x as int) == numbering(
                start as int,
                current@.take(i as int),
                renumber,
            ).0,
            next as int == numbering(start as int, current@.take(i as int), renumber).1,
        decreases current.len() - i,
    {
        proof {
            lemma_numbering_len(start as int, current@.take(i as int), renumber);
            assert(current@.take(i + 1).drop_last() =~= current@.take(i as int));
            assert(current@.take(i + 1).last() == current@[i as int]);
        }
        let c = current[i];
        if renumber || c == 0 {
            out.push(next);
            next = next + 1;
        } else {
            out.push(c);
        }
        proof {
            let ghost m = out@.map_values(|x: u32| x as int);
            assert(m =~= numbering(start as int, current@.take(i + 1), renumber).0);
        }
        i = i + 1;
    }
    assert(current@.take(current.len() as int) =~= current@);
    (out, next)
}

/// Which grid children to drop after cards left the source list: the cards
/// whose id is no longer among `source_ids` (placeholders, `None`, stay).
pub fn stale_children(children: &Vec<Option<String>>, source_ids: &Vec<String>) -> (r: Vec<bool>)
    ensures
        r.len() == children.len(),
        forall|i: int|
            0 <= i < children.len() ==> #[trigger] r@[i] == (children@[i] matches Some(id)
                && !(exists|j: int| 0 <= j < source_ids.len() && source_ids@[j]@ == id@)),
{
    let mut out: Vec<bool> = Vec::new();
    let mut i: usize = 0;
    while i < children.len()
        invariant
            i <= children.len(),
            out.len() == i,
            forall|k: int|
                0 <= k < i ==> #[trigger] out@[k] == (children@[k] matches Some(id) && !(exists|
                    j: int,
                | 0 <= j < source_ids.len() && source_ids@[j]@ == id@)),
        decreases children.len() - i,
    {
        let stale = match &children[i] {
            Some(id) => {
                let mut found = false;
                let mut j: usize = 0;
                while j < source_ids.len()
                    invariant
                        j <= source_ids.len(),
                        found == (exists|k: int| 0 <= k < j && source_ids@[k]@ == id@),
                    decreases source_ids.len() - j,
                {
                    if !found && str_equals(source_ids[j].as_str(), id.as_str()) {
                        found = true;
                    }
                    j = j + 1;
                }
                !found
            },
            None => false,
        };
        out.push(stale);
        i = i + 1;
    }
    out
}

/// Placeholders go once real cards arrive.
pub fn arrival_removes_placeholders(added: u32, placeholder_count: u32) -> (r: bool)
    ensures
        r == (added > 0 && placeholder_count > 0),
{
    added > 0 && placeholder_count > 0
}

/// The sort a card page applies when it opens: the effective sort for the
/// user's preference, unless that is the insertion order the cards arrive in
/// anyway.
pub fn initial_sort(preferred: SortOrder, available: &[SortOrder]) -> (r: Option<SortOrder>)
    ensures
        r == if effective_sort_spec(preferred, available@) == SortOrder::RecentlyAdded {
            None
        } else {
            Some(effective_sort_spec(preferred, available@))
        },
{
    let sort = effective_sort(preferred, available);
    match sort {
        SortOrder::RecentlyAdded => None,
        _ => Some(sort),
    }
}

/// Scrolling to the bottom of a card page loads more cards (behind
/// placeholders) while the model has more.
pub fn bottom_reached_loads_more(at_bottom: bool, has_more: bool) -> (r: bool)
    ensures
        r == (at_bottom && has_more),
{
    at_bottom && has_more
}

} // verus!
