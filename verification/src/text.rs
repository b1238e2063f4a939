//! Character-level helpers shared by the parsers of this crate.
//!
//! Strings are modelled by their view, a `Seq<char>`. The spec functions here
//! describe searching and trimming on such sequences; the executable functions
//! compute the same on `&str` values and are proved against them.

use vstd::prelude::*;

verus! {

/// A machine index as a mathematical integer.
pub open spec fn idx(i: usize) -> int {
    i as int
}

/// Unicode `White_Space` (the property behind `char::is_whitespace` and `str::trim`).
pub open spec fn is_white_space(c: char) -> bool {
    let u = c as u32;
    ||| 0x09 <= u <= 0x0D
    ||| u == 0x20
    ||| u == 0x85
    ||| u == 0xA0
    ||| u == 0x1680
    ||| 0x2000 <= u <= 0x200A
    ||| u == 0x2028
    ||| u == 0x2029
    ||| u == 0x202F
    ||| u == 0x205F
    ||| u == 0x3000
}

/// Index of the first element of `s` satisfying `p`, or `s.len()` when none does.
pub open spec fn find(s: Seq<char>, p: spec_fn(char) -> bool) -> nat
    decreases s.len(),
{
    if s.len() == 0 {
        0
    } else if p(s[0]) {
        0
    } else {
        1 + find(s.drop_first(), p)
    }
}

/// Length of the shortest prefix of `s` that holds every element satisfying `p`
/// (one past the last such element, or 0 when none does).
pub open spec fn rfind_end(s: Seq<char>, p: spec_fn(char) -> bool) -> nat
    decreases s.len(),
{
    if s.len() == 0 {
        0
    } else if p(s.last()) {
        s.len()
    } else {
        rfind_end(s.drop_last(), p)
    }
}

pub open spec fn not_white_space() -> spec_fn(char) -> bool {
    |c: char| !is_white_space(c)
}

pub open spec fn is_char(d: char) -> spec_fn(char) -> bool {
    |c: char| c == d
}

pub open spec fn is_not_char(d: char) -> spec_fn(char) -> bool {
    |c: char| c != d
}

/// `s` with leading and trailing white space removed (as `str::trim` does).
pub open spec fn trim(s: Seq<char>) -> Seq<char> {
    let a = find(s, not_white_space());
    if a == s.len() {
        Seq::empty()
    } else {
        s.subrange(a as int, rfind_end(s, not_white_space()) as int)
    }
}

pub open spec fn starts_with(s: Seq<char>, prefix: Seq<char>) -> bool {
    prefix.len() <= s.len() && s.take(prefix.len() as int) == prefix
}

pub proof fn lemma_find_bounds(s: Seq<char>, p: spec_fn(char) -> bool)
    ensures
        find(s, p) <= s.len(),
        find(s, p) < s.len() ==> p(s[find(s, p) as int]),
        forall|k: int| 0 <= k < find(s, p) ==> !p(#[trigger] s[k]),
    decreases s.len(),
{
    if s.len() > 0 && !p(s[0]) {
        lemma_find_bounds(s.drop_first(), p);
        assert forall|k: int| 0 <= k < find(s, p) implies !p(#[trigger] s[k]) by {
            if k > 0 {
                assert(s[k] == s.drop_first()[k - 1]);
            }
        }
    }
}

/// The first index satisfying `p` is characterised by the elements before it.
pub proof fn lemma_find_is(s: Seq<char>, p: spec_fn(char) -> bool, i: int)
    requires
        0 <= i <= s.len(),
        forall|k: int| 0 <= k < i ==> !p(#[trigger] s[k]),
        i == s.len() || p(s[i]),
    ensures
        find(s, p) == i,
    decreases s.len(),
{
    if s.len() > 0 && i > 0 {
        assert(!p(s[0]));
        assert forall|k: int| 0 <= k < i - 1 implies !p(#[trigger] s.drop_first()[k]) by {
            assert(s.drop_first()[k] == s[k + 1]);
        }
        if i < s.len() {
            assert(s.drop_first()[i - 1] == s[i]);
        }
        lemma_find_is(s.drop_first(), p, i - 1);
    }
}

/// The end of the last element satisfying `p` is characterised by the elements after it.
pub proof fn lemma_rfind_end_is(s: Seq<char>, p: spec_fn(char) -> bool, j: int)
    requires
        0 <= j <= s.len(),
        forall|k: int| j <= k < s.len() ==> !p(#[trigger] s[k]),
        j == 0 || p(s[j - 1]),
    ensures
        rfind_end(s, p) == j,
    decreases s.len(),
{
    if s.len() > 0 && j < s.len() {
        assert(!p(s.last()));
        assert forall|k: int| j <= k < s.drop_last().len() implies !p(#[trigger] s.drop_last()[k]) by {
            assert(s.drop_last()[k] == s[k]);
        }
        if j > 0 {
            assert(s.drop_last()[j - 1] == s[j - 1]);
        }
        lemma_rfind_end_is(s.drop_last(), p, j);
    }
}

/// Whether `c` is Unicode white space.
pub fn is_white_space_char(c: char) -> (r: bool)
    ensures
        r == is_white_space(c),
{
    let u = c as u32;
    (0x09 <= u && u <= 0x0D) || u == 0x20 || u == 0x85 || u == 0xA0 || u == 0x1680 || (0x2000
        <= u && u <= 0x200A) || u == 0x2028 || u == 0x2029 || u == 0x202F || u == 0x205F || u
        == 0x3000
}

/// The characters of `s`, in order.
pub fn chars_of(s: &str) -> (v: Vec<char>)
    ensures
        v@ == s@,
{
    let n = s.unicode_len();
    let mut v: Vec<char> = Vec::new();
    let mut i: usize = 0;
    while i < n
        invariant
            n == s@.len(),
            i <= n,
            v@ == s@.take(i as int),
        decreases n - i,
    {
        let c = s.get_char(i);
        v.push(c);
        i = i + 1;
        assert(v@ =~= s@.take(i as int));
    }
    assert(v@ =~= s@);
    v
}

/// Start and end (exclusive) of `trim(v)` inside `v`.
pub fn trim_bounds(v: &Vec<char>) -> (r: (usize, usize))
    ensures
        r.0 <= r.1 <= v@.len(),
        v@.subrange(r.0 as int, r.1 as int) == trim(v@),
{
    let n = v.len();
    let mut a: usize = 0;
    while a < n && is_white_space_char(v[a])
        invariant
            n == v@.len(),
            a <= n,
            forall|k: int| 0 <= k < a ==> is_white_space(#[trigger] v@[k]),
        decreases n - a,
    {
        a = a + 1;
    }
    proof {
        lemma_find_is(v@, not_white_space(), a as int);
    }
    if a == n {
        assert(v@.subrange(a as int, a as int) =~= Seq::<char>::empty());
        return (a, a);
    }
    let mut b: usize = n;
    while b > a && is_white_space_char(v[b - 1])
        invariant
            n == v@.len(),
            a < n,
            !is_white_space(v@[a as int]),
            a <= b <= n,
            forall|k: int| b <= k < n ==> is_white_space(#[trigger] v@[k]),
        decreases b,
    {
        b = b - 1;
    }
    proof {
        lemma_rfind_end_is(v@, not_white_space(), b as int);
    }
    (a, b)
}

/// Index (at or after `from`, before `to`) of the first character equal to `d`,
/// or `to` when there is none.
pub fn find_char_in(v: &Vec<char>, from: usize, to: usize, d: char) -> (r: usize)
    requires
        from <= to <= v@.len(),
    ensures
        from <= r <= to,
        r - from == find(v@.subrange(from as int, to as int), is_char(d)),
{
    let mut i = from;
    while i < to && v[i] != d
        invariant
            from <= i <= to <= v@.len(),
            forall|k: int| from <= k < i ==> v@[k] != d,
        decreases to - i,
    {
        i = i + 1;
    }
    proof {
        let sub = v@.subrange(from as int, to as int);
        assert forall|k: int| 0 <= k < i - from implies !is_char(d)(#[trigger] sub[k]) by {
            assert(sub[k] == v@[from + k]);
        }
        if i < to {
            assert(sub[i - from] == v@[i as int]);
        }
        lemma_find_is(sub, is_char(d), i - from);
    }
    i
}

/// Whether `v[start..end]` equals the characters of `lit`.
pub fn range_equals(v: &Vec<char>, start: usize, end: usize, lit: &[char]) -> (r: bool)
    requires
        start <= end <= v@.len(),
    ensures
        r == (v@.subrange(start as int, end as int) == lit@),
{
    if end - start != lit.len() {
        proof {
            assert(v@.subrange(start as int, end as int).len() != lit@.len());
        }
        return false;
    }
    let mut i: usize = 0;
    while i < lit.len()
        invariant
            start <= end <= v@.len(),
            end - start == lit@.len(),
            i <= lit@.len(),
            forall|k: int| 0 <= k < i ==> v@[start + k] == lit@[k],
        decreases lit@.len() - i,
    {
        if v[start + i] != lit[i] {
            proof {
                assert(v@.subrange(start as int, end as int)[i as int] != lit@[i as int]);
            }
            return false;
        }
        i = i + 1;
    }
    assert(v@.subrange(start as int, end as int) =~= lit@);
    true
}

/// Whether `v[start..end]` begins with the characters of `lit`.
pub fn range_starts_with(v: &Vec<char>, start: usize, end: usize, lit: &[char]) -> (r: bool)
    requires
        start <= end <= v@.len(),
    ensures
        r == starts_with(v@.subrange(start as int, end as int), lit@),
{
    if end - start < lit.len() {
        return false;
    }
    let r = range_equals(v, start, start + lit.len(), lit);
    proof {
        assert(v@.subrange(start as int, end as int).take(lit@.len() as int) =~= v@.subrange(
            start as int,
            start + lit@.len(),
        ));
    }
    r
}

/// The text of `s` between character positions `from` and `to`, as a `String`.
pub fn substring(s: &str, from: usize, to: usize) -> (r: String)
    requires
        from <= to <= s@.len(),
    ensures
        r@ == s@.subrange(from as int, to as int),
{
    let piece = s.substring_char(from, to);
    String::from_str(piece)
}

/// `s` with leading and trailing white space removed.
pub fn trimmed(s: &str) -> (r: &str)
    ensures
        r@ == trim(s@),
{
    let v = chars_of(s);
    let (a, b) = trim_bounds(&v);
    s.substring_char(a, b)
}

/// Whether two strings hold the same characters.
pub fn str_equals(a: &str, b: &str) -> (r: bool)
    ensures
        r == (a@ == b@),
{
    let va = chars_of(a);
    let vb = chars_of(b);
    let n = vb.len();
    proof {
        assert(vb@.subrange(0, n as int) =~= vb@);
    }
    range_equals(&vb, 0, n, va.as_slice())
}

/// Trimming is idempotent: trimmed text has nothing left to trim.
pub proof fn lemma_trim_idempotent(s: Seq<char>)
    ensures
        trim(trim(s)) == trim(s),
{
    let t = trim(s);
    let a = find(s, not_white_space());
    lemma_find_bounds(s, not_white_space());
    if a < s.len() {
        let e = rfind_end(s, not_white_space());
        lemma_rfind_end_bounds(s, not_white_space());
        assert(a < e) by {
            if e <= a {
                assert(!not_white_space()(s[a as int]));
            }
        }
        assert(t.len() == e - a);
        assert(t[0] == s[a as int]);
        lemma_find_is(t, not_white_space(), 0);
        assert(t[t.len() - 1] == s[e - 1]);
        lemma_rfind_end_is(t, not_white_space(), t.len() as int);
        assert(t.subrange(0, t.len() as int) =~= t);
    }
}

pub proof fn lemma_rfind_end_bounds(s: Seq<char>, p: spec_fn(char) -> bool)
    ensures
        rfind_end(s, p) <= s.len(),
        rfind_end(s, p) > 0 ==> p(s[rfind_end(s, p) - 1]),
        forall|k: int| rfind_end(s, p) <= k < s.len() ==> !p(#[trigger] s[k]),
    decreases s.len(),
{
    if s.len() > 0 && !p(s.last()) {
        lemma_rfind_end_bounds(s.drop_last(), p);
        let e = rfind_end(s, p);
        if e > 0 {
            assert(s.drop_last()[e - 1] == s[e - 1]);
        }
        assert forall|k: int| rfind_end(s, p) <= k < s.len() implies !p(#[trigger] s[k]) by {
            if k < s.len() - 1 {
                assert(s.drop_last()[k] == s[k]);
            }
        }
    }
}

} // verus!
