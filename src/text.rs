//! Character-level helpers on strings.
use vstd::prelude::*;

verus! {

/// True when `p` occurs in `s` as a contiguous run of characters.
pub open spec fn contains_chars(s: Seq<char>, p: Seq<char>) -> bool {
    exists|i: int| 0 <= i && i + p.len() <= s.len() && #[trigger] s.subrange(i, i + p.len()) == p
}

/// Index of the last `'/'` in `s`, or -1 when there is none.
pub open spec fn last_slash(s: Seq<char>) -> int
    decreases s.len(),
{
    if s.len() == 0 {
        -1
    } else if s.last() == '/' {
        s.len() - 1
    } else {
        last_slash(s.drop_last())
    }
}

/// The characters after the last `'/'` of `s` (all of `s` when it has none).
pub open spec fn final_segment(s: Seq<char>) -> Seq<char> {
    s.subrange(last_slash(s) + 1, s.len() as int)
}

/// The name used for a document that a URL gives no name to.
pub open spec fn unknown_document_name() -> Seq<char> {
    "unknown.xml"@
}

/// The document name that a URL designates: its final `/`-delimited segment,
/// or `unknown.xml` when that segment is empty.
pub open spec fn document_name_of(url: Seq<char>) -> Seq<char> {
    if final_segment(url).len() == 0 {
        unknown_document_name()
    } else {
        final_segment(url)
    }
}

/// `s` with every non-overlapping occurrence of `from`, scanned left to right,
/// replaced by `to`.
pub open spec fn replaced(s: Seq<char>, from: Seq<char>, to: Seq<char>) -> Seq<char>
    recommends
        from.len() > 0,
    decreases s.len(),
{
    if s.len() == 0 || from.len() == 0 {
        s
    } else if from.len() <= s.len() && s.subrange(0, from.len() as int) == from {
        to + replaced(s.subrange(from.len() as int, s.len() as int), from, to)
    } else {
        seq![s[0]] + replaced(s.subrange(1, s.len() as int), from, to)
    }
}

/// Whether two strings hold the same characters.
pub fn str_eq(a: &str, b: &str) -> (r: bool)
    ensures
        r == (a@ == b@),
{
    let n = a.unicode_len();
    if n != b.unicode_len() {
        return false;
    }
    let mut i: usize = 0;
    while i < n
        invariant
            n == a@.len() == b@.len(),
            i <= n,
            forall|j: int| 0 <= j < i ==> a@[j] == b@[j],
        decreases n - i,
    {
        if a.get_char(i) != b.get_char(i) {
            return false;
        }
        i = i + 1;
    }
    assert(a@ =~= b@);
    true
}

/// Whether the characters of `p` occur contiguously in `s`.
pub fn str_contains(s: &str, p: &str) -> (r: bool)
    ensures
        r == contains_chars(s@, p@),
{
    let n = s.unicode_len();
    let m = p.unicode_len();
    if m > n {
        return false;
    }
    let last = n - m;
    let mut i: usize = 0;
    loop
        invariant
            n == s@.len(),
            m == p@.len(),
            last == n - m,
            i <= last,
            forall|k: int| 0 <= k < i ==> #[trigger] s@.subrange(k, k + m) != p@,
        ensures
            forall|k: int| 0 <= k <= last ==> #[trigger] s@.subrange(k, k + m) != p@,
        decreases last - i,
    {
        let part = s.substring_char(i, i + m);
        if str_eq(part, p) {
            return true;
        }
        if i == last {
            break;
        }
        i = i + 1;
    }
    assert forall|k: int| 0 <= k && k + p@.len() <= s@.len() implies #[trigger] s@.subrange(k, k + p@.len())
        != p@ by {}
    false
}

/// Relies on `str::replace` with a non-empty string pattern: every
/// non-overlapping match, taken from the left, is replaced.
#[verifier::external_body]
pub(crate) fn str_replace(s: &str, from: &str, to: &str) -> (r: String)
    requires
        from@.len() > 0,
    ensures
        r@ == replaced(s@, from@, to@),
{
    s.replace(from, to)
}

proof fn lemma_last_slash_bounds(s: Seq<char>)
    ensures
        -1 <= last_slash(s) < s.len(),
    decreases s.len(),
{
    if s.len() > 0 && s.last() != '/' {
        lemma_last_slash_bounds(s.drop_last());
    }
}

/// Whether one of the strings is `s`.
pub fn contains_string(items: &Vec<String>, s: &str) -> (r: bool)
    ensures
        r == items@.map_values(|p: String| p@).contains(s@),
{
    let ghost views = items@.map_values(|p: String| p@);
    let mut i: usize = 0;
    while i < items.len()
        invariant
            i <= items.len() == views.len(),
            views == items@.map_values(|p: String| p@),
            forall|j: int| 0 <= j < i ==> views[j] != s@,
        decreases items.len() - i,
    {
        if str_eq(items[i].as_str(), s) {
            assert(views[i as int] == s@);
            return true;
        }
        i = i + 1;
    }
    false
}

/// Position just after the last `'/'` of `s` (zero when there is none).
fn segment_start(s: &str) -> (r: usize)
    ensures
        r as int == last_slash(s@) + 1,
        r <= s@.len(),
{
    proof {
        lemma_last_slash_bounds(s@);
        assert(s@.subrange(0, s@.len() as int) == s@);
    }
    let n = s.unicode_len();
    let mut i: usize = n;
    while i > 0
        invariant
            i <= n == s@.len(),
            last_slash(s@) == last_slash(s@.subrange(0, i as int)),
        decreases i,
    {
        let c = s.get_char(i - 1);
        assert(s@.subrange(0, i as int).drop_last() == s@.subrange(0, i - 1));
        if c == '/' {
            return i;
        }
        i = i - 1;
    }
    0
}

/// The final `/`-delimited segment of a document URL, or `unknown.xml` when
/// that segment is empty.
pub fn document_name(url: &str) -> (r: String)
    ensures
        r@ == document_name_of(url@),
{
    let start = segment_start(url);
    let n = url.unicode_len();
    if start == n {
        String::from_str("unknown.xml")
    } else {
        String::from_str(url.substring_char(start, n))
    }
}

} // verus!
