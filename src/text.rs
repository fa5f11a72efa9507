//! Character-level helpers on strings.
use vstd::prelude::*;
use vstd::string::*;

verus! {

/// Whether `needle` occurs as a contiguous run of characters in `hay`.
pub open spec fn is_substring(needle: Seq<char>, hay: Seq<char>) -> bool {
    exists|i: int|
        0 <= i && i + needle.len() <= hay.len() && #[trigger] hay.subrange(i, i + needle.len())
            == needle
}

/// The characters with the Unicode `White_Space` property.
pub open spec fn white_space(c: char) -> bool {
    ||| '\u{9}' <= c <= '\u{d}'
    ||| c == ' '
    ||| c == '\u{85}'
    ||| c == '\u{a0}'
    ||| c == '\u{1680}'
    ||| '\u{2000}' <= c <= '\u{200a}'
    ||| c == '\u{2028}'
    ||| c == '\u{2029}'
    ||| c == '\u{202f}'
    ||| c == '\u{205f}'
    ||| c == '\u{3000}'
}

/// `s` with its trailing white space removed.
pub open spec fn trim_end(s: Seq<char>) -> Seq<char>
    decreases s.len(),
{
    if s.len() > 0 && white_space(s.last()) {
        trim_end(s.drop_last())
    } else {
        s
    }
}

/// The longest suffix of `s` that holds no white space.
pub open spec fn trailing_run(s: Seq<char>) -> Seq<char>
    decreases s.len(),
{
    if s.len() > 0 && !white_space(s.last()) {
        trailing_run(s.drop_last()).push(s.last())
    } else {
        Seq::empty()
    }
}

/// The last white-space separated word of `s`, if it has one.
pub open spec fn last_word_of(s: Seq<char>) -> Option<Seq<char>> {
    let t = trim_end(s);
    if t.len() == 0 {
        None
    } else {
        Some(trailing_run(t))
    }
}

/// Whether `c` is white space in the Unicode sense.
pub fn is_white_space(c: char) -> (r: bool)
    ensures
        r == white_space(c),
{
    ('\u{9}' <= c && c <= '\u{d}') || c == ' ' || c == '\u{85}' || c == '\u{a0}' || c
        == '\u{1680}' || ('\u{2000}' <= c && c <= '\u{200a}') || c == '\u{2028}' || c
        == '\u{2029}' || c == '\u{202f}' || c == '\u{205f}' || c == '\u{3000}'
}

proof fn lemma_trim_end_prefix(s: Seq<char>, j: int)
    requires
        0 <= j <= s.len(),
        forall|k: int| j <= k < s.len() ==> white_space(#[trigger] s[k]),
    ensures
        trim_end(s) == trim_end(s.subrange(0, j)),
    decreases s.len() - j,
{
    if j < s.len() {
        assert(s.drop_last() =~= s.subrange(0, s.len() - 1));
        assert(s.subrange(0, s.len() - 1).subrange(0, j) =~= s.subrange(0, j));
        lemma_trim_end_prefix(s.drop_last(), j);
    } else {
        assert(s.subrange(0, j) =~= s);
    }
}

proof fn lemma_trailing_run_suffix(s: Seq<char>, i: int)
    requires
        0 <= i <= s.len(),
        forall|k: int| i <= k < s.len() ==> !white_space(#[trigger] s[k]),
        i == 0 || white_space(s[i - 1]),
    ensures
        trailing_run(s) == s.subrange(i, s.len() as int),
    decreases s.len() - i,
{
    if i < s.len() {
        lemma_trailing_run_suffix(s.drop_last(), i);
        assert(s.drop_last().subrange(i, s.len() - 1).push(s.last()) =~= s.subrange(
            i,
            s.len() as int,
        ));
    } else {
        assert(s.subrange(i, s.len() as int) =~= Seq::<char>::empty());
    }
}

/// The last white-space separated word of `s`, as
/// `s.split_whitespace().last()` gives it.
pub fn last_word(s: &str) -> (r: Option<String>)
    ensures
        r matches Some(w) ==> last_word_of(s@) == Some(w@),
        r is None ==> last_word_of(s@) is None,
{
    let n = s.unicode_len();
    let mut j: usize = n;
    while j > 0 && is_white_space(s.get_char(j - 1))
        invariant
            j <= n == s@.len(),
            forall|k: int| j <= k < n ==> white_space(#[trigger] s@[k]),
        decreases j,
    {
        j = j - 1;
    }
    proof {
        lemma_trim_end_prefix(s@, j as int);
        let p = s@.subrange(0, j as int);
        if j > 0 {
            assert(p.last() == s@[j - 1]);
        }
        assert(trim_end(p) == p);
    }
    if j == 0 {
        return None;
    }
    let mut i: usize = j;
    while i > 0 && !is_white_space(s.get_char(i - 1))
        invariant
            i <= j <= n == s@.len(),
            forall|k: int| i <= k < j ==> !white_space(#[trigger] s@[k]),
        decreases i,
    {
        i = i - 1;
    }
    let w = s.substring_char(i, j);
    proof {
        let p = s@.subrange(0, j as int);
        lemma_trailing_run_suffix(p, i as int);
        assert(p.subrange(i as int, j as int) =~= s@.subrange(i as int, j as int));
    }
    Some(w.to_string())
}

/// Whether the `needle.len()` characters of `hay` from `at` on are `needle`.
fn matches_at(hay: &str, needle: &str, at: usize) -> (r: bool)
    requires
        at + needle@.len() <= hay@.len(),
    ensures
        r == (hay@.subrange(at as int, at + needle@.len()) == needle@),
{
    let h = hay.unicode_len();
    let n = needle.unicode_len();
    let mut k: usize = 0;
    while k < n
        invariant
            k <= n == needle@.len(),
            h == hay@.len(),
            at + n <= h,
            forall|m: int| 0 <= m < k ==> hay@[at + m] == needle@[m],
        decreases n - k,
    {
        if hay.get_char(at + k) != needle.get_char(k) {
            assert(hay@.subrange(at as int, at + n)[k as int] != needle@[k as int]);
            return false;
        }
        k = k + 1;
    }
    assert(hay@.subrange(at as int, at + n) =~= needle@);
    true
}

/// Whether `a` and `b` hold the same characters.
pub fn same_text(a: &str, b: &str) -> (r: bool)
    ensures
        r == (a@ == b@),
{
    if a.unicode_len() != b.unicode_len() {
        return false;
    }
    let r = matches_at(a, b, 0);
    assert(a@.subrange(0, b@.len() as int) =~= a@);
    r
}

/// Whether `needle` occurs in `hay`, as `str::contains` decides it.
pub fn contains_str(hay: &str, needle: &str) -> (r: bool)
    ensures
        r == is_substring(needle@, hay@),
{
    let h = hay.unicode_len();
    let n = needle.unicode_len();
    if n > h {
        return false;
    }
    let mut at: usize = 0;
    while at <= h - n
        invariant
            n <= h,
            h == hay@.len(),
            n == needle@.len(),
            forall|i: int|
                0 <= i < at ==> #[trigger] hay@.subrange(i, i + n) != needle@,
        decreases h - n + 1 - at,
    {
        if matches_at(hay, needle, at) {
            return true;
        }
        if at == h - n {
            return false;
        }
        at = at + 1;
    }
    false
}

} // verus!
