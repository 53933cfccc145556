//! Verified character-level string utilities.
//!
//! Template and route analysis is almost entirely text scanning; these
//! helpers give every scan an exact specification over `Seq<char>` views.

use vstd::prelude::*;
use vstd::string::StrSliceExecFns;
use vstd::string::StringExecFns;

verus! {

/// `pat` occurs in `s` starting at character position `i`.
pub open spec fn spec_occurs_at(s: Seq<char>, pat: Seq<char>, i: int) -> bool {
    0 <= i && i + pat.len() <= s.len() && s.subrange(i, i + pat.len()) == pat
}

/// `pat` occurs somewhere in `s`.
pub open spec fn spec_contains(s: Seq<char>, pat: Seq<char>) -> bool {
    exists|i: int| spec_occurs_at(s, pat, i)
}

/// `s` starts with `pat`.
pub open spec fn spec_starts_with(s: Seq<char>, pat: Seq<char>) -> bool {
    spec_occurs_at(s, pat, 0)
}

/// The first position at or after `i` where `pat` occurs in `s`, if any.
pub open spec fn spec_find_from(s: Seq<char>, pat: Seq<char>, i: int) -> Option<int>
    decreases s.len() - i + pat.len() + 1,
{
    if i + pat.len() > s.len() || s.len() - i + pat.len() < 0 {
        None
    } else if spec_occurs_at(s, pat, i) {
        Some(i)
    } else {
        spec_find_from(s, pat, i + 1)
    }
}

/// The first position where `pat` occurs in `s`, if any.
pub open spec fn spec_find(s: Seq<char>, pat: Seq<char>) -> Option<int> {
    spec_find_from(s, pat, 0)
}

/// `spec_find_from` returns the least occurrence at or after `i`.
pub proof fn lemma_find_from_props(s: Seq<char>, pat: Seq<char>, i: int)
    ensures
        spec_find_from(s, pat, i) is None ==> forall|j: int|
            j >= i ==> !spec_occurs_at(s, pat, j),
        spec_find_from(s, pat, i) matches Some(k) ==> i <= k && spec_occurs_at(s, pat, k) && forall|
            j: int,
        |
            i <= j < k ==> !spec_occurs_at(s, pat, j),
    decreases s.len() - i + pat.len() + 1,
{
    if i + pat.len() > s.len() || s.len() - i + pat.len() < 0 {
    } else if spec_occurs_at(s, pat, i) {
    } else {
        lemma_find_from_props(s, pat, i + 1);
    }
}

/// Whether `pat` occurs in `s` at character position `i`.
pub fn occurs_at_exec(s: &str, pat: &str, i: usize) -> (r: bool)
    requires
        i + pat@.len() <= s@.len(),
    ensures
        r == spec_occurs_at(s@, pat@, i as int),
{
    let n = s.unicode_len();
    let m = pat.unicode_len();
    let mut j: usize = 0;
    while j < m
        invariant
            n == s@.len(),
            m == pat@.len(),
            i + m <= s@.len(),
            0 <= j <= m,
            forall|k: int| 0 <= k < j ==> s@[i + k] == pat@[k],
        decreases m - j,
    {
        if s.get_char(i + j) != pat.get_char(j) {
            proof {
                if spec_occurs_at(s@, pat@, i as int) {
                    assert(s@.subrange(i as int, i as int + pat@.len() as int)[j as int]
                        == pat@[j as int]);
                }
            }
            return false;
        }
        j = j + 1;
    }
    proof {
        assert(s@.subrange(i as int, i as int + pat@.len() as int) =~= pat@);
    }
    true
}

/// The first character position where `pat` occurs in `s`.
pub fn find_str(s: &str, pat: &str) -> (r: Option<usize>)
    ensures
        r is Some <==> spec_find(s@, pat@) is Some,
        r matches Some(i) ==> spec_find(s@, pat@) == Some(i as int),
{
    let n = s.unicode_len();
    let m = pat.unicode_len();
    if m > n {
        return None;
    }
    if m == 0 {
        proof {
            assert(s@.subrange(0, 0) =~= pat@);
        }
        return Some(0);
    }
    let mut i: usize = 0;
    loop
        invariant
            n == s@.len(),
            m == pat@.len(),
            0 < m <= n,
            0 <= i <= n - m + 1,
            spec_find(s@, pat@) == spec_find_from(s@, pat@, i as int),
        decreases n - i,
    {
        if i > n - m {
            return None;
        }
        if occurs_at_exec(s, pat, i) {
            return Some(i);
        }
        i = i + 1;
    }
}

/// Whether `pat` occurs anywhere in `s`.
pub fn contains_str(s: &str, pat: &str) -> (r: bool)
    ensures
        r == spec_contains(s@, pat@),
{
    let found = find_str(s, pat);
    proof {
        lemma_find_from_props(s@, pat@, 0);
        if spec_contains(s@, pat@) {
            let w = choose|i: int| spec_occurs_at(s@, pat@, i);
            assert(w >= 0);
        }
    }
    found.is_some()
}

/// Whether `s` starts with `pat`.
pub fn starts_with_str(s: &str, pat: &str) -> (r: bool)
    ensures
        r == spec_starts_with(s@, pat@),
{
    let n = s.unicode_len();
    let m = pat.unicode_len();
    if m > n {
        return false;
    }
    occurs_at_exec(s, pat, 0)
}

/// Whether the last character of `s` is `c`.
pub fn ends_with_char(s: &str, c: char) -> (r: bool)
    ensures
        r == (s@.len() > 0 && s@.last() == c),
{
    let n = s.unicode_len();
    if n == 0 {
        return false;
    }
    s.get_char(n - 1) == c
}

/// Character-wise string equality.
pub fn str_eq(a: &str, b: &str) -> (r: bool)
    ensures
        r == (a@ == b@),
{
    let n = a.unicode_len();
    if n != b.unicode_len() {
        return false;
    }
    let mut i: usize = 0;
    while i < n
        invariant
            n == a@.len(),
            n == b@.len(),
            0 <= i <= n,
            forall|k: int| 0 <= k < i ==> a@[k] == b@[k],
        decreases n - i,
    {
        if a.get_char(i) != b.get_char(i) {
            return false;
        }
        i = i + 1;
    }
    proof {
        assert(a@ =~= b@);
    }
    true
}

/// What is left of `s` after the first occurrence of `pat`, paired with
/// what stood before it; `None` when `pat` does not occur.
pub fn split_once_str(s: &str, pat: &str) -> (r: Option<(String, String)>)
    ensures
        r is Some <==> spec_find(s@, pat@) is Some,
        r matches Some(p) ==> spec_find(s@, pat@) matches Some(k) && p.0@ == s@.take(k) && p.1@
            == s@.skip(k + pat@.len()),
{
    let n = s.unicode_len();
    let m = pat.unicode_len();
    match find_str(s, pat) {
        None => None,
        Some(k) => {
            proof {
                lemma_find_from_props(s@, pat@, 0);
            }
            let before = s.substring_char(0, k).to_owned();
            let after = s.substring_char(k + m, n).to_owned();
            proof {
                assert(s@.subrange(0, k as int) =~= s@.take(k as int));
                assert(s@.subrange(k + m, n as int) =~= s@.skip(k as int + m as int));
            }
            Some((before, after))
        },
    }
}

/// Appending one suffix to two different sequences keeps them different.
pub proof fn lemma_append_right_injective(a: Seq<char>, b: Seq<char>, c: Seq<char>)
    requires
        a + c == b + c,
    ensures
        a == b,
{
    assert((a + c).len() == a.len() + c.len());
    assert((b + c).len() == b.len() + c.len());
    assert forall|i: int| 0 <= i < a.len() implies a[i] == b[i] by {
        assert((a + c)[i] == a[i]);
        assert((b + c)[i] == b[i]);
    }
    assert(a =~= b);
}

/// Whitespace for trimming purposes.
pub open spec fn spec_is_space(c: char) -> bool {
    c == ' ' || c == '\t' || c == '\r' || c == '\n'
}

/// `s` without leading whitespace.
pub open spec fn spec_trim_start(s: Seq<char>) -> Seq<char>
    decreases s.len(),
{
    if s.len() > 0 && spec_is_space(s[0]) {
        spec_trim_start(s.drop_first())
    } else {
        s
    }
}

/// `s` without trailing whitespace.
pub open spec fn spec_trim_end(s: Seq<char>) -> Seq<char>
    decreases s.len(),
{
    if s.len() > 0 && spec_is_space(s.last()) {
        spec_trim_end(s.drop_last())
    } else {
        s
    }
}

/// `s` without leading and trailing whitespace.
pub open spec fn spec_trim(s: Seq<char>) -> Seq<char> {
    spec_trim_end(spec_trim_start(s))
}

proof fn lemma_trim_start_head(s: Seq<char>)
    ensures
        spec_trim_start(s).len() == 0 || !spec_is_space(spec_trim_start(s)[0]),
    decreases s.len(),
{
    if s.len() > 0 && spec_is_space(s[0]) {
        lemma_trim_start_head(s.drop_first());
    }
}

proof fn lemma_trim_end_prefix(s: Seq<char>)
    ensures
        spec_trim_end(s).len() <= s.len(),
        spec_trim_end(s) == s.take(spec_trim_end(s).len() as int),
    decreases s.len(),
{
    if s.len() > 0 && spec_is_space(s.last()) {
        lemma_trim_end_prefix(s.drop_last());
        assert(s.drop_last().take(spec_trim_end(s).len() as int) =~= s.take(
            spec_trim_end(s).len() as int,
        ));
    } else {
        assert(s.take(s.len() as int) =~= s);
    }
}

proof fn lemma_trim_end_last(s: Seq<char>)
    ensures
        spec_trim_end(s).len() == 0 || !spec_is_space(spec_trim_end(s).last()),
    decreases s.len(),
{
    if s.len() > 0 && spec_is_space(s.last()) {
        lemma_trim_end_last(s.drop_last());
    }
}

/// Trimming an already trimmed sequence changes nothing.
pub proof fn lemma_trim_idempotent(s: Seq<char>)
    ensures
        spec_trim(spec_trim(s)) == spec_trim(s),
{
    let a = spec_trim_start(s);
    let b = spec_trim_end(a);
    lemma_trim_start_head(s);
    lemma_trim_end_prefix(a);
    lemma_trim_end_last(a);
    if b.len() > 0 {
        assert(b[0] == a[0]);
    }
    assert(spec_trim_start(b) == b);
    assert(spec_trim_end(b) == b);
}

fn is_space(c: char) -> (r: bool)
    ensures
        r == spec_is_space(c),
{
    c == ' ' || c == '\t' || c == '\r' || c == '\n'
}

/// `s` with leading and trailing whitespace removed.
pub fn trim(s: &str) -> (r: String)
    ensures
        r@ == spec_trim(s@),
{
    let n = s.unicode_len();
    let mut i: usize = 0;
    proof {
        assert(s@.skip(0) =~= s@);
    }
    while i < n && is_space(s.get_char(i))
        invariant
            n == s@.len(),
            0 <= i <= n,
            spec_trim_start(s@) == spec_trim_start(s@.skip(i as int)),
        decreases n - i,
    {
        proof {
            assert(s@.skip(i as int).drop_first() =~= s@.skip(i as int + 1));
        }
        i = i + 1;
    }
    proof {
        assert(s@.skip(0) =~= s@);
        if i < n {
            assert(spec_trim_start(s@.skip(i as int)) == s@.skip(i as int));
        } else {
            assert(s@.skip(n as int) =~= Seq::<char>::empty());
        }
    }
    // now spec_trim_start(s@) == s@.skip(i)
    let mut j: usize = n;
    while j > i && is_space(s.get_char(j - 1))
        invariant
            n == s@.len(),
            0 <= i <= j <= n,
            spec_trim_start(s@) == s@.skip(i as int),
            spec_trim_end(s@.skip(i as int)) == spec_trim_end(s@.subrange(i as int, j as int)),
        decreases j,
    {
        proof {
            assert(s@.subrange(i as int, j as int).last() == s@[j - 1]);
            assert(s@.subrange(i as int, j as int).drop_last() =~= s@.subrange(
                i as int,
                j as int - 1,
            ));
        }
        j = j - 1;
    }
    proof {
        assert(s@.subrange(i as int, n as int) =~= s@.skip(i as int));
        if j > i {
            assert(!spec_is_space(s@.subrange(i as int, j as int).last()));
            assert(spec_trim_end(s@.subrange(i as int, j as int)) == s@.subrange(
                i as int,
                j as int,
            ));
        } else {
            assert(s@.subrange(i as int, i as int) =~= Seq::<char>::empty());
        }
    }
    let out = s.substring_char(i, j).to_owned();
    out
}

/// `s` with every occurrence of `c` removed.
pub open spec fn spec_remove_char(s: Seq<char>, c: char) -> Seq<char>
    decreases s.len(),
{
    if s.len() == 0 {
        Seq::<char>::empty()
    } else if s[0] == c {
        spec_remove_char(s.drop_first(), c)
    } else {
        seq![s[0]] + spec_remove_char(s.drop_first(), c)
    }
}

/// `s` with every occurrence of `c` removed.
pub fn remove_char(s: &str, c: char) -> (r: String)
    ensures
        r@ == spec_remove_char(s@, c),
{
    let n = s.unicode_len();
    let mut out = String::new();
    let mut i: usize = 0;
    proof {
        assert(s@.skip(0) =~= s@);
    }
    while i < n
        invariant
            n == s@.len(),
            0 <= i <= n,
            spec_remove_char(s@, c) == out@ + spec_remove_char(s@.skip(i as int), c),
        decreases n - i,
    {
        let ch = s.get_char(i);
        proof {
            assert(s@.skip(i as int).drop_first() =~= s@.skip(i as int + 1));
            assert(s@.skip(i as int)[0] == ch);
        }
        if ch != c {
            let piece = s.substring_char(i, i + 1);
            proof {
                assert(piece@ =~= seq![ch]);
            }
            out.append(piece);
        }
        i = i + 1;
    }
    proof {
        assert(s@.skip(n as int) =~= Seq::<char>::empty());
        assert(out@ + Seq::<char>::empty() =~= out@);
    }
    out
}

/// `s` with every repetition of the prefix `pat` removed; an empty `pat`
/// removes nothing.
pub open spec fn spec_trim_start_matches(s: Seq<char>, pat: Seq<char>) -> Seq<char>
    decreases s.len(),
{
    if pat.len() > 0 && spec_starts_with(s, pat) {
        spec_trim_start_matches(s.skip(pat.len() as int), pat)
    } else {
        s
    }
}

/// `s` with every repetition of the prefix `pat` removed.
pub fn trim_start_matches_str(s: &str, pat: &str) -> (r: String)
    ensures
        r@ == spec_trim_start_matches(s@, pat@),
{
    let n = s.unicode_len();
    let m = pat.unicode_len();
    let mut i: usize = 0;
    proof {
        assert(s@.skip(0) =~= s@);
    }
    if m == 0 {
        return s.to_owned();
    }
    loop
        invariant
            n == s@.len(),
            m == pat@.len(),
            m > 0,
            0 <= i <= n,
            spec_trim_start_matches(s@, pat@) == spec_trim_start_matches(s@.skip(i as int), pat@),
        decreases n - i,
    {
        let more = if m <= n && i <= n - m {
            let rest_starts = occurs_at_exec(s, pat, i);
            proof {
                if rest_starts {
                    assert(s@.skip(i as int).subrange(0, m as int) =~= s@.subrange(
                        i as int,
                        i as int + m as int,
                    ));
                } else {
                    if spec_starts_with(s@.skip(i as int), pat@) {
                        assert(s@.subrange(i as int, i as int + m as int) =~= s@.skip(
                            i as int,
                        ).subrange(0, m as int));
                    }
                }
            }
            rest_starts
        } else {
            proof {
                assert(!spec_starts_with(s@.skip(i as int), pat@));
            }
            false
        };
        if !more {
            proof {
                assert(spec_trim_start_matches(s@.skip(i as int), pat@) == s@.skip(i as int));
                assert(s@.subrange(i as int, n as int) =~= s@.skip(i as int));
            }
            return s.substring_char(i, n).to_owned();
        }
        proof {
            assert(s@.skip(i as int).skip(m as int) =~= s@.skip(i as int + m as int));
        }
        i = i + m;
    }
}

/// A character the keyword-completion window drops from its front: a blank
/// or a lower-case letter already typed before the marker.
pub open spec fn spec_is_lower_or_space(c: char) -> bool {
    c == ' ' || ('a' <= c && c <= 'z')
}

/// `s` without its leading blanks and lower-case letters.
pub open spec fn spec_trim_start_lower_or_space(s: Seq<char>) -> Seq<char>
    decreases s.len(),
{
    if s.len() > 0 && spec_is_lower_or_space(s[0]) {
        spec_trim_start_lower_or_space(s.drop_first())
    } else {
        s
    }
}

fn is_lower_or_space(c: char) -> (r: bool)
    ensures
        r == spec_is_lower_or_space(c),
{
    c == ' ' || ('a' <= c && c <= 'z')
}

/// `s` without its leading blanks and lower-case letters.
pub fn trim_start_lower_or_space(s: &str) -> (r: String)
    ensures
        r@ == spec_trim_start_lower_or_space(s@),
{
    let n = s.unicode_len();
    let mut i: usize = 0;
    proof {
        assert(s@.skip(0) =~= s@);
    }
    while i < n && is_lower_or_space(s.get_char(i))
        invariant
            n == s@.len(),
            0 <= i <= n,
            spec_trim_start_lower_or_space(s@) == spec_trim_start_lower_or_space(
                s@.skip(i as int),
            ),
        decreases n - i,
    {
        proof {
            assert(s@.skip(i as int).drop_first() =~= s@.skip(i as int + 1));
        }
        i = i + 1;
    }
    proof {
        if i < n {
            assert(spec_trim_start_lower_or_space(s@.skip(i as int)) == s@.skip(i as int));
        } else {
            assert(s@.skip(n as int) =~= Seq::<char>::empty());
        }
        assert(s@.subrange(i as int, n as int) =~= s@.skip(i as int));
    }
    s.substring_char(i, n).to_owned()
}

} // verus!
