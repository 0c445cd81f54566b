//! Character-level string operations used across the pipeline: substring
//! containment (the exclusion test), suffix tests (format allow-lists and
//! installer dispatch), and searching for a separator from the right.

use vstd::prelude::*;
use vstd::string::StrSliceExecFns;

verus! {

/// The needle occurs in the haystack starting at position `k`.
pub open spec fn seq_matches_at(hay: Seq<char>, needle: Seq<char>, k: int) -> bool {
    0 <= k && k + needle.len() <= hay.len() && hay.subrange(k, k + needle.len()) == needle
}

/// The needle occurs somewhere in the haystack.
pub open spec fn seq_contains(hay: Seq<char>, needle: Seq<char>) -> bool {
    exists|k: int| seq_matches_at(hay, needle, k)
}

/// The string ends with the given suffix.
pub open spec fn seq_ends_with(s: Seq<char>, suffix: Seq<char>) -> bool {
    s.len() >= suffix.len() && s.subrange(s.len() - suffix.len(), s.len() as int) == suffix
}

/// Compare two string slices character by character.
pub fn str_eq(a: &str, b: &str) -> (r: bool)
    ensures
        r == (a@ == b@),
{
    let la: usize = a.unicode_len();
    let lb: usize = b.unicode_len();
    if la != lb {
        return false;
    }
    let mut i: usize = 0;
    while i < la
        invariant
            la == a@.len(),
            la == b@.len(),
            i <= la,
            forall|j: int| 0 <= j < i ==> a@[j] == b@[j],
        decreases la - i,
    {
        if a.get_char(i) != b.get_char(i) {
            return false;
        }
        i = i + 1;
    }
    assert(a@ =~= b@);
    true
}

/// Does the needle occur in the haystack starting at position `k`?
fn matches_at(hay: &str, needle: &str, k: usize) -> (r: bool)
    requires
        k + needle@.len() <= hay@.len(),
        hay@.len() <= usize::MAX,
    ensures
        r == seq_matches_at(hay@, needle@, k as int),
{
    let nl: usize = needle.unicode_len();
    let mut j: usize = 0;
    while j < nl
        invariant
            nl == needle@.len(),
            k + nl <= hay@.len() <= usize::MAX,
            j <= nl,
            forall|t: int| 0 <= t < j ==> hay@[k + t] == needle@[t],
        decreases nl - j,
    {
        if hay.get_char(k + j) != needle.get_char(j) {
            assert(!seq_matches_at(hay@, needle@, k as int)) by {
                assert(hay@[k + j] != needle@[j as int]);
            }
            return false;
        }
        j = j + 1;
    }
    assert(hay@.subrange(k as int, k + nl) =~= needle@);
    true
}

/// Substring containment: the exclusion test of the pipeline.
pub fn str_contains(hay: &str, needle: &str) -> (r: bool)
    ensures
        r == seq_contains(hay@, needle@),
{
    let hl: usize = hay.unicode_len();
    let nl: usize = needle.unicode_len();
    if nl > hl {
        assert(forall|k: int| !seq_matches_at(hay@, needle@, k));
        return false;
    }
    if nl == 0 {
        assert(hay@.subrange(0, 0) =~= needle@);
        assert(seq_matches_at(hay@, needle@, 0));
        return true;
    }
    let last: usize = hl - nl;
    let mut k: usize = 0;
    while k <= last
        invariant
            hl == hay@.len(),
            nl == needle@.len(),
            last == hl - nl,
            0 < nl <= hl <= usize::MAX,
            k <= last + 1,
            forall|t: int| 0 <= t < k ==> !seq_matches_at(hay@, needle@, t),
        decreases last + 1 - k,
    {
        if matches_at(hay, needle, k) {
            assert(seq_contains(hay@, needle@));
            return true;
        }
        k = k + 1;
    }
    assert(forall|t: int| t > last ==> !seq_matches_at(hay@, needle@, t));
    false
}

/// Suffix test.
pub fn str_ends_with(s: &str, suffix: &str) -> (r: bool)
    ensures
        r == seq_ends_with(s@, suffix@),
{
    let sl: usize = s.unicode_len();
    let nl: usize = suffix.unicode_len();
    if nl > sl {
        return false;
    }
    let r = matches_at(s, suffix, sl - nl);
    assert(seq_matches_at(s@, suffix@, sl - nl as int) == seq_ends_with(s@, suffix@));
    r
}

/// Position of the last occurrence of `c` in `s`, if any, as a recursive
/// definition.
pub open spec fn spec_last_index(s: Seq<char>, c: char) -> Option<int>
    decreases s.len(),
{
    if s.len() == 0 {
        None
    } else if s.last() == c {
        Some(s.len() - 1)
    } else {
        spec_last_index(s.drop_last(), c)
    }
}

/// A position bearing `c` with nothing but other characters after it is
/// the last occurrence.
pub proof fn lemma_last_index_at(s: Seq<char>, c: char, i: int)
    requires
        0 <= i < s.len(),
        s[i] == c,
        forall|j: int| i < j < s.len() ==> s[j] != c,
    ensures
        spec_last_index(s, c) == Some(i),
    decreases s.len(),
{
    if i < s.len() - 1 {
        assert(s.last() != c);
        lemma_last_index_at(s.drop_last(), c, i);
    }
}

/// Where no position bears `c`, there is no last occurrence.
pub proof fn lemma_last_index_none(s: Seq<char>, c: char)
    requires
        forall|j: int| 0 <= j < s.len() ==> s[j] != c,
    ensures
        spec_last_index(s, c) is None,
    decreases s.len(),
{
    if s.len() > 0 {
        lemma_last_index_none(s.drop_last(), c);
    }
}

/// Position of the last occurrence of `c` in `s`, if any.
pub fn last_index_of(s: &str, c: char) -> (r: Option<usize>)
    ensures
        match r {
            Some(i) => i < s@.len() && s@[i as int] == c && forall|j: int|
                i < j < s@.len() ==> s@[j] != c,
            None => forall|j: int| 0 <= j < s@.len() ==> s@[j] != c,
        },
{
    let len: usize = s.unicode_len();
    let mut k: usize = len;
    while k > 0
        invariant
            len == s@.len(),
            k <= len,
            forall|j: int| k <= j < len ==> s@[j] != c,
        decreases k,
    {
        k = k - 1;
        if s.get_char(k) == c {
            return Some(k);
        }
    }
    None
}

} // verus!
