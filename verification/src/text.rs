//! Character-level string predicates: equality and substring search.
//!
//! Window titles and application ids are matched as sequences of characters,
//! so both predicates are stated over `Seq<char>` views.

use vstd::prelude::*;

verus! {

/// `needle` occurs in `hay` as a contiguous run of characters.
pub open spec fn is_substring_of(needle: Seq<char>, hay: Seq<char>) -> bool {
    exists|k: int|
        0 <= k && k + needle.len() <= hay.len() && #[trigger] hay.subrange(
            k,
            k + needle.len(),
        ) == needle
}

/// Character-for-character equality of two string slices.
pub fn str_eq(a: &str, b: &str) -> (r: bool)
    ensures
        r == (a@ == b@),
{
    let sa: String = a.to_owned();
    let sb: String = b.to_owned();
    sa == sb
}

/// `needle` occurs in `hay` starting at character position `k`.
fn matches_at(hay: &str, needle: &str, k: usize, nlen: usize) -> (r: bool)
    requires
        nlen == needle@.len(),
        k + nlen <= hay@.len() <= usize::MAX,
    ensures
        r == (hay@.subrange(k as int, k as int + nlen as int) == needle@),
{
    let mut j: usize = 0;
    while j < nlen
        invariant
            nlen == needle@.len(),
            k + nlen <= hay@.len() <= usize::MAX,
            j <= nlen,
            forall|t: int| 0 <= t < j ==> hay@[k + t] == needle@[t],
        decreases nlen - j,
    {
        let ch = hay.get_char(k + j);
        let cn = needle.get_char(j);
        if ch != cn {
            assert(hay@.subrange(k as int, k as int + nlen as int)[j as int] == hay@[k + j]);
            return false;
        }
        j += 1;
    }
    proof {
        assert(hay@.subrange(k as int, k as int + nlen as int) =~= needle@);
    }
    true
}

/// Substring search: does `hay` contain `needle` anywhere?
pub fn contains_substr(hay: &str, needle: &str) -> (r: bool)
    ensures
        r == is_substring_of(needle@, hay@),
{
    let hlen = hay.unicode_len();
    let nlen = needle.unicode_len();
    if nlen == 0 {
        proof {
            assert(hay@.subrange(0, 0 + needle@.len() as int) =~= needle@);
        }
        return true;
    }
    if nlen > hlen {
        return false;
    }
    let mut k: usize = 0;
    while k <= hlen - nlen
        invariant
            nlen == needle@.len(),
            hlen == hay@.len(),
            0 < nlen <= hlen,
            k <= hlen - nlen + 1,
            forall|t: int| 0 <= t < k ==> #[trigger] hay@.subrange(t, t + needle@.len()) != needle@,
        decreases hlen - nlen + 1 - k,
    {
        if matches_at(hay, needle, k, nlen) {
            return true;
        }
        k += 1;
    }
    false
}

} // verus!
