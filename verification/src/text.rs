//! Verified text predicates: substring occurrence and character-wise
//! equality, used by the title filters.

use vstd::prelude::*;
use vstd::string::StrSliceExecFns;

verus! {

/// The pattern `pat` occurs in `hay` starting at character position `k`.
pub open spec fn match_at(hay: Seq<char>, pat: Seq<char>, k: int) -> bool {
    &&& 0 <= k
    &&& k + pat.len() <= hay.len()
    &&& hay.subrange(k, k + pat.len() as int) == pat
}

/// The pattern `pat` occurs somewhere in `hay`.
pub open spec fn contains_substr(hay: Seq<char>, pat: Seq<char>) -> bool {
    exists|k: int| match_at(hay, pat, k)
}

/// Whether `pat` occurs in `hay` at exactly position `k`.
fn matches_at(hay: &str, pat: &str, k: usize, hay_len: usize, pat_len: usize) -> (r: bool)
    requires
        hay_len == hay@.len(),
        pat_len == pat@.len(),
        k + pat_len <= hay_len,
    ensures
        r == match_at(hay@, pat@, k as int),
{
    let mut i: usize = 0;
    while i < pat_len
        invariant
            i <= pat_len,
            hay_len == hay@.len(),
            pat_len == pat@.len(),
            k + pat_len <= hay_len,
            forall|j: int| 0 <= j < i ==> hay@[k + j] == pat@[j],
        decreases pat_len - i,
    {
        if hay.get_char(k + i) != pat.get_char(i) {
            proof {
                assert(hay@.subrange(k as int, k + pat@.len() as int)[i as int] == hay@[k + i]);
            }
            return false;
        }
        i = i + 1;
    }
    proof {
        assert(hay@.subrange(k as int, k + pat@.len() as int) =~= pat@);
    }
    true
}

/// Whether `pat` occurs anywhere in `hay`, by character-wise search.
pub fn str_contains(hay: &str, pat: &str) -> (r: bool)
    ensures
        r == contains_substr(hay@, pat@),
{
    let hay_len = hay.unicode_len();
    let pat_len = pat.unicode_len();
    if pat_len > hay_len {
        return false;
    }
    if pat_len == 0 {
        proof {
            assert(match_at(hay@, pat@, 0)) by {
                assert(hay@.subrange(0, 0) =~= pat@);
            }
        }
        return true;
    }
    let mut k: usize = 0;
    while k <= hay_len - pat_len
        invariant
            hay_len == hay@.len(),
            pat_len == pat@.len(),
            1 <= pat_len <= hay_len,
            k <= hay_len - pat_len + 1,
            forall|j: int| 0 <= j < k ==> !match_at(hay@, pat@, j),
        decreases hay_len - pat_len + 1 - k,
    {
        if matches_at(hay, pat, k, hay_len, pat_len) {
            return true;
        }
        k = k + 1;
    }
    false
}

/// Whether the two strings hold the same characters.
pub fn str_eq(a: &str, b: &str) -> (r: bool)
    ensures
        r == (a@ == b@),
{
    let a_len = a.unicode_len();
    let b_len = b.unicode_len();
    if a_len != b_len {
        return false;
    }
    let mut i: usize = 0;
    while i < a_len
        invariant
            a_len == a@.len(),
            a_len == b@.len(),
            i <= a_len,
            forall|j: int| 0 <= j < i ==> a@[j] == b@[j],
        decreases a_len - i,
    {
        if a.get_char(i) != b.get_char(i) {
            return false;
        }
        i = i + 1;
    }
    proof {
        assert(a@ =~= b@);
    }
    true
}

} // verus!
