//! Small verified string utilities: equality, substring search, splitting on
//! a character.  Everything here is proved against the character sequences of
//! its inputs.

use vstd::prelude::*;
use vstd::string::StrSliceExecFns;

verus! {

/// Character-for-character equality of two string slices.
pub fn str_eq(a: &str, b: &str) -> (r: bool)
    ensures
        r == (a@ == b@),
{
    let an = a.unicode_len();
    let bn = b.unicode_len();
    if an != bn {
        assert(a@ != b@);
        return false;
    }
    let mut i: usize = 0;
    while i < an
        invariant
            an == a@.len(),
            an == b@.len(),
            i <= an,
            forall|j: int| 0 <= j < i ==> a@[j] == b@[j],
        decreases an - i,
    {
        if a.get_char(i) != b.get_char(i) {
            return false;
        }
        i = i + 1;
    }
    proof {
        assert(a@ =~= b@);
    }
    true
}

/// The pattern occurs in `s` starting at position `i`.
pub open spec fn matches_at(s: Seq<char>, pat: Seq<char>, i: int) -> bool {
    0 <= i && i + pat.len() <= s.len() && s.subrange(i, i + pat.len()) == pat
}

/// The pattern occurs somewhere in `s`.
pub open spec fn has_substring(s: Seq<char>, pat: Seq<char>) -> bool {
    exists|i: int| matches_at(s, pat, i)
}

/// Substring search: whether `pat` occurs anywhere in `s`.
pub fn contains_sub(s: &str, pat: &str) -> (r: bool)
    ensures
        r == has_substring(s@, pat@),
{
    let sn = s.unicode_len();
    let pn = pat.unicode_len();
    if pn > sn {
        proof {
            assert forall|i: int| !matches_at(s@, pat@, i) by {}
        }
        return false;
    }
    if pn == 0 {
        proof {
            assert(s@.subrange(0, 0) =~= pat@);
            assert(matches_at(s@, pat@, 0));
        }
        return true;
    }
    let mut i: usize = 0;
    while i <= sn - pn
        invariant
            sn == s@.len(),
            pn == pat@.len(),
            0 < pn <= sn,
            i <= sn - pn + 1,
            forall|k: int| 0 <= k < i ==> !matches_at(s@, pat@, k),
        decreases sn - pn + 1 - i,
    {
        let mut j: usize = 0;
        let mut hit = true;
        while j < pn && hit
            invariant
                sn == s@.len(),
                pn == pat@.len(),
                i + pn <= sn,
                j <= pn,
                hit ==> forall|k: int| 0 <= k < j ==> s@[i + k] == pat@[k],
                !hit ==> !matches_at(s@, pat@, i as int),
            decreases pn - j + (if hit { 1int } else { 0int }),
        {
            if s.get_char(i + j) != pat.get_char(j) {
                proof {
                    assert(s@.subrange(i as int, i + pn) != pat@) by {
                        assert(s@.subrange(i as int, i + pn)[j as int] != pat@[j as int]);
                    }
                }
                hit = false;
            } else {
                j = j + 1;
            }
        }
        if hit {
            proof {
                assert(s@.subrange(i as int, i + pn) =~= pat@);
                assert(matches_at(s@, pat@, i as int));
            }
            return true;
        }
        proof {
            assert(!matches_at(s@, pat@, i as int));
        }
        i = i + 1;
    }
    proof {
        assert forall|k: int| !matches_at(s@, pat@, k) by {
            if 0 <= k <= sn - pn {
                assert(!matches_at(s@, pat@, k));
            }
        }
    }
    false
}

} // verus!
