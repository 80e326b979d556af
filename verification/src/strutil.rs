//! Verified character-level string utilities: equality, prefix and substring
//! tests over the character views of `&str`.

use vstd::prelude::*;
use vstd::string::StrSliceExecFns;

verus! {

/// Character-by-character string equality.
pub fn str_eq(a: &str, b: &str) -> (r: bool)
    ensures
        r == (a@ == b@),
{
    let la = a.unicode_len();
    let lb = b.unicode_len();
    if la != lb {
        return false;
    }
    let mut i: usize = 0;
    while i < la
        invariant
            i <= la,
            la == a@.len(),
            la == b@.len(),
            forall|k: int| 0 <= k < i ==> a@[k] == b@[k],
        decreases la - i,
    {
        if a.get_char(i) != b.get_char(i) {
            return false;
        }
        i = i + 1;
    }
    proof {
        assert(a@ =~= b@);
    }
    true
}

/// Whether `p` occurs in `s` starting at position `at`.
pub open spec fn matches_at(s: Seq<char>, p: Seq<char>, at: int) -> bool {
    &&& 0 <= at
    &&& at + p.len() <= s.len()
    &&& forall|k: int| 0 <= k < p.len() ==> s[at + k] == p[k]
}

/// Whether `p` is a prefix of `s`.
pub fn str_starts_with(s: &str, p: &str) -> (r: bool)
    ensures
        r == matches_at(s@, p@, 0),
{
    let ls = s.unicode_len();
    let lp = p.unicode_len();
    if lp > ls {
        return false;
    }
    let mut i: usize = 0;
    while i < lp
        invariant
            i <= lp,
            lp == p@.len(),
            ls == s@.len(),
            lp <= ls,
            forall|k: int| 0 <= k < i ==> s@[k] == p@[k],
        decreases lp - i,
    {
        if s.get_char(i) != p.get_char(i) {
            return false;
        }
        i = i + 1;
    }
    true
}

/// Whether `p` occurs anywhere in `s`.
pub fn str_contains(s: &str, p: &str) -> (r: bool)
    ensures
        r == exists|at: int| matches_at(s@, p@, at),
{
    let ls = s.unicode_len();
    let lp = p.unicode_len();
    if lp > ls {
        return false;
    }
    let last = ls - lp;
    let mut at: usize = 0;
    while at <= last
        invariant
            at <= last + 1,
            last == ls - lp,
            lp == p@.len(),
            ls == s@.len(),
            lp <= ls,
            forall|a: int| 0 <= a < at ==> !matches_at(s@, p@, a),
        decreases last - at + 1,
    {
        let mut k: usize = 0;
        let mut hit = true;
        while k < lp
            invariant
                k <= lp,
                at <= last,
                last == ls - lp,
                lp == p@.len(),
                ls == s@.len(),
                hit ==> forall|t: int| 0 <= t < k ==> s@[at + t] == p@[t],
                !hit ==> !matches_at(s@, p@, at as int),
            decreases lp - k,
        {
            if s.get_char(at + k) != p.get_char(k) {
                hit = false;
                k = lp;
            } else {
                k = k + 1;
            }
        }
        if hit {
            assert(matches_at(s@, p@, at as int));
            return true;
        }
        at = at + 1;
    }
    proof {
        assert forall|a: int| !matches_at(s@, p@, a) by {
            if 0 <= a && a + p@.len() <= s@.len() {
                assert(a < at);
            }
        }
    }
    false
}

} // verus!
