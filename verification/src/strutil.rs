//! Small verified string utilities: substring search, equality, prefix tests,
//! and the one lowercase conversion the scanner needs.

use vstd::prelude::*;
use vstd::string::StrSliceExecFns;

verus! {

/// `n` occurs in `h` starting at position `i`.
pub open spec fn contains_at(h: Seq<char>, n: Seq<char>, i: int) -> bool {
    &&& 0 <= i
    &&& i + n.len() <= h.len()
    &&& forall|j: int| 0 <= j < n.len() ==> h[i + j] == n[j]
}

/// `n` occurs somewhere in `h`.
pub open spec fn contains_seq(h: Seq<char>, n: Seq<char>) -> bool {
    exists|i: int| contains_at(h, n, i)
}

/// `p` is a prefix of `s`.
pub open spec fn starts_with_seq(s: Seq<char>, p: Seq<char>) -> bool {
    contains_at(s, p, 0)
}

/// Substring search by direct comparison at every offset.
pub fn str_contains(h: &str, n: &str) -> (r: bool)
    ensures
        r == contains_seq(h@, n@),
{
    let hl = h.unicode_len();
    let nl = n.unicode_len();
    if nl > hl {
        assert(forall|i: int| !contains_at(h@, n@, i));
        return false;
    }
    let mut i: usize = 0;
    while i <= hl - nl
        invariant
            nl <= hl,
            hl == h@.len(),
            nl == n@.len(),
            i <= hl - nl + 1,
            forall|k: int| 0 <= k < i ==> !contains_at(h@, n@, k),
        decreases hl - nl - i + 1,
    {
        let mut j: usize = 0;
        let mut ok = true;
        while ok && j < nl
            invariant
                nl <= hl,
                hl == h@.len(),
                nl == n@.len(),
                i + nl <= hl,
                j <= nl,
                ok ==> forall|t: int| 0 <= t < j ==> h@[i + t] == n@[t],
                !ok ==> !contains_at(h@, n@, i as int),
            decreases nl - j, (if ok { 1int } else { 0int }),
        {
            if h.get_char(i + j) == n.get_char(j) {
                j = j + 1;
            } else {
                ok = false;
            }
        }
        if ok {
            assert(contains_at(h@, n@, i as int));
            return true;
        }
        i = i + 1;
    }
    assert(forall|k: int| i <= k ==> !contains_at(h@, n@, k));
    false
}

/// Character-for-character string equality.
pub fn str_eq(a: &str, b: &str) -> (r: bool)
    ensures
        r == (a@ == b@),
{
    let al = a.unicode_len();
    let bl = b.unicode_len();
    if al != bl {
        return false;
    }
    let mut i: usize = 0;
    while i < al
        invariant
            al == a@.len(),
            al == b@.len(),
            i <= al,
            forall|k: int| 0 <= k < i ==> a@[k] == b@[k],
        decreases al - i,
    {
        if a.get_char(i) != b.get_char(i) {
            return false;
        }
        i = i + 1;
    }
    assert(a@ =~= b@);
    true
}

/// `p` is a prefix of `s`.
pub fn str_starts_with(s: &str, p: &str) -> (r: bool)
    ensures
        r == starts_with_seq(s@, p@),
{
    let sl = s.unicode_len();
    let pl = p.unicode_len();
    if pl > sl {
        return false;
    }
    let mut i: usize = 0;
    while i < pl
        invariant
            pl <= sl,
            sl == s@.len(),
            pl == p@.len(),
            i <= pl,
            forall|k: int| 0 <= k < i ==> s@[k] == p@[k],
        decreases pl - i,
    {
        if s.get_char(i) != p.get_char(i) {
            return false;
        }
        i = i + 1;
    }
    assert(contains_at(s@, p@, 0));
    true
}

/// Lowercase image of a character sequence, as `str::to_lowercase` computes
/// it; the result depends on the input characters alone.
pub uninterp spec fn lower_of(s: Seq<char>) -> Seq<char>;

/// Relies on `str::to_lowercase`: a pure function of the input characters.
#[verifier::external_body]
pub(crate) fn lowercase(s: &str) -> (r: String)
    ensures
        r@ == lower_of(s@),
{
    s.to_lowercase()
}

} // verus!
