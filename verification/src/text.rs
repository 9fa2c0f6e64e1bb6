//! Substring matching over character sequences, the only condition language
//! the filters understand.

use vstd::prelude::*;

verus! {

/// The needle `f` occurs in `s` starting at character position `i`.
pub open spec fn is_match_at(s: Seq<char>, f: Seq<char>, i: int) -> bool {
    &&& 0 <= i
    &&& i + f.len() <= s.len()
    &&& s.subrange(i, i + f.len()) == f
}

/// The needle `f` occurs somewhere in `s` (an empty needle always occurs).
pub open spec fn contains_sub(s: Seq<char>, f: Seq<char>) -> bool {
    exists|i: int| is_match_at(s, f, i)
}

/// Does `f` occur in `s` starting at character position `i`?
fn match_at(s: &str, f: &str, i: usize) -> (r: bool)
    requires
        i + f@.len() <= s@.len(),
        s@.len() <= usize::MAX,
    ensures
        r == is_match_at(s@, f@, i as int),
{
    let m = f.unicode_len();
    let mut j: usize = 0;
    while j < m
        invariant
            j <= m,
            m == f@.len(),
            i + m <= s@.len() <= usize::MAX,
            forall|k: int| 0 <= k < j ==> s@[i + k] == f@[k],
        decreases m - j,
    {
        if s.get_char(i + j) != f.get_char(j) {
            proof {
                assert(s@.subrange(i as int, i + f@.len())[j as int] == s@[i + j]);
            }
            return false;
        }
        j += 1;
    }
    proof {
        assert(s@.subrange(i as int, i + f@.len()) =~= f@);
    }
    true
}

/// Does `f` occur anywhere in `s`?
pub fn str_contains(s: &str, f: &str) -> (r: bool)
    ensures
        r == contains_sub(s@, f@),
{
    let n = s.unicode_len();
    let m = f.unicode_len();
    if m == 0 {
        proof {
            assert(s@.subrange(0, 0) =~= f@);
            assert(is_match_at(s@, f@, 0));
        }
        return true;
    }
    if m > n {
        proof {
            assert(forall|i: int| !is_match_at(s@, f@, i));
        }
        return false;
    }
    let mut i: usize = 0;
    while i <= n - m
        invariant
            1 <= m <= n,
            n == s@.len(),
            m == f@.len(),
            i <= n - m + 1,
            forall|k: int| 0 <= k < i ==> !is_match_at(s@, f@, k),
        decreases n - m - i + 1,
    {
        if match_at(s, f, i) {
            return true;
        }
        i += 1;
    }
    proof {
        assert(forall|k: int| is_match_at(s@, f@, k) ==> 0 <= k <= n - m);
    }
    false
}

} // verus!
