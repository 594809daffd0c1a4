//! Small verified string helpers: suffix tests over character sequences.

use vstd::prelude::*;

verus! {

/// `suf` is a suffix of `s`.
pub open spec fn suffix_of(s: Seq<char>, suf: Seq<char>) -> bool {
    suf.len() <= s.len() && s.subrange(s.len() - suf.len(), s.len() as int) == suf
}

/// Decides whether `s` ends with `suffix`, character for character.
pub fn ends_with(s: &str, suffix: &str) -> (r: bool)
    ensures
        r == suffix_of(s@, suffix@),
{
    let n: usize = s.unicode_len();
    let m: usize = suffix.unicode_len();
    if m > n {
        return false;
    }
    let mut i: usize = 0;
    while i < m
        invariant
            m <= n,
            n == s@.len(),
            m == suffix@.len(),
            i <= m,
            forall|j: int| 0 <= j < i ==> s@[n - m + j] == suffix@[j],
        decreases m - i,
    {
        if s.get_char(n - m + i) != suffix.get_char(i) {
            proof {
                let tail = s@.subrange(s@.len() - suffix@.len(), s@.len() as int);
                assert(tail[i as int] != suffix@[i as int]);
            }
            return false;
        }
        i += 1;
    }
    proof {
        let tail = s@.subrange(s@.len() - suffix@.len(), s@.len() as int);
        assert(tail =~= suffix@);
    }
    true
}

/// Appending text on the right turns the appended text into a suffix of the
/// whole.
pub proof fn lemma_suffix_of_concat(s: Seq<char>, suf: Seq<char>)
    ensures
        suffix_of(s + suf, suf),
{
    assert((s + suf).subrange((s + suf).len() - suf.len(), (s + suf).len() as int) =~= suf);
}

} // verus!
