//! Searching a sequence for its first occurrence of a value, shared by the
//! tables that look a handle up by linear search.

use vstd::prelude::*;

verus! {

/// Position of the first occurrence of `x` in `s`, or -1.
pub open spec fn first_index_of<T>(s: Seq<T>, x: T) -> int
    decreases s.len(),
{
    if s.len() == 0 {
        -1
    } else if s[0] == x {
        0
    } else if first_index_of(s.drop_first(), x) < 0 {
        -1
    } else {
        1 + first_index_of(s.drop_first(), x)
    }
}

/// A position `j` that holds `x` with no `x` before it (or -1, with no `x`
/// anywhere) is the first occurrence.
pub proof fn lemma_first_index_of<T>(s: Seq<T>, x: T, j: int)
    requires
        -1 <= j < s.len(),
        j >= 0 ==> s[j] == x,
        forall|k: int| 0 <= k < s.len() && (j < 0 || k < j) ==> s[k] != x,
    ensures
        first_index_of(s, x) == j,
    decreases s.len(),
{
    if s.len() > 0 && j != 0 {
        lemma_first_index_of(s.drop_first(), x, if j < 0 { -1 } else { j - 1 });
    }
}

/// The first occurrence lies in the sequence, holds `x`, and no position
/// before it holds `x`; it exists exactly when the sequence contains `x`.
pub proof fn lemma_first_index_of_facts<T>(s: Seq<T>, x: T)
    ensures
        -1 <= first_index_of(s, x) < s.len(),
        first_index_of(s, x) >= 0 <==> s.contains(x),
        first_index_of(s, x) >= 0 ==> s[first_index_of(s, x)] == x,
        forall|k: int| 0 <= k < s.len() && (first_index_of(s, x) < 0 || k < first_index_of(s, x))
            ==> s[k] != x,
    decreases s.len(),
{
    if s.len() > 0 && s[0] != x {
        let t = s.drop_first();
        lemma_first_index_of_facts(t, x);
        assert forall|k: int| 0 <= k < s.len() && (first_index_of(s, x) < 0 || k < first_index_of(s, x))
            implies s[k] != x by {
            if k > 0 {
                assert(s[k] == t[k - 1]);
            }
        }
        if s.contains(x) {
            let k = choose|k: int| 0 <= k < s.len() && s[k] == x;
            assert(t[k - 1] == x);
        }
        if t.contains(x) {
            let k = choose|k: int| 0 <= k < t.len() && t[k] == x;
            assert(s[k + 1] == x);
        }
    } else if s.len() > 0 {
        assert(s[0] == x);
    }
}

} // verus!
