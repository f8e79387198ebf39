//! Helpers over the snake's body sequence.

use vstd::prelude::*;

verus! {

/// Some grid cell occurs more than once in `s`.
pub open spec fn has_dup(s: Seq<(i32, i32)>) -> bool {
    exists|i: int, j: int| 0 <= i < j < s.len() && s[i] == s[j]
}

/// Reports whether any cell occurs twice in `list`; a duplicate means the
/// snake has run into itself.
pub fn has_duplicate_coordinates(list: &Vec<(i32, i32)>) -> (r: bool)
    ensures
        r == has_dup(list@),
{
    let n = list.len();
    let mut i: usize = 0;
    while i < n
        invariant
            n == list@.len(),
            i <= n,
            forall|p: int, q: int| 0 <= p < q < list@.len() && p < i ==> list@[p] != list@[q],
        decreases n - i,
    {
        let mut j: usize = i + 1;
        while j < n
            invariant
                n == list@.len(),
                i < n,
                i < j <= n,
                forall|q: int| i < q < j ==> list@[i as int] != list@[q],
            decreases n - j,
        {
            if list[i].0 == list[j].0 && list[i].1 == list[j].1 {
                proof {
                    assert(list@[i as int] == list@[j as int]);
                }
                return true;
            }
            j = j + 1;
        }
        i = i + 1;
    }
    false
}

/// The body holds a duplicate cell exactly when, collected as a set, it has
/// fewer distinct cells than its length.
pub proof fn lemma_dup_iff_fewer_unique_cells(s: Seq<(i32, i32)>)
    ensures
        has_dup(s) <==> s.to_set().len() < s.len(),
{
    if has_dup(s) {
        s.lemma_cardinality_of_set();
        if s.to_set().len() == s.len() {
            s.lemma_no_dup_set_cardinality();
            let (i, j) = choose|i: int, j: int| 0 <= i < j < s.len() && s[i] == s[j];
            assert(s[i] != s[j]);
            assert(false);
        }
    } else {
        assert forall|i: int, j: int|
            0 <= i < s.len() && 0 <= j < s.len() && i != j implies s[i] != s[j] by {
            if s[i] == s[j] {
                if i < j {
                    assert(0 <= i < j < s.len() && s[i] == s[j]);
                } else {
                    assert(0 <= j < i < s.len() && s[j] == s[i]);
                }
                assert(has_dup(s));
            }
        }
        assert(s.no_duplicates());
        s.unique_seq_to_set();
    }
}

} // verus!
