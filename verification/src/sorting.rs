//! A verified ascending sort, used when a caller asks for a presence check on
//! data that is not yet known to be in order, together with the facts about
//! permutations that the search contracts lean on.

use vstd::multiset::Multiset;
use vstd::prelude::*;

use crate::order::{le_rel, lemma_le_total_ordering, lemma_sorted_is_sorted_by, sorted, Cmp,
    Searchable};

verus! {

/// Sequences holding the same items (with multiplicity) hold the same members:
/// reordering a list never changes what is present in it.
pub proof fn lemma_permutation_preserves_membership<T>(s1: Seq<T>, s2: Seq<T>, x: T)
    requires
        s1.to_multiset() == s2.to_multiset(),
    ensures
        s1.contains(x) == s2.contains(x),
{
    vstd::seq_lib::to_multiset_contains(s1, x);
    vstd::seq_lib::to_multiset_contains(s2, x);
}

/// There is only one ascending arrangement of given items: two sorted
/// sequences with the same multiset are equal. Sorting a list that is already
/// sorted therefore leaves it exactly as it was.
pub proof fn lemma_sorted_permutation_unique<T: Searchable>(s1: Seq<T>, s2: Seq<T>)
    requires
        sorted(s1),
        sorted(s2),
        s1.to_multiset() == s2.to_multiset(),
    ensures
        s1 == s2,
{
    lemma_le_total_ordering::<T>();
    lemma_sorted_is_sorted_by(s1);
    lemma_sorted_is_sorted_by(s2);
    vstd::seq_lib::lemma_sorted_unique(s1, s2, le_rel::<T>());
}

/// Index at which `x` can be inserted into the ascending `v` so that the
/// result stays ascending: everything before the index sits at or below `x`,
/// everything from it on sits at or above.
fn insertion_point<T: Searchable>(v: &Vec<T>, x: &T) -> (pos: usize)
    requires
        sorted(v@),
    ensures
        pos <= v@.len(),
        forall|j: int| 0 <= j < pos ==> v@[j].le(*x),
        forall|j: int| pos <= j < v@.len() ==> x.le(v@[j]),
{
    let n = v.len();
    let mut i: usize = 0;
    while i < n
        invariant
            i <= n == v@.len(),
            sorted(v@),
            forall|j: int| 0 <= j < i ==> v@[j].le(*x),
        decreases n - i,
    {
        let c = x.compare(&v[i]);
        match c {
            Cmp::Greater => {
                i += 1;
            },
            Cmp::Equal => {
                proof {
                    T::lemma_reflexive(*x);
                    assert forall|j: int| i <= j < v@.len() implies x.le(v@[j]) by {
                        if j != i {
                            T::lemma_transitive(*x, v@[i as int], v@[j]);
                        }
                    }
                }
                return i;
            },
            Cmp::Less => {
                proof {
                    assert forall|j: int| i <= j < v@.len() implies x.le(v@[j]) by {
                        if j != i {
                            T::lemma_transitive(*x, v@[i as int], v@[j]);
                        }
                    }
                }
                return i;
            },
        }
    }
    i
}

/// Rearrange the list into ascending order. The items themselves are kept:
/// the result is a permutation of the input.
pub fn sort_ascending<T: Searchable>(v: &mut Vec<T>)
    ensures
        sorted(final(v)@),
        final(v)@.to_multiset() == old(v)@.to_multiset(),
{
    let mut out: Vec<T> = Vec::new();
    proof {
        broadcast use vstd::multiset::group_multiset_axioms;

        vstd::seq_lib::to_multiset_len(out@);
        vstd::multiset::lemma_multiset_empty_len(out@.to_multiset());
        assert(out@.to_multiset().add(v@.to_multiset()) =~= v@.to_multiset());
    }
    while v.len() > 0
        invariant
            sorted(out@),
            out@.to_multiset().add(v@.to_multiset()) == old(v)@.to_multiset(),
        decreases v@.len(),
    {
        let ghost v_at_entry = v@;
        let x = v.pop().unwrap();
        proof {
            vstd::seq_lib::to_multiset_build(v@, x);
            assert(v_at_entry =~= v@.push(x));
            assert(v_at_entry.to_multiset() == v@.to_multiset().insert(x));
        }
        let pos = insertion_point(&out, &x);
        let ghost out_before = out@;
        out.insert(pos, x);
        proof {
            broadcast use vstd::multiset::group_multiset_axioms;

            vstd::seq_lib::to_multiset_insert(out_before, pos as int, x);
            assert(out@.to_multiset().add(v@.to_multiset()) =~= out_before.to_multiset().add(
                v_at_entry.to_multiset(),
            ));
            out_before.insert_ensures(pos as int, x);
            assert forall|a: int, b: int| #![trigger out@[a], out@[b]] 0 <= a <= b < out@.len()
                implies out@[a].le(out@[b]) by {
                if a == b {
                    T::lemma_reflexive(out@[a]);
                } else if b < pos {
                    assert(out@[a] == out_before[a] && out@[b] == out_before[b]);
                } else if a < pos && b == pos {
                    assert(out@[a] == out_before[a] && out@[b] == x);
                } else if a < pos && b > pos {
                    assert(out@[a] == out_before[a] && out@[b] == out_before[b - 1]);
                } else if a == pos {
                    assert(out@[a] == x && out@[b] == out_before[b - 1]);
                } else {
                    assert(out@[a] == out_before[a - 1] && out@[b] == out_before[b - 1]);
                }
            }
        }
    }
    proof {
        broadcast use vstd::multiset::group_multiset_axioms;

        vstd::seq_lib::to_multiset_len(v@);
        vstd::multiset::lemma_multiset_empty_len(v@.to_multiset());
        assert(v@.to_multiset() =~= Multiset::<T>::empty());
        assert(out@.to_multiset() =~= old(v)@.to_multiset());
    }
    *v = out;
}

} // verus!
