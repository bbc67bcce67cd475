//! The two search algorithms over a plain vector, together with an entry
//! point that picks between them: a presence-only check that may sort the
//! vector in place, or an order-preserving scan for the first match.

use vstd::prelude::*;

use crate::order::{sorted, Cmp, Searchable};
use crate::sorting::{lemma_permutation_preserves_membership, sort_ascending};

verus! {

/// `i` points at the first occurrence of `x` in `s`.
pub open spec fn is_first_match<T>(s: Seq<T>, x: T, i: int) -> bool {
    &&& 0 <= i < s.len()
    &&& s[i] == x
    &&& forall|j: int| 0 <= j < i ==> s[j] != x
}

/// What a search handed back: the position of the first match when the scan
/// kept the order, or a bare yes/no when only presence was asked for.
#[derive(Clone, Copy, Debug)]
pub enum SearchResult {
    Linear(Option<usize>),
    Binary(bool),
}

/// Front-to-back scan for `item`. Finds the first occurrence in the order
/// given; when the list is flagged as ascending, a scan that has passed the
/// place where `item` would sit stops early, since no later element can match.
pub fn linear_search<T: Searchable>(item: T, item_list: &Vec<T>, is_sorted: bool) -> (r: Option<
    usize,
>)
    requires
        is_sorted ==> sorted(item_list@),
    ensures
        (match r {
            Some(i) => is_first_match(item_list@, item, i as int),
            None => !item_list@.contains(item),
        }),
{
    let n = item_list.len();
    let mut i: usize = 0;
    while i < n
        invariant
            i <= n == item_list@.len(),
            is_sorted ==> sorted(item_list@),
            forall|j: int| 0 <= j < i ==> item_list@[j] != item,
        decreases n - i,
    {
        let c = item.compare(&item_list[i]);
        match c {
            Cmp::Equal => {
                return Some(i);
            },
            Cmp::Less => {
                if is_sorted {
                    proof {
                        assert forall|j: int| i <= j < item_list@.len() implies item_list@[j]
                            != item by {
                            if item_list@[j] == item {
                                T::lemma_antisymmetric(item, item_list@[i as int]);
                            }
                        }
                        assert(!item_list@.contains(item));
                    }
                    return None;
                }
            },
            Cmp::Greater => {},
        }
        i += 1;
    }
    proof {
        assert(!item_list@.contains(item));
    }
    None
}

/// Halving search for `item` over a list that must already be ascending.
/// Answers presence only: which of several equal elements it lands on is not
/// promised, so no index is reported.
pub fn binary_search<T: Searchable>(item: T, item_list: &Vec<T>) -> (found: bool)
    requires
        sorted(item_list@),
    ensures
        found == item_list@.contains(item),
{
    let mut lo: usize = 0;
    let mut hi: usize = item_list.len();
    while lo < hi
        invariant
            lo <= hi <= item_list@.len(),
            sorted(item_list@),
            item_list@.contains(item) ==> exists|k: int|
                lo <= k < hi && item_list@[k] == item,
        decreases hi - lo,
    {
        let mid = lo + (hi - lo) / 2;
        let c = item.compare(&item_list[mid]);
        match c {
            Cmp::Equal => {
                proof {
                    assert(item_list@[mid as int] == item);
                    assert(item_list@.contains(item));
                }
                return true;
            },
            Cmp::Less => {
                proof {
                    if item_list@.contains(item) {
                        let k = choose|k: int| lo <= k < hi && item_list@[k] == item;
                        if k >= mid {
                            T::lemma_antisymmetric(item, item_list@[mid as int]);
                        }
                        assert(lo <= k < mid && item_list@[k] == item);
                    }
                }
                hi = mid;
            },
            Cmp::Greater => {
                proof {
                    if item_list@.contains(item) {
                        let k = choose|k: int| lo <= k < hi && item_list@[k] == item;
                        if k <= mid {
                            T::lemma_antisymmetric(item, item_list@[mid as int]);
                        }
                        assert(mid + 1 <= k < hi && item_list@[k] == item);
                    }
                }
                lo = mid + 1;
            },
        }
    }
    false
}

/// Search `item_list` for `item`. With `check` set, only presence is asked
/// for: the list is first sorted in place (skipped when `is_sorted` vouches
/// for it) and a halving search answers. Otherwise the list is scanned as
/// given, untouched, and the index of the first match is reported.
pub fn search<T: Searchable>(item: T, item_list: &mut Vec<T>, check: bool, is_sorted: bool) -> (r:
    SearchResult)
    requires
        is_sorted ==> sorted(old(item_list)@),
    ensures
        (match r {
            SearchResult::Binary(found) => {
                &&& check
                &&& found == old(item_list)@.contains(item)
                &&& sorted(final(item_list)@)
                &&& final(item_list)@.to_multiset() == old(item_list)@.to_multiset()
                &&& is_sorted ==> final(item_list)@ == old(item_list)@
            },
            SearchResult::Linear(position) => {
                &&& !check
                &&& final(item_list)@ == old(item_list)@
                &&& (match position {
                    Some(i) => is_first_match(old(item_list)@, item, i as int),
                    None => !old(item_list)@.contains(item),
                })
            },
        }),
{
    if check {
        if !is_sorted {
            let ghost given = item_list@;
            sort_ascending(item_list);
            proof {
                lemma_permutation_preserves_membership(given, item_list@, item);
            }
        }
        SearchResult::Binary(binary_search(item, item_list))
    } else {
        SearchResult::Linear(linear_search(item, item_list, is_sorted))
    }
}

} // verus!
