//! The typed search API: a list bundled with a flag vouching for its order, a
//! result that carries presence and an optional position, and one entry point
//! told which of the two the caller wants.

use vstd::prelude::*;

use crate::order::{sorted, Searchable};
use crate::sorting::{
    lemma_permutation_preserves_membership, lemma_sorted_permutation_unique, sort_ascending,
};
use crate::vec_search::is_first_match;

verus! {

/// A list of searchable items together with a flag asserting that it is in
/// ascending order. The flag is the caller's word: a well-formed list is one
/// whose flag, when set, is actually true of the data.
#[derive(Clone, Debug)]
pub struct SearchList<T: Searchable> {
    /// The items, in the caller's order.
    pub list: Vec<T>,
    /// Set when `list` is in ascending order; the search algorithms trust it
    /// only for what it rules out, never to skip a comparison when unset.
    pub is_sorted: bool,
}

impl<T: Searchable> SearchList<T> {
    /// The sorted flag can be trusted: when set, the data really is ascending.
    pub open spec fn wf(self) -> bool {
        self.is_sorted ==> sorted(self.list@)
    }

    /// Put the list into ascending order in place, unless the flag already
    /// vouches for it, and record that in the flag. The items are kept: the
    /// new arrangement is a permutation of the old, and a list that was
    /// already flagged sorted is left untouched.
    pub fn sort(&mut self)
        requires
            old(self).wf(),
        ensures
            final(self).is_sorted,
            sorted(final(self).list@),
            final(self).list@.to_multiset() == old(self).list@.to_multiset(),
            old(self).is_sorted ==> final(self).list@ == old(self).list@,
    {
        if !self.is_sorted {
            sort_ascending(&mut self.list);
            self.is_sorted = true;
        }
    }
}

/// What a search reports: whether the item is present, and its position when
/// the mode that tracks positions was asked for.
#[derive(Clone, Debug, PartialEq)]
pub struct SearchResult {
    /// The item is in the list.
    pub found: bool,
    /// Position of the first match, in the order the list was given; absent
    /// in presence-only mode, whose internal sort loses the original order.
    pub index: Option<usize>,
}

/// Which answer the caller wants.
#[derive(Clone, Debug)]
pub enum SearchKind {
    /// A yes/no answer only; the list may be sorted in place to get it.
    CheckPresence,
    /// The position of the first match; the list is read exactly as given.
    FindIndex,
}

/// Front-to-back scan for `item`. Reports the first occurrence in the order
/// given; a list flagged as ascending lets the scan stop as soon as it has
/// passed the place where `item` would sit.
pub fn linear_search<T: Searchable>(search_list: SearchList<T>, item: T) -> (r: SearchResult)
    requires
        search_list.wf(),
    ensures
        r.found == search_list.list@.contains(item),
        (match r.index {
            Some(i) => r.found && is_first_match(search_list.list@, item, i as int),
            None => !r.found,
        }),
{
    let position = crate::vec_search::linear_search(item, &search_list.list, search_list.is_sorted);
    match position {
        Some(i) => SearchResult { found: true, index: Some(i) },
        None => SearchResult { found: false, index: None },
    }
}

/// Halving search for `item`; the list data must be ascending, whatever its
/// flag says. Reports presence only: which of several equal elements the
/// halving lands on is not promised, so the index is deliberately withheld.
pub fn binary_search<T: Searchable>(search_list: SearchList<T>, item: T) -> (r: SearchResult)
    requires
        sorted(search_list.list@),
    ensures
        r.found == search_list.list@.contains(item),
        r.index is None,
{
    let found = crate::vec_search::binary_search(item, &search_list.list);
    SearchResult { found, index: None }
}

/// Search the list for `item`. Asking for presence sorts the list first
/// (consumed here, so the caller never sees the reordering) and runs the
/// halving search; the answer is about the list exactly as it was given.
/// Asking for the index scans the list as given and reports the position of
/// the first match.
pub fn search<T: Searchable>(search_list: SearchList<T>, item: T, kind: SearchKind) -> (r:
    SearchResult)
    requires
        search_list.wf(),
    ensures
        r.found == search_list.list@.contains(item),
        (match kind {
            SearchKind::CheckPresence => r.index is None,
            SearchKind::FindIndex => (match r.index {
                Some(i) => r.found && is_first_match(search_list.list@, item, i as int),
                None => !r.found,
            }),
        }),
{
    match kind {
        SearchKind::CheckPresence => {
            let ghost given = search_list.list@;
            let mut search_list = search_list;
            search_list.sort();
            proof {
                lemma_permutation_preserves_membership(given, search_list.list@, item);
            }
            binary_search(search_list, item)
        },
        SearchKind::FindIndex => linear_search(search_list, item),
    }
}

/// Asking for presence twice in a row answers the same both times, and the
/// second time is a no-op on the data: the first call leaves the list an
/// ascending permutation of what was given, which holds exactly the same
/// members, and an ascending arrangement of given items is unique, so a
/// second sort cannot move anything.
pub proof fn lemma_check_presence_idempotent<T: Searchable>(
    given: Seq<T>,
    once: Seq<T>,
    twice: Seq<T>,
    item: T,
)
    requires
        sorted(once),
        once.to_multiset() == given.to_multiset(),
        sorted(twice),
        twice.to_multiset() == once.to_multiset(),
    ensures
        once.contains(item) == given.contains(item),
        twice.contains(item) == once.contains(item),
        twice == once,
{
    lemma_permutation_preserves_membership(given, once, item);
    lemma_permutation_preserves_membership(once, twice, item);
    lemma_sorted_permutation_unique(once, twice);
}

} // verus!
