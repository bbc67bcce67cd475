//! The comparison capability the search algorithms are generic over: a total
//! order given as a spec-level relation together with an executable three-way
//! comparison that decides it.

use vstd::prelude::*;

verus! {

/// Outcome of a three-way comparison of two items.
#[derive(Clone, Copy, Debug)]
pub enum Cmp {
    Less,
    Equal,
    Greater,
}

/// A type whose values can be searched for: an ordering relation `le` that is
/// a total order, and an executable comparison that decides it exactly.
pub trait Searchable: Sized {
    /// The ordering the search algorithms go by: `self` at or below `other`.
    spec fn le(self, other: Self) -> bool;

    /// Every item is at or below itself.
    proof fn lemma_reflexive(x: Self)
        ensures
            x.le(x),
    ;

    /// The ordering chains: below something below `z` is below `z`.
    proof fn lemma_transitive(x: Self, y: Self, z: Self)
        requires
            x.le(y),
            y.le(z),
        ensures
            x.le(z),
    ;

    /// Two items at or below each other are the same item.
    proof fn lemma_antisymmetric(x: Self, y: Self)
        requires
            x.le(y),
            y.le(x),
        ensures
            x == y,
    ;

    /// Any two items are comparable.
    proof fn lemma_total(x: Self, y: Self)
        ensures
            x.le(y) || y.le(x),
    ;

    /// Decide how `self` stands to `other` under `le`.
    fn compare(&self, other: &Self) -> (c: Cmp)
        ensures
            (match c {
                Cmp::Less => self.le(*other) && self != other,
                Cmp::Equal => self == other,
                Cmp::Greater => other.le(*self) && self != other,
            }),
    ;
}

impl Searchable for i64 {
    open spec fn le(self, other: Self) -> bool {
        self <= other
    }

    proof fn lemma_reflexive(x: Self) {
    }

    proof fn lemma_transitive(x: Self, y: Self, z: Self) {
    }

    proof fn lemma_antisymmetric(x: Self, y: Self) {
    }

    proof fn lemma_total(x: Self, y: Self) {
    }

    fn compare(&self, other: &Self) -> (c: Cmp) {
        if *self < *other {
            Cmp::Less
        } else if *self == *other {
            Cmp::Equal
        } else {
            Cmp::Greater
        }
    }
}

/// The sequence is in ascending order: every element at or below every later one.
pub open spec fn sorted<T: Searchable>(s: Seq<T>) -> bool {
    forall|i: int, j: int| #![trigger s[i], s[j]] 0 <= i <= j < s.len() ==> s[i].le(s[j])
}

/// The ordering of `T` as a first-class relation value.
pub open spec fn le_rel<T: Searchable>() -> spec_fn(T, T) -> bool {
    |a: T, b: T| a.le(b)
}

/// `le` really is a total order, in the relation vocabulary of vstd.
pub proof fn lemma_le_total_ordering<T: Searchable>()
    ensures
        vstd::relations::total_ordering(le_rel::<T>()),
{
    let leq = le_rel::<T>();
    assert forall|x: T| #[trigger] leq(x, x) by {
        T::lemma_reflexive(x);
    }
    assert forall|x: T, y: T| #[trigger] leq(x, y) && #[trigger] leq(y, x) implies x == y by {
        T::lemma_antisymmetric(x, y);
    }
    assert forall|x: T, y: T, z: T| #[trigger] leq(x, y) && #[trigger] leq(y, z) implies leq(
        x,
        z,
    ) by {
        T::lemma_transitive(x, y, z);
    }
    assert forall|x: T, y: T| #[trigger] leq(x, y) || #[trigger] leq(y, x) by {
        T::lemma_total(x, y);
    }
}

/// `sorted` agrees with vstd's `sorted_by` under the same ordering.
pub proof fn lemma_sorted_is_sorted_by<T: Searchable>(s: Seq<T>)
    ensures
        sorted(s) <==> vstd::relations::sorted_by(s, le_rel::<T>()),
{
    let leq = le_rel::<T>();
    if sorted(s) {
        assert forall|i: int, j: int| 0 <= i < j < s.len() implies #[trigger] leq(s[i], s[j]) by {
            assert(s[i].le(s[j]));
        }
    }
    if vstd::relations::sorted_by(s, leq) {
        assert forall|i: int, j: int| 0 <= i <= j < s.len() implies #[trigger] s[i].le(
            #[trigger] s[j],
        ) by {
            if i == j {
                T::lemma_reflexive(s[i]);
            } else {
                assert(leq(s[i], s[j]));
            }
        }
    }
}

} // verus!
