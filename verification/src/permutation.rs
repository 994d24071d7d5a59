//! Sequences that hold the same items in another order, and what of a
//! sequence does not depend on the order of its items.

use vstd::prelude::*;
use vstd::seq_lib::*;

verus! {

/// Whether `transform` treats a sequence piece by piece: it maps the empty
/// sequence to the empty one, and two sequences in a row to its results for
/// the two in a row.
pub open spec fn is_piecewise<A, B>(transform: spec_fn(Seq<A>) -> Seq<B>) -> bool {
    &&& transform(Seq::empty()) == Seq::<B>::empty()
    &&& forall|left: Seq<A>, right: Seq<A>| #[trigger]
        transform(left + right) == transform(left) + transform(right)
}

/// What a piecewise transformation makes of two sequences with the same
/// items holds the same items again, whatever the order of either.
pub proof fn lemma_piecewise_keeps_items<A, B>(
    first: Seq<A>,
    second: Seq<A>,
    transform: spec_fn(Seq<A>) -> Seq<B>,
)
    requires
        is_piecewise(transform),
        first.to_multiset() == second.to_multiset(),
    ensures
        transform(first).to_multiset() == transform(second).to_multiset(),
    decreases first.len(),
{
    broadcast use group_to_multiset_ensures;

    if first.len() == 0 {
        assert(first.to_multiset().len() == first.len());
        assert(second.to_multiset().len() == second.len());
        assert(first =~= second);
    } else {
        let item = first.last();
        assert(first.contains(item));
        assert(second.to_multiset().count(item) > 0);
        assert(second.contains(item));
        let at = choose|at: int| 0 <= at < second.len() && second[at] == item;
        let front = first.drop_last();
        let left = second.take(at);
        let right = second.skip(at + 1);
        assert(front =~= first.remove(first.len() - 1));
        assert(left + right =~= second.remove(at));
        assert(front.to_multiset() == (left + right).to_multiset());
        lemma_piecewise_keeps_items(front, left + right, transform);
        assert(first =~= front + seq![item]);
        assert(second =~= left + seq![item] + right);
        let one = transform(seq![item]);
        assert(transform(first) == transform(front) + one);
        assert(transform(second) == transform(left) + one + transform(right));
        assert(transform(left + right) == transform(left) + transform(right));
        lemma_multiset_commutative(transform(front), one);
        lemma_multiset_commutative(transform(left), transform(right));
        lemma_multiset_commutative(transform(left), one);
        lemma_multiset_commutative(transform(left) + one, transform(right));
        assert(transform(first).to_multiset() =~= transform(second).to_multiset());
    }
}

/// Applying a function to every item treats a sequence piece by piece.
pub proof fn lemma_map_values_is_piecewise<A, B>(f: spec_fn(A) -> B)
    ensures
        is_piecewise(|s: Seq<A>| s.map_values(f)),
{
    let transform = |s: Seq<A>| s.map_values(f);
    assert(transform(Seq::empty()) =~= Seq::<B>::empty());
    assert forall|left: Seq<A>, right: Seq<A>| #[trigger]
        transform(left + right) == transform(left) + transform(right) by {
        assert((left + right).map_values(f) =~= left.map_values(f) + right.map_values(f));
    }
}

} // verus!
