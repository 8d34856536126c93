//! The mathematical values of sequences of nodes and tokens.

use vstd::prelude::*;

verus! {

/// The values of a sequence of nodes, in order.
pub open spec fn views<T: View>(nodes: Seq<T>) -> Seq<T::V> {
    Seq::new(nodes.len(), |i: int| nodes[i]@)
}

/// The values of no nodes are no values.
pub proof fn lemma_views_empty<T: View>()
    ensures
        views(Seq::<T>::empty()) == Seq::<T::V>::empty(),
{
    assert(views(Seq::<T>::empty()) =~= Seq::<T::V>::empty());
}

/// Appending a node appends its value.
pub proof fn lemma_views_push<T: View>(nodes: Seq<T>, node: T)
    ensures
        views(nodes.push(node)) == views(nodes).push(node@),
{
    assert(views(nodes.push(node)) =~= views(nodes).push(node@));
}

} // verus!
