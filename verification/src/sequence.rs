//! Sequences of sequences.

use vstd::prelude::*;

verus! {

/// The parts of a list, one after the other.
pub open spec fn join<T>(parts: Seq<Seq<T>>) -> Seq<T>
    decreases parts.len(),
{
    if parts.len() == 0 {
        Seq::empty()
    } else {
        join(parts.drop_last()) + parts.last()
    }
}

/// Parts that are all empty join to nothing.
pub proof fn lemma_join_empty<T>(parts: Seq<Seq<T>>)
    requires
        forall|i: int| 0 <= i < parts.len() ==> (#[trigger] parts[i]).len() == 0,
    ensures
        join(parts) == Seq::<T>::empty(),
    decreases parts.len(),
{
    if parts.len() > 0 {
        lemma_join_empty(parts.drop_last());
        assert(join(parts) =~= Seq::<T>::empty());
    }
}

} // verus!
