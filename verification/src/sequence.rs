//! What a pass over a fixed sequence yields, read by index and never drained.

use vstd::prelude::*;

verus! {

/// What one step yields at `position`: the element there, or nothing once the
/// position has reached the end.
pub open spec fn step<T>(source: Seq<T>, position: int) -> Option<T> {
    if 0 <= position < source.len() {
        Some(source[position])
    } else {
        None
    }
}

/// Everything that repeated steps yield from `position` on, in order, until a
/// step yields nothing.
pub open spec fn yielded_from<T>(source: Seq<T>, position: int) -> Seq<T>
    decreases source.len() - position,
{
    if 0 <= position < source.len() {
        seq![source[position]] + yielded_from(source, position + 1)
    } else {
        Seq::empty()
    }
}

/// Stepping from `position` to the end yields the rest of the sequence from
/// that position on, each element once and in order.
pub proof fn lemma_yields_the_rest<T>(source: Seq<T>, position: int)
    requires
        0 <= position <= source.len(),
    ensures
        yielded_from(source, position) == source.skip(position),
    decreases source.len() - position,
{
    if position < source.len() {
        lemma_yields_the_rest(source, position + 1);
        assert(seq![source[position]] + source.skip(position + 1) =~= source.skip(position));
    } else {
        assert(source.skip(position) =~= Seq::<T>::empty());
    }
}

/// A pass from the start yields the whole sequence.
pub proof fn lemma_full_pass_yields_all<T>(source: Seq<T>)
    ensures
        yielded_from(source, 0) == source,
{
    lemma_yields_the_rest(source, 0);
    assert(source.skip(0) =~= source);
}

} // verus!
