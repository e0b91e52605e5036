//! The borrowed iteration protocol, at the level of the collections'
//! contents.
//!
//! Every native collection is walked the same way: the element count is
//! snapshotted once when the iterator is created, the cursor runs from zero,
//! `cursor < count` is the sole continuation condition, and a vacant slot —
//! a null handle where the count promised an element — ends the sequence at
//! once instead of failing. The functions here state what such a walk
//! yields; the per-type iterators' contracts are phrased over them.

use vstd::prelude::*;

verus! {

/// What walking `slots` from `cursor` to the end yields: one element per
/// occupied slot, in order, stopping early at the first vacant slot.
pub open spec fn yield_seq<V>(slots: Seq<Option<V>>, cursor: int) -> Seq<V>
    decreases slots.len() - cursor,
{
    if 0 <= cursor < slots.len() {
        match slots[cursor] {
            Option::Some(v) => seq![v] + yield_seq(slots, cursor + 1),
            Option::None => Seq::empty(),
        }
    } else {
        Seq::empty()
    }
}

/// Walking a collection without vacant slots yields exactly the remaining
/// elements: one per counted slot, each the element at its own position.
pub proof fn lemma_full_yield<V>(slots: Seq<Option<V>>, cursor: int)
    requires
        0 <= cursor <= slots.len(),
        forall|i: int| 0 <= i < slots.len() ==> slots[i] is Some,
    ensures
        yield_seq(slots, cursor).len() == slots.len() - cursor,
        forall|i: int|
            cursor <= i < slots.len() ==> yield_seq(slots, cursor)[i - cursor] == slots[i]->0,
    decreases slots.len() - cursor,
{
    if cursor < slots.len() {
        lemma_full_yield(slots, cursor + 1);
        assert forall|i: int| cursor <= i < slots.len() implies yield_seq(slots, cursor)[i
            - cursor] == slots[i]->0 by {
            if i > cursor {
                assert(yield_seq(slots, cursor)[i - cursor] == yield_seq(slots, cursor + 1)[i
                    - (cursor + 1)]);
            }
        }
    }
}

/// A vacant slot ends the walk early: only the occupied slots before it are
/// yielded, however many more the snapshotted count promised.
pub proof fn lemma_vacancy_ends_yield<V>(slots: Seq<Option<V>>, cursor: int, vacant: int)
    requires
        0 <= cursor <= vacant < slots.len(),
        slots[vacant] is None,
        forall|i: int| cursor <= i < vacant ==> slots[i] is Some,
    ensures
        yield_seq(slots, cursor).len() == vacant - cursor,
        forall|i: int| cursor <= i < vacant ==> yield_seq(slots, cursor)[i - cursor] == slots[i]->0,
    decreases vacant - cursor,
{
    if cursor < vacant {
        lemma_vacancy_ends_yield(slots, cursor + 1, vacant);
        assert forall|i: int| cursor <= i < vacant implies yield_seq(slots, cursor)[i - cursor]
            == slots[i]->0 by {
            if i > cursor {
                assert(yield_seq(slots, cursor)[i - cursor] == yield_seq(slots, cursor + 1)[i
                    - (cursor + 1)]);
            }
        }
    }
}

} // verus!
