//! The transaction wrapper and iteration over its outputs.
//!
//! The native engine owns the parsed transaction; what the layer reads of it
//! is its serialized bytes, its display text, and its counted, indexable
//! sequence of outputs, an indexed lookup of which may come back null.

use vstd::prelude::*;
use crate::bytes::copy_bytes;
use crate::iter::yield_seq;
use crate::transaction_output::{OutputView, TransactionOutput};

verus! {

/// What a transaction holds: its serialized bytes, its output slots as the
/// native collection reports them (a vacant slot stands for a null handle),
/// and its display text.
pub ghost struct TransactionView {
    pub raw: Seq<u8>,
    pub outputs: Seq<Option<OutputView>>,
    pub display: Seq<char>,
}

/// The contents of a sequence of output slots.
pub open spec fn output_slots(s: Seq<Option<TransactionOutput>>) -> Seq<Option<OutputView>> {
    s.map_values(
        |o: Option<TransactionOutput>|
            match o {
                Option::Some(t) => Option::Some(t@),
                Option::None => Option::None,
            },
    )
}

/// What assembling a transaction from the native side's reports yields.
pub open spec fn assembled(
    raw: Seq<u8>,
    outputs: Seq<Option<OutputView>>,
    display: Seq<char>,
) -> TransactionView {
    TransactionView { raw, outputs, display }
}

/// Round-trip: a transaction assembled from validly parsed raw bytes reads
/// back, through `as_bytes`, exactly the bytes it was parsed from.
pub proof fn lemma_round_trip(raw: Seq<u8>, outputs: Seq<Option<OutputView>>, display: Seq<char>)
    ensures
        assembled(raw, outputs, display).raw == raw,
{
}

/// An owned, parsed transaction.
pub struct Transaction {
    raw: Vec<u8>,
    outputs: Vec<Option<TransactionOutput>>,
    display: String,
}

impl View for Transaction {
    type V = TransactionView;

    closed spec fn view(&self) -> TransactionView {
        TransactionView {
            raw: self.raw@,
            outputs: output_slots(self.outputs@),
            display: self.display@,
        }
    }
}

/// A borrowed, single-pass walk over a transaction's outputs: the count is
/// snapshotted once at creation, and each step yields a freshly-owned
/// output.
pub struct TransactionOutputs<'a> {
    tx: &'a Transaction,
    idx: usize,
    count: usize,
}

impl Transaction {
    /// Assembles the owning wrapper from what the native side reported of a
    /// successfully parsed transaction.
    pub fn from_parts(raw: Vec<u8>, outputs: Vec<Option<TransactionOutput>>, display: String) -> (r:
        Transaction)
        ensures
            r@ == assembled(raw@, output_slots(outputs@), display@),
            r@.raw == raw@,
            r@.outputs == output_slots(outputs@),
            r@.display == display@,
    {
        Transaction { raw, outputs, display }
    }

    /// An owned copy of the transaction's serialized bytes.
    pub fn as_bytes(&self) -> (r: Vec<u8>)
        ensures
            r@ == self@.raw,
    {
        copy_bytes(&self.raw)
    }

    /// An owned copy of the transaction's display text.
    pub fn to_string(&self) -> (r: String)
        ensures
            r@ == self@.display,
    {
        self.display.clone()
    }

    /// How many outputs the native collection counts, vacant slots
    /// included.
    pub fn output_count(&self) -> (r: usize)
        ensures
            r as int == self@.outputs.len(),
    {
        self.outputs.len()
    }

    /// The indexed lookup of one output: a fresh owner of the element at
    /// `idx`, or nothing when the index is out of range or the slot is
    /// vacant.
    pub fn output_at(&self, idx: usize) -> (r: Option<TransactionOutput>)
        ensures
            idx < self@.outputs.len() ==> match self@.outputs[idx as int] {
                Option::Some(o) => r matches Option::Some(out) && out@ == o,
                Option::None => r is None,
            },
            idx >= self@.outputs.len() ==> r is None,
    {
        if idx < self.outputs.len() {
            match &self.outputs[idx] {
                Option::Some(o) => Option::Some(o.duplicate()),
                Option::None => Option::None,
            }
        } else {
            Option::None
        }
    }

    /// Starts a borrowed walk over the outputs, snapshotting the count
    /// once.
    pub fn outputs(&self) -> (it: TransactionOutputs<'_>)
        ensures
            it.parent() == self@,
            it.cursor() == 0,
            it.wf(),
    {
        let count = self.outputs.len();
        TransactionOutputs { tx: self, idx: 0, count }
    }

    /// A fresh owner of the same transaction content, as an indexed native
    /// lookup hands out.
    pub(crate) fn duplicate(&self) -> (r: Transaction)
        ensures
            r@ == self@,
    {
        let mut outs: Vec<Option<TransactionOutput>> = Vec::new();
        let mut i: usize = 0;
        while i < self.outputs.len()
            invariant
                i <= self.outputs.len(),
                outs@.len() == i,
                forall|j: int|
                    0 <= j < i ==> output_slots(outs@)[j] == output_slots(self.outputs@)[j],
            decreases self.outputs.len() - i,
        {
            let ghost prev = outs@;
            match &self.outputs[i] {
                Option::Some(o) => outs.push(Option::Some(o.duplicate())),
                Option::None => outs.push(Option::None),
            }
            proof {
                assert forall|j: int|
                    0 <= j < i + 1 implies output_slots(outs@)[j] == output_slots(self.outputs@)[j]
                by {
                    assert(output_slots(outs@)[j] == match outs@[j] {
                        Option::Some(t) => Option::Some(t@),
                        Option::None => Option::<OutputView>::None,
                    });
                    assert(output_slots(self.outputs@)[j] == match self.outputs@[j] {
                        Option::Some(t) => Option::Some(t@),
                        Option::None => Option::<OutputView>::None,
                    });
                    if j < i {
                        assert(outs@[j] == prev[j]);
                        assert(output_slots(prev)[j] == match prev[j] {
                            Option::Some(t) => Option::Some(t@),
                            Option::None => Option::<OutputView>::None,
                        });
                    }
                }
            }
            i = i + 1;
        }
        proof {
            assert(output_slots(outs@) =~= output_slots(self.outputs@));
        }
        Transaction {
            raw: copy_bytes(&self.raw),
            outputs: outs,
            display: self.display.clone(),
        }
    }
}

impl<'a> TransactionOutputs<'a> {
    /// The borrowed parent's contents.
    pub closed spec fn parent(&self) -> TransactionView {
        self.tx@
    }

    /// The cursor's position.
    pub closed spec fn cursor(&self) -> int {
        self.idx as int
    }

    /// The count snapshotted when the walk began.
    pub closed spec fn bound(&self) -> int {
        self.count as int
    }

    /// The walk's well-formedness: the snapshot matches the parent's
    /// collection, and the cursor never passes it.
    pub open spec fn wf(&self) -> bool {
        self.bound() == self.parent().outputs.len() && 0 <= self.cursor() <= self.bound()
    }

    /// One step of the walk. While the cursor is under the snapshotted
    /// count, the slot at the cursor is looked up: an occupied slot yields a
    /// freshly-owned output and moves the cursor one on; a vacant slot ends
    /// the walk at once. A cursor at the count yields nothing and stays
    /// put.
    pub fn next(&mut self) -> (r: Option<TransactionOutput>)
        requires
            old(self).wf(),
        ensures
            final(self).wf(),
            final(self).parent() == old(self).parent(),
            final(self).bound() == old(self).bound(),
            ({
                let c = old(self).cursor();
                if c < old(self).bound() {
                    match old(self).parent().outputs[c] {
                        Option::Some(o) => (r matches Option::Some(out) && out@ == o)
                            && final(self).cursor() == c + 1,
                        Option::None => r is None && final(self).cursor() == final(self).bound(),
                    }
                } else {
                    r is None && final(self).cursor() == c
                }
            }),
    {
        if self.idx < self.count {
            let fetched = self.tx.output_at(self.idx);
            match fetched {
                Option::Some(out) => {
                    self.idx = self.idx + 1;
                    Option::Some(out)
                },
                Option::None => {
                    self.idx = self.count;
                    Option::None
                },
            }
        } else {
            Option::None
        }
    }

    /// What the rest of the walk will yield.
    pub open spec fn remaining(&self) -> Seq<OutputView> {
        yield_seq(self.parent().outputs, self.cursor())
    }
}

} // verus!
