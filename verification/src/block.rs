//! The block wrapper and iteration over its transactions.

use vstd::prelude::*;
use crate::bytes::copy_bytes;
use crate::hash::BlockHash;
use crate::iter::yield_seq;
use crate::transaction::{Transaction, TransactionView};

verus! {

/// What a block holds: its serialized bytes, its 32-byte hash, and its
/// transaction slots as the native collection reports them (a vacant slot
/// stands for a null handle).
pub ghost struct BlockView {
    pub raw: Seq<u8>,
    pub hash: Seq<u8>,
    pub txs: Seq<Option<TransactionView>>,
}

/// The contents of a sequence of transaction slots.
pub open spec fn tx_slots(s: Seq<Option<Transaction>>) -> Seq<Option<TransactionView>> {
    s.map_values(
        |t: Option<Transaction>|
            match t {
                Option::Some(tx) => Option::Some(tx@),
                Option::None => Option::None,
            },
    )
}

/// Count/iteration consistency: walking a block none of whose counted
/// slots is vacant yields exactly as many transactions as the count says,
/// and the one at each position is the one the indexed lookup reports
/// there.
pub proof fn lemma_block_iteration_matches_count(b: BlockView)
    requires
        forall|i: int| 0 <= i < b.txs.len() ==> b.txs[i] is Some,
    ensures
        yield_seq(b.txs, 0).len() == b.txs.len(),
        forall|i: int| 0 <= i < b.txs.len() ==> yield_seq(b.txs, 0)[i] == b.txs[i]->0,
{
    crate::iter::lemma_full_yield(b.txs, 0);
}

/// An owned, parsed block.
pub struct Block {
    raw: Vec<u8>,
    hash: BlockHash,
    txs: Vec<Option<Transaction>>,
}

impl View for Block {
    type V = BlockView;

    closed spec fn view(&self) -> BlockView {
        BlockView { raw: self.raw@, hash: self.hash@, txs: tx_slots(self.txs@) }
    }
}

/// A borrowed, single-pass walk over a block's transactions: the count is
/// snapshotted once at creation, and each step yields a freshly-owned
/// transaction.
pub struct BlockTransactions<'a> {
    block: &'a Block,
    idx: usize,
    count: usize,
}

impl Block {
    /// A well-formed block carries a 32-byte hash.
    pub open spec fn wf(&self) -> bool {
        self@.hash.len() == 32
    }

    /// Assembles the owning wrapper from what the native side reported of a
    /// successfully parsed block.
    pub fn from_parts(raw: Vec<u8>, hash: BlockHash, txs: Vec<Option<Transaction>>) -> (r: Block)
        requires
            hash.wf(),
        ensures
            r@.raw == raw@,
            r@.hash == hash@,
            r@.txs == tx_slots(txs@),
            r.wf(),
    {
        Block { raw, hash, txs }
    }

    /// An owned copy of the block's serialized bytes.
    pub fn as_bytes(&self) -> (r: Vec<u8>)
        ensures
            r@ == self@.raw,
    {
        copy_bytes(&self.raw)
    }

    /// An owned copy of the block's 32-byte hash.
    pub fn hash(&self) -> (r: BlockHash)
        requires
            self.wf(),
        ensures
            r@ == self@.hash,
            r.wf(),
    {
        self.hash.duplicate()
    }

    /// Whether the block's hash equals the given identifier.
    pub fn hash_matches(&self, other: &BlockHash) -> (r: bool)
        requires
            self.wf(),
            other.wf(),
        ensures
            r <==> self@.hash == other@,
    {
        self.hash.equals(other)
    }

    /// How many transactions the native collection counts, vacant slots
    /// included.
    pub fn transaction_count(&self) -> (r: usize)
        ensures
            r as int == self@.txs.len(),
    {
        self.txs.len()
    }

    /// The indexed lookup of one transaction: a fresh owner of the element
    /// at `idx`, or nothing when the index is out of range or the slot is
    /// vacant.
    pub fn transaction_at(&self, idx: usize) -> (r: Option<Transaction>)
        ensures
            idx < self@.txs.len() ==> match self@.txs[idx as int] {
                Option::Some(t) => r matches Option::Some(tx) && tx@ == t,
                Option::None => r is None,
            },
            idx >= self@.txs.len() ==> r is None,
    {
        if idx < self.txs.len() {
            match &self.txs[idx] {
                Option::Some(t) => Option::Some(t.duplicate()),
                Option::None => Option::None,
            }
        } else {
            Option::None
        }
    }

    /// Starts a borrowed walk over the transactions, snapshotting the count
    /// once.
    pub fn transactions(&self) -> (it: BlockTransactions<'_>)
        ensures
            it.parent() == self@,
            it.cursor() == 0,
            it.wf(),
    {
        let count = self.txs.len();
        BlockTransactions { block: self, idx: 0, count }
    }

    /// A fresh owner of the same block content, as an indexed native lookup
    /// hands out.
    pub(crate) fn duplicate(&self) -> (r: Block)
        ensures
            r@ == self@,
    {
        let mut slots: Vec<Option<Transaction>> = Vec::new();
        let mut i: usize = 0;
        while i < self.txs.len()
            invariant
                i <= self.txs.len(),
                slots@.len() == i,
                forall|j: int| 0 <= j < i ==> tx_slots(slots@)[j] == tx_slots(self.txs@)[j],
            decreases self.txs.len() - i,
        {
            let ghost prev = slots@;
            match &self.txs[i] {
                Option::Some(t) => slots.push(Option::Some(t.duplicate())),
                Option::None => slots.push(Option::None),
            }
            proof {
                assert forall|j: int|
                    0 <= j < i + 1 implies tx_slots(slots@)[j] == tx_slots(self.txs@)[j]
                by {
                    assert(tx_slots(slots@)[j] == match slots@[j] {
                        Option::Some(t) => Option::Some(t@),
                        Option::None => Option::<TransactionView>::None,
                    });
                    assert(tx_slots(self.txs@)[j] == match self.txs@[j] {
                        Option::Some(t) => Option::Some(t@),
                        Option::None => Option::<TransactionView>::None,
                    });
                    if j < i {
                        assert(slots@[j] == prev[j]);
                        assert(tx_slots(prev)[j] == match prev[j] {
                            Option::Some(t) => Option::Some(t@),
                            Option::None => Option::<TransactionView>::None,
                        });
                    }
                }
            }
            i = i + 1;
        }
        proof {
            assert(tx_slots(slots@) =~= tx_slots(self.txs@));
        }
        Block { raw: copy_bytes(&self.raw), hash: self.hash.duplicate(), txs: slots }
    }
}

impl<'a> BlockTransactions<'a> {
    /// The borrowed parent's contents.
    pub closed spec fn parent(&self) -> BlockView {
        self.block@
    }

    /// The cursor's position.
    pub closed spec fn cursor(&self) -> int {
        self.idx as int
    }

    /// The count snapshotted when the walk began.
    pub closed spec fn bound(&self) -> int {
        self.count as int
    }

    /// The walk's well-formedness: the snapshot matches the parent's
    /// collection, and the cursor never passes it.
    pub open spec fn wf(&self) -> bool {
        self.bound() == self.parent().txs.len() && 0 <= self.cursor() <= self.bound()
    }

    /// One step of the walk. While the cursor is under the snapshotted
    /// count, the slot at the cursor is looked up: an occupied slot yields a
    /// freshly-owned transaction and moves the cursor one on; a vacant slot
    /// ends the walk at once. A cursor at the count yields nothing and
    /// stays put.
    pub fn next(&mut self) -> (r: Option<Transaction>)
        requires
            old(self).wf(),
        ensures
            final(self).wf(),
            final(self).parent() == old(self).parent(),
            final(self).bound() == old(self).bound(),
            ({
                let c = old(self).cursor();
                if c < old(self).bound() {
                    match old(self).parent().txs[c] {
                        Option::Some(t) => (r matches Option::Some(tx) && tx@ == t)
                            && final(self).cursor() == c + 1,
                        Option::None => r is None && final(self).cursor() == final(self).bound(),
                    }
                } else {
                    r is None && final(self).cursor() == c
                }
            }),
    {
        if self.idx < self.count {
            let fetched = self.block.transaction_at(self.idx);
            match fetched {
                Option::Some(tx) => {
                    self.idx = self.idx + 1;
                    Option::Some(tx)
                },
                Option::None => {
                    self.idx = self.count;
                    Option::None
                },
            }
        } else {
            Option::None
        }
    }

    /// What the rest of the walk will yield.
    pub open spec fn remaining(&self) -> Seq<TransactionView> {
        yield_seq(self.parent().txs, self.cursor())
    }
}

} // verus!
