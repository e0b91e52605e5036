//! The chain wrapper: an ordered sequence of blocks, indexable by position
//! and by hash.

use vstd::prelude::*;
use crate::block::{Block, BlockView};
use crate::hash::BlockHash;
use crate::iter::yield_seq;

verus! {

/// What a chain holds: its block slots as the native collection reports
/// them (a vacant slot stands for a null handle).
pub ghost struct ChainView {
    pub blocks: Seq<Option<BlockView>>,
}

/// The contents of a sequence of block slots.
pub open spec fn block_slots(s: Seq<Option<Block>>) -> Seq<Option<BlockView>> {
    s.map_values(
        |b: Option<Block>|
            match b {
                Option::Some(blk) => Option::Some(blk@),
                Option::None => Option::None,
            },
    )
}

/// Whether position `i` of the chain holds a block whose hash is `h`.
pub open spec fn found_at(c: ChainView, h: Seq<u8>, i: int) -> bool {
    &&& 0 <= i < c.blocks.len()
    &&& c.blocks[i] matches Option::Some(b) && b.hash == h
}

/// A well-formed chain: every block it holds carries a 32-byte hash.
pub open spec fn chain_wf(c: ChainView) -> bool {
    forall|i: int|
        0 <= i < c.blocks.len() ==> (#[trigger] c.blocks[i] matches Option::Some(b) ==> b.hash.len()
            == 32)
}

/// An owned chain of blocks.
pub struct Chain {
    blocks: Vec<Option<Block>>,
}

impl View for Chain {
    type V = ChainView;

    closed spec fn view(&self) -> ChainView {
        ChainView { blocks: block_slots(self.blocks@) }
    }
}

/// A borrowed, single-pass walk over a chain's blocks: the count is
/// snapshotted once at creation, and each step yields a freshly-owned
/// block.
pub struct ChainBlocks<'a> {
    chain: &'a Chain,
    idx: usize,
    count: usize,
}

impl Chain {
    /// A fresh, empty chain.
    pub fn new() -> (r: Chain)
        ensures
            r@.blocks.len() == 0,
            chain_wf(r@),
    {
        Chain { blocks: Vec::new() }
    }

    /// Appends one slot to the chain, as the native collection grows: a
    /// block, or a vacancy standing for a null handle.
    pub fn push(&mut self, block: Option<Block>)
        requires
            block matches Option::Some(b) ==> b.wf(),
        ensures
            final(self)@.blocks == old(self)@.blocks + seq![
                match block {
                    Option::Some(b) => Option::Some(b@),
                    Option::None => Option::None,
                },
            ],
            chain_wf(old(self)@) ==> chain_wf(final(self)@),
    {
        let ghost prev = self.blocks@;
        let ghost pushed = block;
        self.blocks.push(block);
        proof {
            assert forall|j: int|
                0 <= j < self.blocks@.len() implies #[trigger] block_slots(self.blocks@)[j] == (
            block_slots(prev) + seq![
                match pushed {
                    Option::Some(b) => Option::Some(b@),
                    Option::None => Option::None,
                },
            ])[j] by {
                assert(block_slots(self.blocks@)[j] == match self.blocks@[j] {
                    Option::Some(b) => Option::Some(b@),
                    Option::None => Option::<BlockView>::None,
                });
                if j < prev.len() {
                    assert(self.blocks@[j] == prev[j]);
                    assert(block_slots(prev)[j] == match prev[j] {
                        Option::Some(b) => Option::Some(b@),
                        Option::None => Option::<BlockView>::None,
                    });
                }
            }
            assert(block_slots(self.blocks@) =~= block_slots(prev) + seq![
                match pushed {
                    Option::Some(b) => Option::Some(b@),
                    Option::None => Option::None,
                },
            ]);
        }
    }

    /// How many blocks the native collection counts, vacant slots
    /// included.
    pub fn block_count(&self) -> (r: usize)
        ensures
            r as int == self@.blocks.len(),
    {
        self.blocks.len()
    }

    /// The indexed lookup of one block: a fresh owner of the element at
    /// `idx`, or nothing when the index is out of range or the slot is
    /// vacant.
    pub fn block_at(&self, idx: usize) -> (r: Option<Block>)
        ensures
            idx < self@.blocks.len() ==> match self@.blocks[idx as int] {
                Option::Some(b) => r matches Option::Some(blk) && blk@ == b,
                Option::None => r is None,
            },
            idx >= self@.blocks.len() ==> r is None,
    {
        if idx < self.blocks.len() {
            proof {
                assert(self@.blocks[idx as int] == match self.blocks@[idx as int] {
                    Option::Some(b) => Option::Some(b@),
                    Option::None => Option::<BlockView>::None,
                });
            }
            match &self.blocks[idx] {
                Option::Some(b) => Option::Some(b.duplicate()),
                Option::None => Option::None,
            }
        } else {
            Option::None
        }
    }

    /// Starts a borrowed walk over the blocks, snapshotting the count
    /// once.
    pub fn blocks(&self) -> (it: ChainBlocks<'_>)
        ensures
            it.parent() == self@,
            it.cursor() == 0,
            it.wf(),
    {
        let count = self.blocks.len();
        ChainBlocks { chain: self, idx: 0, count }
    }

    /// Looks a block up by its hash: the first position holding a block
    /// with that hash, or the not-found sentinel `-1`, distinguishable from
    /// every position.
    pub fn find(&self, hash: &BlockHash) -> (r: isize)
        requires
            chain_wf(self@),
            hash.wf(),
            self@.blocks.len() <= isize::MAX as int,
        ensures
            r >= 0 ==> found_at(self@, hash@, r as int) && (forall|j: int|
                0 <= j < r ==> !found_at(self@, hash@, j)),
            r < 0 ==> r == -1 && (forall|j: int| !found_at(self@, hash@, j)),
    {
        let mut i: usize = 0;
        while i < self.blocks.len()
            invariant
                chain_wf(self@),
                hash.wf(),
                self@.blocks.len() <= isize::MAX as int,
                i <= self.blocks.len(),
                self@.blocks.len() == self.blocks@.len(),
                forall|j: int| 0 <= j < i ==> !found_at(self@, hash@, j),
            decreases self.blocks.len() - i,
        {
            proof {
                assert(self@.blocks[i as int] == match self.blocks@[i as int] {
                    Option::Some(b) => Option::Some(b@),
                    Option::None => Option::<BlockView>::None,
                });
            }
            match &self.blocks[i] {
                Option::Some(b) => {
                    if b.hash_matches(hash) {
                        return i as isize;
                    }
                },
                Option::None => {},
            }
            proof {
                assert(!found_at(self@, hash@, i as int));
            }
            i = i + 1;
        }
        proof {
            assert forall|j: int| !found_at(self@, hash@, j) by {
                if 0 <= j < self@.blocks.len() {
                    assert(!found_at(self@, hash@, j));
                }
            }
        }
        -1
    }
}

impl Default for Chain {
    /// A fresh, empty chain.
    fn default() -> (r: Chain)
        ensures
            r@.blocks.len() == 0,
            chain_wf(r@),
    {
        Chain::new()
    }
}

/// Every block of a chain without repeated hashes is found at its own
/// position: any result meeting `find`'s contract for the hash of the block
/// at position `i` is `i` itself.
pub proof fn lemma_find_locates_each_block(c: ChainView, r: int, i: int)
    requires
        forall|j: int, k: int|
            #![trigger c.blocks[j], c.blocks[k]]
            0 <= j < k < c.blocks.len() && c.blocks[j] is Some && c.blocks[k] is Some
                ==> c.blocks[j]->0.hash != c.blocks[k]->0.hash,
        0 <= i < c.blocks.len(),
        c.blocks[i] is Some,
        r >= 0 ==> found_at(c, c.blocks[i]->0.hash, r) && (forall|j: int|
            0 <= j < r ==> !found_at(c, c.blocks[i]->0.hash, j)),
        r < 0 ==> forall|j: int| !found_at(c, c.blocks[i]->0.hash, j),
    ensures
        r == i,
{
    let h = c.blocks[i]->0.hash;
    assert(found_at(c, h, i));
    if r < 0 {
        assert(!found_at(c, h, i));
    } else if r < i {
        assert(found_at(c, h, r));
        assert(c.blocks[r] is Some && c.blocks[i] is Some);
    } else if r > i {
        assert(!found_at(c, h, i));
    }
}

impl<'a> ChainBlocks<'a> {
    /// The borrowed parent's contents.
    pub closed spec fn parent(&self) -> ChainView {
        self.chain@
    }

    /// The cursor's position.
    pub closed spec fn cursor(&self) -> int {
        self.idx as int
    }

    /// The count snapshotted when the walk began.
    pub closed spec fn bound(&self) -> int {
        self.count as int
    }

    /// The walk's well-formedness: the snapshot matches the parent's
    /// collection, and the cursor never passes it.
    pub open spec fn wf(&self) -> bool {
        self.bound() == self.parent().blocks.len() && 0 <= self.cursor() <= self.bound()
    }

    /// One step of the walk. While the cursor is under the snapshotted
    /// count, the slot at the cursor is looked up: an occupied slot yields
    /// a freshly-owned block and moves the cursor one on; a vacant slot
    /// ends the walk at once. A cursor at the count yields nothing and
    /// stays put.
    pub fn next(&mut self) -> (r: Option<Block>)
        requires
            old(self).wf(),
        ensures
            final(self).wf(),
            final(self).parent() == old(self).parent(),
            final(self).bound() == old(self).bound(),
            ({
                let c = old(self).cursor();
                if c < old(self).bound() {
                    match old(self).parent().blocks[c] {
                        Option::Some(b) => (r matches Option::Some(blk) && blk@ == b)
                            && final(self).cursor() == c + 1,
                        Option::None => r is None && final(self).cursor() == final(self).bound(),
                    }
                } else {
                    r is None && final(self).cursor() == c
                }
            }),
    {
        if self.idx < self.count {
            let fetched = self.chain.block_at(self.idx);
            match fetched {
                Option::Some(blk) => {
                    self.idx = self.idx + 1;
                    Option::Some(blk)
                },
                Option::None => {
                    self.idx = self.count;
                    Option::None
                },
            }
        } else {
            Option::None
        }
    }

    /// What the rest of the walk will yield.
    pub open spec fn remaining(&self) -> Seq<BlockView> {
        yield_seq(self.parent().blocks, self.cursor())
    }
}

} // verus!
