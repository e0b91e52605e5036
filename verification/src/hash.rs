//! The fixed 32-byte block identifier.
//!
//! Unlike the owning wrappers, a block hash is a plain value: it holds its
//! bytes directly and needs no release.

use vstd::prelude::*;
use crate::bytes::copy_bytes;

verus! {

/// A fixed 32-byte block identifier.
pub struct BlockHash {
    data: Vec<u8>,
}

impl View for BlockHash {
    type V = Seq<u8>;

    closed spec fn view(&self) -> Seq<u8> {
        self.data@
    }
}

impl BlockHash {
    /// A well-formed identifier holds exactly 32 bytes.
    pub open spec fn wf(&self) -> bool {
        self@.len() == 32
    }

    /// Builds an identifier from its 32 raw bytes.
    pub fn new(raw: Vec<u8>) -> (r: BlockHash)
        requires
            raw@.len() == 32,
        ensures
            r@ == raw@,
            r.wf(),
    {
        BlockHash { data: raw }
    }

    /// An owned copy of the identifier's bytes.
    pub fn as_bytes(&self) -> (r: Vec<u8>)
        ensures
            r@ == self@,
    {
        copy_bytes(&self.data)
    }

    /// Whether two identifiers hold the same 32 bytes.
    pub fn equals(&self, other: &BlockHash) -> (r: bool)
        requires
            self.wf(),
            other.wf(),
        ensures
            r <==> self@ == other@,
    {
        let mut i: usize = 0;
        while i < 32
            invariant
                i <= 32,
                self.wf(),
                other.wf(),
                forall|j: int| 0 <= j < i ==> self@[j] == other@[j],
            decreases 32 - i,
        {
            if self.data[i] != other.data[i] {
                return false;
            }
            i = i + 1;
        }
        proof {
            assert(self@ =~= other@);
        }
        true
    }

    /// A fresh identifier holding the same bytes.
    pub(crate) fn duplicate(&self) -> (r: BlockHash)
        ensures
            r@ == self@,
    {
        BlockHash { data: copy_bytes(&self.data) }
    }
}

} // verus!
