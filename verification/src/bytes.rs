//! Copying native byte buffers into owned ones.
//!
//! A native call that reports a buffer hands back a pointer and a length
//! whose validity ends at the next call on the same handle, so the layer
//! copies the bytes out at once. An absent buffer is not a fault: it stands
//! for the empty sequence.

use vstd::prelude::*;

verus! {

/// Returns a fresh owned copy of the given bytes.
pub fn copy_bytes(v: &Vec<u8>) -> (r: Vec<u8>)
    ensures
        r@ == v@,
{
    let mut r: Vec<u8> = Vec::new();
    let mut i: usize = 0;
    while i < v.len()
        invariant
            i <= v.len(),
            r@ == v@.subrange(0, i as int),
        decreases v.len() - i,
    {
        r.push(v[i]);
        proof {
            assert(r@ =~= v@.subrange(0, i + 1 as int));
        }
        i = i + 1;
    }
    proof {
        assert(r@ =~= v@);
    }
    r
}

/// Settles a buffer report from the native side: a buffer that was absent
/// (a null pointer, or nothing to report) yields the empty owned sequence,
/// never a fault; a present buffer is handed on as the owned copy.
pub fn owned_bytes(buf: Option<Vec<u8>>) -> (r: Vec<u8>)
    ensures
        match buf {
            Option::None => r@ == Seq::<u8>::empty(),
            Option::Some(b) => r@ == b@,
        },
{
    match buf {
        Option::None => Vec::new(),
        Option::Some(b) => b,
    }
}

} // verus!
