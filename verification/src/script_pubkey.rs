//! The locking-script wrapper.
//!
//! The native engine owns a parsed script object; what the layer reads of it
//! is its serialized bytes, so the wrapper owns exactly those.

use vstd::prelude::*;
use crate::bytes::copy_bytes;

verus! {

/// An owned locking script.
pub struct ScriptPubkey {
    bytes: Vec<u8>,
}

impl View for ScriptPubkey {
    type V = Seq<u8>;

    closed spec fn view(&self) -> Seq<u8> {
        self.bytes@
    }
}

impl ScriptPubkey {
    /// Builds an owning script wrapper from raw script bytes.
    pub fn new(raw: Vec<u8>) -> (r: ScriptPubkey)
        ensures
            r@ == raw@,
    {
        ScriptPubkey { bytes: raw }
    }

    /// An owned copy of the script's serialized bytes.
    pub fn as_bytes(&self) -> (r: Vec<u8>)
        ensures
            r@ == self@,
    {
        copy_bytes(&self.bytes)
    }

    /// A fresh owner of the same script content, as the native side hands
    /// out when a script is looked up from an output.
    pub(crate) fn duplicate(&self) -> (r: ScriptPubkey)
        ensures
            r@ == self@,
    {
        ScriptPubkey { bytes: copy_bytes(&self.bytes) }
    }
}

} // verus!
