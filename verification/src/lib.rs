//! Ownership-checked binding layer over a native consensus engine.
//!
//! The native engine owns the parsed blocks, transactions, outputs and
//! scripts; this crate models what the binding layer reads of them as plain
//! values, and verifies the layer's own obligations: converting the native
//! out-parameter error convention into structured results, snapshot-bounded
//! iteration that treats a vacant slot as end of sequence, copying native
//! buffers into owned ones, and lookup of a block by its hash.

pub mod block;
pub mod bytes;
pub mod chain;
pub mod channel;
pub mod error;
pub mod hash;
pub mod iter;
pub mod script_pubkey;
pub mod transaction;
pub mod transaction_output;
pub mod verification;

pub use block::Block;
pub use bytes::owned_bytes;
pub use chain::Chain;
pub use channel::settle;
pub use error::Error;
pub use hash::BlockHash;
pub use script_pubkey::ScriptPubkey;
pub use transaction::Transaction;
pub use transaction_output::TransactionOutput;
pub use verification::settle_verification;
