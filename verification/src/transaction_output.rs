//! The transaction-output wrapper: an amount and a locking script.

use vstd::prelude::*;
use crate::script_pubkey::ScriptPubkey;

verus! {

/// What a transaction output holds: its amount and its locking script's
/// bytes.
pub ghost struct OutputView {
    pub amount: int,
    pub script: Seq<u8>,
}

/// An owned transaction output.
pub struct TransactionOutput {
    amount: i64,
    script: ScriptPubkey,
}

impl View for TransactionOutput {
    type V = OutputView;

    closed spec fn view(&self) -> OutputView {
        OutputView { amount: self.amount as int, script: self.script@ }
    }
}

impl TransactionOutput {
    /// Builds an output from an amount and a locking script; the output owns
    /// a copy of the script, independent of the one handed in.
    pub fn new(amount: i64, script_pubkey: &ScriptPubkey) -> (r: TransactionOutput)
        ensures
            r@.amount == amount as int,
            r@.script == script_pubkey@,
    {
        TransactionOutput { amount, script: script_pubkey.duplicate() }
    }

    /// The output's amount.
    pub fn amount(&self) -> (r: i64)
        ensures
            r as int == self@.amount,
    {
        self.amount
    }

    /// A fresh owner of the output's locking script.
    pub fn script_pubkey(&self) -> (r: ScriptPubkey)
        ensures
            r@ == self@.script,
    {
        self.script.duplicate()
    }

    /// A fresh owner of the same output content, as an indexed native
    /// lookup hands out.
    pub(crate) fn duplicate(&self) -> (r: TransactionOutput)
        ensures
            r@ == self@,
    {
        TransactionOutput { amount: self.amount, script: self.script.duplicate() }
    }
}

} // verus!
