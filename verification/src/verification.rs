//! The script-verification entry point's result handling.
//!
//! The native verification call is stateless: it takes a script, an amount,
//! a spending transaction, the spent outputs, an input index and a flag
//! set, and returns a status integer beside the usual error out-slot. The
//! layer settles the pair the same way as every other call: a reported
//! failure wins, and an untouched slot makes the status a plain yes or no.

use vstd::prelude::*;
use crate::error::Error;

verus! {

/// What settling the verification call's outputs yields: the failure from
/// the error slot when one was written, else whether the status integer
/// signalled a valid script/signature combination.
pub open spec fn verification_outcome(status: int, error: Option<Error>) -> Result<bool, Error> {
    match error {
        Option::Some(e) => Result::Err(e),
        Option::None => Result::Ok(status != 0),
    }
}

/// Settles the native verification call's status integer and error slot
/// into one result.
pub fn settle_verification(status: i32, error: Option<Error>) -> (r: Result<bool, Error>)
    ensures
        r == verification_outcome(status as int, error),
{
    match error {
        Option::Some(e) => Result::Err(e),
        Option::None => Result::Ok(status != 0),
    }
}

/// Verification is deterministic: two calls settled from identical native
/// outputs — as a stateless native call produces on identical inputs —
/// yield identical results.
pub proof fn lemma_verification_deterministic(
    status1: int,
    error1: Option<Error>,
    status2: int,
    error2: Option<Error>,
)
    requires
        status1 == status2,
        error1 == error2,
    ensures
        verification_outcome(status1, error1) == verification_outcome(status2, error2),
{
}

} // verus!
