//! The error channel.
//!
//! Every fallible native call returns a primary value and writes an error
//! handle through an out-parameter slot on failure, leaving the slot null on
//! success. The layer inspects the slot first: a reported failure takes
//! precedence over whatever primary value the call also produced, and the
//! primary value is trusted only when the slot stayed null.

use vstd::prelude::*;
use crate::error::Error;

verus! {

/// What settling a native call's two outputs yields: the failure from the
/// error slot when one was written, else the primary value.
pub open spec fn settled<T>(value: T, error: Option<Error>) -> Result<T, Error> {
    match error {
        Option::Some(e) => Result::Err(e),
        Option::None => Result::Ok(value),
    }
}

/// Settles a native call's two outputs into one result: the error slot is
/// inspected first, and a failure written there discards the primary value,
/// even one that looked usable.
pub fn settle<T>(value: T, error: Option<Error>) -> (r: Result<T, Error>)
    ensures
        r == settled(value, error),
{
    match error {
        Option::Some(e) => Result::Err(e),
        Option::None => Result::Ok(value),
    }
}

/// A failure reported through the error slot always wins: whatever primary
/// value the call produced, the settled result is that failure, never a
/// usable success value.
pub proof fn lemma_error_precedence<T>(value: T, e: Error)
    ensures
        settled(value, Option::Some(e)) == Result::<T, Error>::Err(e),
        !(settled(value, Option::Some(e)) is Ok),
{
}

/// A call whose error slot stayed null succeeds with exactly the primary
/// value it produced.
pub proof fn lemma_success_is_primary<T>(value: T)
    ensures
        settled(value, Option::<Error>::None) == Result::<T, Error>::Ok(value),
{
}

} // verus!
