//! The time source of the ledger.

use anchor_lang::prelude::{Clock, ProgramError, SolanaSysvar};
use vstd::prelude::*;

verus! {

/// The error with which the runtime refuses a request; the ledger only passes
/// it on.
#[verifier::external_type_specification]
#[verifier::external_body]
pub struct ExProgramError(ProgramError);

/// Reads the runtime's clock with `Clock::get()` and hands back its
/// `unix_timestamp`, or the error with which the runtime refused.
///
/// Nothing is claimed of the reading: it is whatever the runtime says, and two
/// readings need not agree.
#[verifier::external_body]
pub(crate) fn unix_timestamp() -> (reading: Result<i64, ProgramError>) {
    match Clock::get() {
        Ok(clock) => Ok(clock.unix_timestamp),
        Err(error) => Err(error),
    }
}

} // verus!
