//! The host's clock.

use vstd::prelude::*;
use anchor_lang::prelude::{Clock, ProgramError};
use anchor_lang::solana_program::sysvar::Sysvar;

verus! {

/// `ProgramError` of `solana_program`: the error with which the host refuses
/// a request. It is carried through as it came; nothing is claimed of what
/// it holds.
#[verifier::external_type_specification]
#[verifier::external_body]
pub struct ExProgramError(ProgramError);

/// Reads the host's clock with `Clock::get` of `solana_program` and hands
/// back its `unix_timestamp`, or the error with which the host refused.
/// Nothing is claimed of either: the time is whatever the host says, and a
/// host without a clock refuses every time.
#[verifier::external_body]
pub(crate) fn unix_timestamp() -> (now: Result<i64, ProgramError>) {
    match Clock::get() {
        Ok(clock) => Ok(clock.unix_timestamp),
        Err(refusal) => Err(refusal),
    }
}

} // verus!
