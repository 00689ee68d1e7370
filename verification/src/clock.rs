//! The chain's clock.

use anchor_lang::prelude::{Clock, ProgramError, SolanaSysvar};
use vstd::prelude::*;

verus! {

/// `solana_program::program_error::ProgramError`, as `anchor_lang::prelude` exports it: the
/// reason for which the runtime refuses to serve a program. The library reads nothing in it.
#[verifier::external_type_specification]
#[verifier::external_body]
pub struct ExProgramError(ProgramError);

/// The current Unix time in seconds, from `Clock::get` (the method `get` of
/// `solana_program::sysvar::Sysvar` on `solana_program::sysvar::clock::Clock`).
///
/// Nothing is claimed of the result: the time is whatever the runtime says, and outside a
/// running program the call fails.
#[verifier::external_body]
pub(crate) fn unix_timestamp() -> (now: Result<i64, ProgramError>) {
    Clock::get().map(|clock| clock.unix_timestamp)
}

} // verus!
