//! The platform registry: one record for the whole platform.

use anchor_lang::prelude::Pubkey;
use vstd::prelude::*;

verus! {

/// `solana_program::pubkey::Pubkey`, as `anchor_lang::prelude` exports it: the address that
/// identifies a principal. The library stores and hands on such a value and never looks inside.
#[verifier::external_type_specification]
#[verifier::external_body]
pub struct ExPubkey(Pubkey);

/// The registry of the platform.
///
/// `authority` is set when the registry is created and never changes. `total_markets` counts the
/// markets ever created and never decreases.
#[derive(Debug, Clone, Copy, PartialEq, Eq)]
pub struct Platform {
    pub authority: Pubkey,
    pub bump: u8,
    pub total_markets: u64,
}

/// Creates the registry for `authority`, with no market counted yet.
pub fn initialize_platform(authority: Pubkey, bump: u8) -> (platform: Platform)
    ensures
        platform == (Platform { authority, bump, total_markets: 0 }),
{
    Platform { authority, bump, total_markets: 0 }
}

} // verus!
