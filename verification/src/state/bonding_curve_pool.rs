//! A bonding curve pool.
use vstd::prelude::*;

use crate::pubkey::Pubkey;

verus! {

/// What a migration reads of a bonding curve pool.
#[derive(Clone, Copy, Debug, PartialEq, Eq)]
pub struct BondingCurvePool {
    /// Token mint
    pub mint: Pubkey,
    /// SOL raised so far (lamports)
    pub real_sol_reserves: u64,
    /// Tokens left unsold
    pub real_token_reserves: u64,
    /// SOL target for migration (lamports)
    pub migration_target: u64,
    /// Sell tax set aside for buybacks (lamports)
    pub buyback_treasury: u64,
    /// Pool has been migrated to Meteora
    pub is_migrated: bool,
    /// PDA bump
    pub bump: u8,
    /// SOL vault bump
    pub sol_vault_bump: u8,
    /// Token vault bump
    pub token_vault_bump: u8,
}

impl BondingCurvePool {
    /// `bonding_sol_vault`
    pub const SOL_VAULT_SEED: [u8; 17] = [
        98, 111, 110, 100, 105, 110, 103, 95, 115, 111, 108, 95, 118, 97, 117, 108, 116,
    ];
}

} // verus!
