//! A presale pool.
use vstd::prelude::*;

use crate::pubkey::Pubkey;

verus! {

/// A pool that sells its token at a fixed supply until a target is raised.
#[derive(Clone, Copy, Debug, PartialEq, Eq)]
pub struct PresalePool {
    /// Pool creator
    pub creator: Pubkey,
    /// Token mint
    pub mint: Pubkey,
    /// SOL target for migration (lamports, 100-10000 SOL)
    pub migration_target: u64,
    /// Total SOL raised so far (lamports)
    pub current_raised: u64,
    /// Total token supply for distribution
    pub total_token_supply: u64,
    /// Max contribution per wallet in basis points (100 = 1%)
    pub max_buy_bps: u16,
    /// Creator pool percentage in basis points (2000 = 20%)
    pub creator_pool_bps: u16,
    /// Presale end time (unix timestamp)
    pub end_time: i64,
    /// Number of unique contributors
    pub num_contributors: u32,
    /// Pool has been migrated to Meteora
    pub is_migrated: bool,
    /// PDA bump
    pub bump: u8,
    /// SOL vault bump
    pub sol_vault_bump: u8,
    /// Token vault bump
    pub token_vault_bump: u8,
}

impl PresalePool {
    /// `presale_pool`
    pub const SEED: [u8; 12] = [
        112, 114, 101, 115, 97, 108, 101, 95, 112, 111, 111, 108,
    ];

    /// `presale_sol_vault`
    pub const SOL_VAULT_SEED: [u8; 17] = [
        112, 114, 101, 115, 97, 108, 101, 95, 115, 111, 108, 95, 118, 97, 117, 108, 116,
    ];

    /// `presale_token_vault`
    pub const TOKEN_VAULT_SEED: [u8; 19] = [
        112, 114, 101, 115, 97, 108, 101, 95, 116, 111, 107, 101, 110, 95, 118, 97, 117, 108,
        116,
    ];

    /// Minimum migration target: 100 SOL in lamports
    pub const MIN_MIGRATION_TARGET: u64 = 100_000_000_000;

    /// Maximum migration target: 10,000 SOL in lamports
    pub const MAX_MIGRATION_TARGET: u64 = 10_000_000_000_000;

    /// The migration target lies between the two bounds.
    pub open spec fn wf(self) -> bool {
        Self::MIN_MIGRATION_TARGET <= self.migration_target <= Self::MAX_MIGRATION_TARGET
    }
}

/// A presale's migration target is valid exactly from 100 SOL to 10,000 SOL, both
/// included, of 10^9 lamports each.
pub proof fn law_presale_target_bounds(pool: PresalePool)
    ensures
        pool.wf() <==> 100 * 1_000_000_000 <= pool.migration_target <= 10_000 * 1_000_000_000,
{
}

} // verus!
