//! The platform's configuration.
use vstd::prelude::*;

use crate::pubkey::Pubkey;

verus! {

/// What a migration reads of the platform's configuration.
#[derive(Clone, Copy, Debug, PartialEq, Eq)]
pub struct GlobalConfig {
    /// The one signer that may migrate a pool
    pub admin: Pubkey,
    /// The wallet that receives the platform's fees
    pub platform_wallet: Pubkey,
    /// Migration fee in basis points (100 = 1%)
    pub migration_fee_bps: u16,
    /// While set, nothing migrates
    pub is_paused: bool,
    /// PDA bump
    pub bump: u8,
}

/// What is fixed when the program is deployed.
#[derive(Debug, PartialEq, Eq)]
pub struct Deployment {
    /// The program's own address
    pub program_id: Pubkey,
    /// The address of the Meteora DAMM v2 program
    pub meteora_program_id: Pubkey,
    /// Seed of the configuration account
    pub config_seed: Vec<u8>,
    /// Seed of a bonding curve pool, before its mint
    pub pool_seed: Vec<u8>,
    /// Seed of a bonding curve pool's token vault, before its mint
    pub token_vault_seed: Vec<u8>,
}

} // verus!
