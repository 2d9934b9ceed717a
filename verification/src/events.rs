//! What is announced when an instruction succeeds.
use vstd::prelude::*;

use crate::pubkey::Pubkey;

verus! {

/// A buyback was executed.
#[derive(Clone, Copy, Debug, PartialEq, Eq)]
pub struct BuybackExecuted {
    pub pool: Pubkey,
    pub sol_spent: u64,
    pub tokens_received: u64,
    /// The code of the buyback's mode
    pub mode: u8,
    pub timestamp: i64,
}

/// A pool was migrated.
#[derive(Clone, Copy, Debug, PartialEq, Eq)]
pub struct MigrationCompleted {
    pub pool: Pubkey,
    /// Pool type (0 = bonding, 1 = presale)
    pub pool_type: u8,
    pub meteora_pool: Pubkey,
    pub liquidity_sol: u64,
    pub liquidity_tokens: u64,
    pub platform_fee: u64,
    pub buyback_allocation: u64,
    pub timestamp: i64,
}

} // verus!
