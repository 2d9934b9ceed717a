//! What an instruction asks of other programs.
use vstd::prelude::*;

use crate::pubkey::Pubkey;
use crate::state::bonding_curve_pool::BondingCurvePool;
use crate::state::global_config::Deployment;
use crate::state::presale_pool::PresalePool;

verus! {

/// The first seed of an address that the program signs for.
#[derive(Clone, Copy, Debug, PartialEq, Eq, Structural)]
pub enum SeedTag {
    /// The SOL vault of a bonding curve pool
    BondingSolVault,
    /// The SOL vault of a presale pool
    PresaleSolVault,
    /// A bonding curve pool itself
    BondingPool,
}

impl SeedTag {
    /// The SOL vault that holds the treasury of a pool of the given type.
    pub open spec fn sol_vault_of(pool_type: u8) -> SeedTag {
        if pool_type == 0 {
            SeedTag::BondingSolVault
        } else {
            SeedTag::PresaleSolVault
        }
    }

    /// The bytes of the seed.
    pub open spec fn bytes(self, deployment: Deployment) -> Seq<u8> {
        match self {
            SeedTag::BondingSolVault => BondingCurvePool::SOL_VAULT_SEED@,
            SeedTag::PresaleSolVault => PresalePool::SOL_VAULT_SEED@,
            SeedTag::BondingPool => deployment.pool_seed@,
        }
    }

    /// The SOL vault that holds the treasury of a pool of the given type.
    pub fn sol_vault(pool_type: u8) -> (r: SeedTag)
        ensures
            r == SeedTag::sol_vault_of(pool_type),
    {
        if pool_type == 0 {
            SeedTag::BondingSolVault
        } else {
            SeedTag::PresaleSolVault
        }
    }

    /// The bytes of the seed.
    pub fn to_bytes(self, deployment: &Deployment) -> (r: Vec<u8>)
        ensures
            r@ == self.bytes(*deployment),
    {
        match self {
            SeedTag::BondingSolVault => copy_bytes(&BondingCurvePool::SOL_VAULT_SEED),
            SeedTag::PresaleSolVault => copy_bytes(&PresalePool::SOL_VAULT_SEED),
            SeedTag::BondingPool => copy_bytes(deployment.pool_seed.as_slice()),
        }
    }
}

/// A copy of `bytes`.
fn copy_bytes(bytes: &[u8]) -> (r: Vec<u8>)
    ensures
        r@ == bytes@,
{
    let mut r: Vec<u8> = Vec::new();
    let mut i: usize = 0;
    while i < bytes.len()
        invariant
            i <= bytes@.len(),
            r@ =~= bytes@.take(i as int),
        decreases bytes@.len() - i,
    {
        r.push(bytes[i]);
        i = i + 1;
    }
    assert(bytes@.take(i as int) =~= bytes@);
    r
}

/// The seeds by which the program signs for an address of its own.
#[derive(Clone, Copy, Debug, PartialEq, Eq)]
pub struct SignerSeeds {
    pub tag: SeedTag,
    pub key: Pubkey,
    pub bump: u8,
}

impl SignerSeeds {
    /// The seeds as bytes, the bump last.
    pub open spec fn seeds(self, deployment: Deployment) -> Seq<Seq<u8>> {
        seq![self.tag.bytes(deployment), self.key@, seq![self.bump]]
    }

    /// These seeds give `address` under the program, so that the program signs
    /// for it.
    pub open spec fn sign_for(self, address: Pubkey, deployment: Deployment) -> bool {
        crate::pubkey::program_address(self.seeds(deployment), deployment.program_id@) == Some(
            address@,
        )
    }
}

/// Lamports that move between two accounts, signed for by the program.
#[derive(Clone, Copy, Debug, PartialEq, Eq)]
pub struct SolTransfer {
    pub from: Pubkey,
    pub to: Pubkey,
    pub signer: SignerSeeds,
    pub lamports: u64,
}

/// Tokens that move between two token accounts, signed for by the program.
#[derive(Clone, Copy, Debug, PartialEq, Eq)]
pub struct TokenTransfer {
    pub from: Pubkey,
    pub to: Pubkey,
    pub authority: Pubkey,
    pub signer: SignerSeeds,
    pub amount: u64,
}

/// Tokens that are burned on their holder's signature.
#[derive(Clone, Copy, Debug, PartialEq, Eq)]
pub struct TokenBurn {
    pub mint: Pubkey,
    pub from: Pubkey,
    pub authority: Pubkey,
    pub amount: u64,
}

/// What is read of a token account.
#[derive(Clone, Copy, Debug, PartialEq, Eq)]
pub struct TokenAccount {
    pub key: Pubkey,
    pub mint: Pubkey,
    pub owner: Pubkey,
    pub amount: u64,
}

/// The accounts of a swap on Meteora.
#[derive(Clone, Copy, Debug, PartialEq, Eq)]
pub struct SwapAccounts {
    pub pool: Pubkey,
    pub input_vault: Pubkey,
    pub output_vault: Pubkey,
    pub input_mint: Pubkey,
    pub output_mint: Pubkey,
    pub user_input_token: Pubkey,
    pub user_output_token: Pubkey,
    pub user: Pubkey,
    pub protocol_fee: Pubkey,
    pub input_token_program: Pubkey,
    pub output_token_program: Pubkey,
    pub meteora_program: Pubkey,
}

/// The amounts of a swap on Meteora.
#[derive(Clone, Copy, Debug, PartialEq, Eq)]
pub struct SwapParams {
    pub amount_in: u64,
    pub minimum_amount_out: u64,
}

/// The accounts of a new Meteora pool.
#[derive(Clone, Copy, Debug, PartialEq, Eq)]
pub struct InitializePoolAccounts {
    pub creator: Pubkey,
    pub payer: Pubkey,
    pub position_nft_mint: Pubkey,
    pub position_nft_account: Pubkey,
    pub token_a_mint: Pubkey,
    pub token_b_mint: Pubkey,
    pub token_a_vault: Pubkey,
    pub token_b_vault: Pubkey,
    pub payer_token_a: Pubkey,
    pub payer_token_b: Pubkey,
    pub pool: Pubkey,
    pub pool_config: Pubkey,
    pub position: Pubkey,
    pub position_nft_metadata: Pubkey,
    pub token_program_a: Pubkey,
    pub token_program_b: Pubkey,
    pub associated_token_program: Pubkey,
    pub system_program: Pubkey,
    pub rent: Pubkey,
    pub meteora_program: Pubkey,
}

/// The terms of a new Meteora pool.
#[derive(Clone, Copy, Debug, PartialEq, Eq)]
pub struct InitializePoolParams {
    /// Initial liquidity amount
    pub liquidity: u128,
    /// Square root of the initial price
    pub sqrt_price: u128,
    /// When trading opens, at once where there is none
    pub activation_point: Option<u64>,
}

} // verus!
