//! Moving a bonding curve pool that reached its target to Meteora.
//!
//! One migration is a sequence of steps, as a buyback is: it splits the reserves,
//! has the initial price of the new pool worked out, then asks for the transfers and
//! the new pool, and ends with an announcement.
use vstd::prelude::*;

use crate::cpi::{
    InitializePoolAccounts, InitializePoolParams, SeedTag, SignerSeeds, SolTransfer, TokenAccount,
    TokenTransfer,
};
use crate::errors::{InstructionError, LaunchpadError};
use crate::events::MigrationCompleted;
use crate::fees::{apply_bps, calculate_migration_fee};
use crate::pubkey::{
    address_with_bump, find_address, is_native_mint, tag_address_with_bump, Pubkey,
};
use crate::state::bonding_curve_pool::BondingCurvePool;
use crate::state::buyback::BuybackState;
use crate::state::global_config::{Deployment, GlobalConfig};

verus! {

/// The share of the reserves, SOL and tokens alike, that becomes liquidity (80%).
pub const LIQUIDITY_BPS: u16 = 8000;

/// The share of the SOL reserves that is set aside for buybacks (18%).
pub const BUYBACK_BPS: u16 = 1800;

/// The accounts of a migration, with what is read of them.
#[derive(Clone, Copy, Debug, PartialEq, Eq)]
pub struct MigrateBonding {
    /// Only the admin can trigger a migration
    pub payer: Pubkey,
    /// Where the configuration is stored
    pub config_key: Pubkey,
    pub config: GlobalConfig,
    /// Where the pool is stored
    pub pool_key: Pubkey,
    pub pool: BondingCurvePool,
    /// SOL vault
    pub sol_vault: Pubkey,
    /// Token vault
    pub token_vault: TokenAccount,
    /// Where the new buyback state is stored
    pub buyback_state: Pubkey,
    /// Platform wallet receives migration fee
    pub platform_wallet: Pubkey,
    /// Meteora DAMM v2 program
    pub meteora_program: Pubkey,
    /// Meteora pool account (initialized by Meteora)
    pub meteora_pool: Pubkey,
    /// Meteora pool config (fee/scheduler config)
    pub meteora_pool_config: Pubkey,
    /// Position NFT mint
    pub position_nft_mint: Pubkey,
    /// Position NFT token account
    pub position_nft_account: Pubkey,
    /// Position state account
    pub position_account: Pubkey,
    /// Position NFT metadata
    pub position_nft_metadata: Pubkey,
    /// Meteora token vault A (SOL/WSOL side)
    pub meteora_vault_a: Pubkey,
    /// Meteora token vault B (token side)
    pub meteora_vault_b: Pubkey,
    /// Mint of wrapped SOL
    pub wsol_mint: Pubkey,
    /// Token mint of the pool
    pub token_mint: Pubkey,
    /// Payer's WSOL token account (for SOL deposit)
    pub payer_wsol_account: Pubkey,
    /// Payer's token B account (for token deposit)
    pub payer_token_account: Pubkey,
    pub token_program: Pubkey,
    pub associated_token_program: Pubkey,
    pub system_program: Pubkey,
    pub rent: Pubkey,
}

/// What the seeds of a migration's accounts give.
#[derive(Clone, Copy, Debug, PartialEq, Eq)]
pub struct MigrationAddresses {
    pub buyback_state: Option<(Pubkey, u8)>,
    pub config: Option<Pubkey>,
    pub pool: Option<Pubkey>,
    pub sol_vault: Option<Pubkey>,
    pub token_vault: Option<Pubkey>,
}

/// The bytes of `MigrationAddresses`.
pub struct AddressBytes {
    pub buyback_state: Option<(Seq<u8>, u8)>,
    pub config: Option<Seq<u8>>,
    pub pool: Option<Seq<u8>>,
    pub sol_vault: Option<Seq<u8>>,
    pub token_vault: Option<Seq<u8>>,
}

impl View for MigrationAddresses {
    type V = AddressBytes;

    open spec fn view(&self) -> AddressBytes {
        AddressBytes {
            buyback_state: crate::pubkey::key_and_bump(self.buyback_state),
            config: crate::pubkey::key_bytes(self.config),
            pool: crate::pubkey::key_bytes(self.pool),
            sol_vault: crate::pubkey::key_bytes(self.sol_vault),
            token_vault: crate::pubkey::key_bytes(self.token_vault),
        }
    }
}

/// How a pool's reserves are divided.
#[derive(Clone, Copy, Debug, PartialEq, Eq)]
pub struct MigrationSplit {
    /// Lamports for the platform wallet
    pub migration_fee: u64,
    /// Lamports for the new pool
    pub liquidity_sol: u64,
    /// Lamports for buybacks, the sell tax included
    pub buyback_sol: u64,
    /// Tokens for the new pool
    pub liquidity_tokens: u64,
}

/// What a migration stores, and what it asks of other programs. A transfer of nothing is
/// left out; `calls` gives the order.
#[derive(Clone, Copy, Debug, PartialEq, Eq)]
pub struct MigrationPlan {
    /// The pool after the migration
    pub pool: BondingCurvePool,
    /// The new buyback state
    pub buyback_state: BuybackState,
    /// The migration fee, to the platform wallet
    pub fee: Option<SolTransfer>,
    /// The SOL for liquidity, to the payer's WSOL account
    pub liquidity_sol: Option<SolTransfer>,
    /// The tokens for liquidity, to the payer's token account
    pub liquidity_tokens: Option<TokenTransfer>,
    /// The accounts of the new Meteora pool
    pub pool_accounts: InitializePoolAccounts,
    /// The terms of the new Meteora pool
    pub pool_params: InitializePoolParams,
}

/// One call of a migration to another program.
#[derive(Clone, Copy, Debug, PartialEq, Eq)]
pub enum MigrationCall {
    /// Transfer SOL.
    TransferSol(SolTransfer),
    /// Transfer tokens.
    TransferTokens(TokenTransfer),
    /// Create the Meteora pool with its initial liquidity.
    CreatePool(InitializePoolAccounts, InitializePoolParams),
}

/// How far a migration has come.
#[derive(Clone, Copy, Debug, PartialEq, Eq)]
pub enum MigrationPhase {
    /// Nothing has happened yet.
    Idle,
    /// The reserves are divided; the initial price is to be worked out. The number
    /// is the bump of the buyback state.
    Pricing(MigrationSplit, u8),
    /// The plan is to be carried out.
    Settling(MigrationSplit),
    /// The migration is over.
    Complete,
}

/// What happened since the last step.
#[derive(Clone, Copy, Debug, PartialEq, Eq)]
pub enum MigrationEvent {
    /// The migration starts.
    Begin,
    /// The square root of the initial price is this.
    Priced { sqrt_price: u128 },
    /// The plan was carried out, and the time is this (unix timestamp).
    Settled { timestamp: i64 },
}

/// What is to be done next.
#[derive(Clone, Copy, Debug, PartialEq, Eq)]
pub enum MigrationAction {
    /// Work out the square root of the initial price of a pool with these reserves,
    /// then answer with `Priced`.
    QuotePrice { liquidity_sol: u64, liquidity_tokens: u64 },
    /// Store what the plan stores, make its calls in their order, read the clock, then
    /// answer with `Settled`.
    Settle(MigrationPlan),
    /// Announce the event: the migration is over.
    Finish(MigrationCompleted),
}

/// What one step gives.
pub type MigrationOutcome = Result<(MigrationPhase, MigrationAction), InstructionError>;

/// The call for a transfer of SOL, where there is one.
pub open spec fn sol_call(transfer: Option<SolTransfer>) -> Seq<MigrationCall> {
    match transfer {
        Some(transfer) => seq![MigrationCall::TransferSol(transfer)],
        None => Seq::empty(),
    }
}

/// The call for a transfer of tokens, where there is one.
pub open spec fn token_call(transfer: Option<TokenTransfer>) -> Seq<MigrationCall> {
    match transfer {
        Some(transfer) => seq![MigrationCall::TransferTokens(transfer)],
        None => Seq::empty(),
    }
}

impl MigrationPlan {
    /// The calls to other programs, in order: the fee, the SOL and the tokens for
    /// liquidity, as far as there are any, and the new pool last.
    pub open spec fn calls(self) -> Seq<MigrationCall> {
        sol_call(self.fee) + sol_call(self.liquidity_sol) + token_call(self.liquidity_tokens)
            + seq![MigrationCall::CreatePool(self.pool_accounts, self.pool_params)]
    }

    /// The calls to other programs, in the order in which they are to be made.
    pub fn to_calls(&self) -> (r: Vec<MigrationCall>)
        ensures
            r@ == self.calls(),
    {
        let mut calls: Vec<MigrationCall> = Vec::new();
        if let Some(transfer) = self.fee {
            calls.push(MigrationCall::TransferSol(transfer));
        }
        assert(calls@ =~= sol_call(self.fee));
        if let Some(transfer) = self.liquidity_sol {
            calls.push(MigrationCall::TransferSol(transfer));
        }
        assert(calls@ =~= sol_call(self.fee) + sol_call(self.liquidity_sol));
        if let Some(transfer) = self.liquidity_tokens {
            calls.push(MigrationCall::TransferTokens(transfer));
        }
        calls.push(MigrationCall::CreatePool(self.pool_accounts, self.pool_params));
        assert(calls@ =~= self.calls());
        calls
    }
}

/// The migration fee of a pool.
pub open spec fn fee_of(pool: BondingCurvePool, config: GlobalConfig) -> int {
    crate::fees::bps_of(pool.real_sol_reserves as int, config.migration_fee_bps as int)
}

/// The SOL of a pool that becomes liquidity.
pub open spec fn liquidity_sol_of(pool: BondingCurvePool) -> int {
    crate::fees::bps_of(pool.real_sol_reserves as int, LIQUIDITY_BPS as int)
}

/// The SOL of a pool that is set aside for buybacks.
pub open spec fn buyback_sol_of(pool: BondingCurvePool) -> int {
    crate::fees::bps_of(pool.real_sol_reserves as int, BUYBACK_BPS as int) + pool.buyback_treasury
}

/// The tokens of a pool that become liquidity.
pub open spec fn liquidity_tokens_of(pool: BondingCurvePool) -> int {
    crate::fees::bps_of(pool.real_token_reserves as int, LIQUIDITY_BPS as int)
}

/// Why the reserves cannot be divided. The earlier reason wins.
pub open spec fn split_refusal(pool: BondingCurvePool, config: GlobalConfig) -> Option<
    LaunchpadError,
> {
    if fee_of(pool, config) > u64::MAX {
        Some(LaunchpadError::CastOverflow)
    } else if fee_of(pool, config) > pool.real_sol_reserves {
        Some(LaunchpadError::MathUnderflow)
    } else if buyback_sol_of(pool) > u64::MAX {
        Some(LaunchpadError::MathOverflow)
    } else {
        None
    }
}

/// How the reserves are divided, where they can be.
pub open spec fn split_of(pool: BondingCurvePool, config: GlobalConfig) -> MigrationSplit {
    MigrationSplit {
        migration_fee: fee_of(pool, config) as u64,
        liquidity_sol: liquidity_sol_of(pool) as u64,
        buyback_sol: buyback_sol_of(pool) as u64,
        liquidity_tokens: liquidity_tokens_of(pool) as u64,
    }
}

/// Divides a pool's reserves: the migration fee, 80% of the SOL and of the unsold
/// tokens for liquidity, and 18% of the SOL with the sell tax for buybacks.
pub fn split_reserves(pool: &BondingCurvePool, config: &GlobalConfig) -> (r: Result<
    MigrationSplit,
    LaunchpadError,
>)
    ensures
        match split_refusal(*pool, *config) {
            Some(error) => r == Err::<MigrationSplit, _>(error),
            None => r == Ok::<_, LaunchpadError>(split_of(*pool, *config)) && r->Ok_0.migration_fee
                == fee_of(*pool, *config) && r->Ok_0.liquidity_sol == liquidity_sol_of(*pool)
                && r->Ok_0.buyback_sol == buyback_sol_of(*pool) && r->Ok_0.liquidity_tokens
                == liquidity_tokens_of(*pool),
        },
{
    let total_sol: u64 = pool.real_sol_reserves;
    let migration_fee: u64 = match calculate_migration_fee(total_sol, config.migration_fee_bps) {
        Err(error) => {
            return Err(error);
        },
        Ok((fee, _)) => fee,
    };
    let liquidity_sol: u64 = match apply_bps(total_sol, LIQUIDITY_BPS) {
        Err(error) => {
            return Err(error);
        },
        Ok(share) => share,
    };
    let base_buyback_sol: u64 = match apply_bps(total_sol, BUYBACK_BPS) {
        Err(error) => {
            return Err(error);
        },
        Ok(share) => share,
    };
    let buyback_sol: u64 = match base_buyback_sol.checked_add(pool.buyback_treasury) {
        None => {
            return Err(LaunchpadError::MathOverflow);
        },
        Some(sum) => sum,
    };
    let liquidity_tokens: u64 = match apply_bps(pool.real_token_reserves, LIQUIDITY_BPS) {
        Err(error) => {
            return Err(error);
        },
        Ok(share) => share,
    };
    Ok(MigrationSplit { migration_fee, liquidity_sol, buyback_sol, liquidity_tokens })
}

/// `address` is there, and `key` stands at it.
pub open spec fn stands_at(key: Pubkey, address: Option<Seq<u8>>) -> bool {
    address == Some(key@)
}

/// Whether `address` is there and `key` stands at it.
fn is_at(key: &Pubkey, address: &Option<Pubkey>) -> (r: bool)
    ensures
        r == stands_at(*key, crate::pubkey::key_bytes(*address)),
{
    match address {
        None => false,
        Some(address) => {
            proof {
                if address@ == key@ {
                    crate::pubkey::lemma_key_is_its_bytes(*address, *key);
                }
            }
            *key == *address
        },
    }
}

impl MigrateBonding {
    /// What the seeds of the accounts give, as bytes.
    pub open spec fn addresses(self, deployment: Deployment) -> AddressBytes {
        let program_id = deployment.program_id@;
        AddressBytes {
            buyback_state: crate::pubkey::canonical_address(
                seq![BuybackState::SEED@, self.pool_key@],
                program_id,
            ),
            config: crate::pubkey::program_address(
                seq![deployment.config_seed@, seq![self.config.bump]],
                program_id,
            ),
            pool: crate::pubkey::program_address(
                self.pool_signer().seeds(deployment),
                program_id,
            ),
            sol_vault: crate::pubkey::program_address(
                self.sol_vault_signer().seeds(deployment),
                program_id,
            ),
            token_vault: crate::pubkey::program_address(
                seq![
                    deployment.token_vault_seed@,
                    self.pool.mint@,
                    seq![self.pool.token_vault_bump],
                ],
                program_id,
            ),
        }
    }

    /// The seeds by which the program signs for the pool.
    pub open spec fn pool_signer(self) -> SignerSeeds {
        SignerSeeds { tag: SeedTag::BondingPool, key: self.pool.mint, bump: self.pool.bump }
    }

    /// The seeds by which the program signs for the SOL vault.
    pub open spec fn sol_vault_signer(self) -> SignerSeeds {
        SignerSeeds {
            tag: SeedTag::BondingSolVault,
            key: self.pool.mint,
            bump: self.pool.sol_vault_bump,
        }
    }

    /// Why the accounts are refused, where `found` is what their seeds give. The
    /// earlier reason wins.
    pub open spec fn accounts_refusal(
        self,
        deployment: Deployment,
        found: AddressBytes,
    ) -> Option<InstructionError> {
        if found.buyback_state is None {
            Some(InstructionError::NoProgramAddress)
        } else if found.buyback_state->Some_0.0 != self.buyback_state@ || !stands_at(
            self.config_key,
            found.config,
        ) {
            Some(InstructionError::ConstraintSeeds)
        } else if self.config.is_paused {
            Some(InstructionError::Launchpad(LaunchpadError::PlatformPaused))
        } else if self.config.admin != self.payer {
            Some(InstructionError::Launchpad(LaunchpadError::UnauthorizedAdmin))
        } else if !stands_at(self.pool_key, found.pool) {
            Some(InstructionError::ConstraintSeeds)
        } else if self.pool.is_migrated {
            Some(InstructionError::Launchpad(LaunchpadError::AlreadyMigrated))
        } else if self.pool.real_sol_reserves < self.pool.migration_target {
            Some(InstructionError::Launchpad(LaunchpadError::MigrationTargetNotReached))
        } else if !stands_at(self.sol_vault, found.sol_vault) || !stands_at(
            self.token_vault.key,
            found.token_vault,
        ) {
            Some(InstructionError::ConstraintSeeds)
        } else if self.token_vault.owner != self.pool_key {
            Some(InstructionError::ConstraintTokenOwner)
        } else if self.token_vault.mint != self.pool.mint {
            Some(InstructionError::ConstraintTokenMint)
        } else if self.platform_wallet != self.config.platform_wallet {
            Some(InstructionError::Launchpad(LaunchpadError::InvalidFeeConfig))
        } else if self.meteora_program != deployment.meteora_program_id || self.wsol_mint@
            != crate::pubkey::native_mint_bytes() || self.token_mint != self.pool.mint {
            Some(InstructionError::Launchpad(LaunchpadError::InvalidPoolParams))
        } else {
            None
        }
    }

    /// The outcome of the step that starts the migration.
    pub open spec fn started(self, deployment: Deployment, found: AddressBytes) -> MigrationOutcome {
        if self.accounts_refusal(deployment, found) is Some {
            Err(self.accounts_refusal(deployment, found)->Some_0)
        } else if split_refusal(self.pool, self.config) is Some {
            Err(InstructionError::Launchpad(split_refusal(self.pool, self.config)->Some_0))
        } else {
            let split = split_of(self.pool, self.config);
            Ok(
                (
                    MigrationPhase::Pricing(split, found.buyback_state->Some_0.1),
                    MigrationAction::QuotePrice {
                        liquidity_sol: split.liquidity_sol,
                        liquidity_tokens: split.liquidity_tokens,
                    },
                ),
            )
        }
    }

    /// The buyback state that a migration creates: a treasury of `buyback_sol`
    /// lamports, bound to the new Meteora pool, with nothing bought yet.
    pub open spec fn new_buyback_state(self, buyback_sol: u64, bump: u8) -> BuybackState {
        BuybackState {
            pool: self.pool_key,
            mint: self.pool.mint,
            meteora_pool: self.meteora_pool,
            treasury_balance: buyback_sol,
            last_buyback_slot: 0,
            total_sol_spent: 0,
            total_tokens_bought: 0,
            total_tokens_burned: 0,
            total_tokens_lp: 0,
            pool_type: 0,
            bump,
        }
    }

    /// A transfer of `lamports` out of the SOL vault, where there is anything to
    /// transfer.
    pub open spec fn vault_transfer(self, to: Pubkey, lamports: u64) -> Option<SolTransfer> {
        if lamports > 0 {
            Some(SolTransfer { from: self.sol_vault, to, signer: self.sol_vault_signer(), lamports })
        } else {
            None
        }
    }

    /// A transfer of `amount` tokens from the token vault to the payer, where there is
    /// anything to transfer.
    pub open spec fn token_transfer(self, amount: u64) -> Option<TokenTransfer> {
        if amount > 0 {
            Some(
                TokenTransfer {
                    from: self.token_vault.key,
                    to: self.payer_token_account,
                    authority: self.pool_key,
                    signer: self.pool_signer(),
                    amount,
                },
            )
        } else {
            None
        }
    }

    /// The accounts of the new Meteora pool.
    pub open spec fn pool_accounts(self) -> InitializePoolAccounts {
        InitializePoolAccounts {
            creator: self.payer,
            payer: self.payer,
            position_nft_mint: self.position_nft_mint,
            position_nft_account: self.position_nft_account,
            token_a_mint: self.wsol_mint,
            token_b_mint: self.token_mint,
            token_a_vault: self.meteora_vault_a,
            token_b_vault: self.meteora_vault_b,
            payer_token_a: self.payer_wsol_account,
            payer_token_b: self.payer_token_account,
            pool: self.meteora_pool,
            pool_config: self.meteora_pool_config,
            position: self.position_account,
            position_nft_metadata: self.position_nft_metadata,
            token_program_a: self.token_program,
            token_program_b: self.token_program,
            associated_token_program: self.associated_token_program,
            system_program: self.system_program,
            rent: self.rent,
            meteora_program: self.meteora_program,
        }
    }

    /// The plan of a migration with this split and this initial price.
    pub open spec fn plan(self, split: MigrationSplit, bump: u8, sqrt_price: u128) -> MigrationPlan {
        MigrationPlan {
            pool: BondingCurvePool { is_migrated: true, ..self.pool },
            buyback_state: self.new_buyback_state(split.buyback_sol, bump),
            fee: self.vault_transfer(self.platform_wallet, split.migration_fee),
            liquidity_sol: self.vault_transfer(self.payer_wsol_account, split.liquidity_sol),
            liquidity_tokens: self.token_transfer(split.liquidity_tokens),
            pool_accounts: self.pool_accounts(),
            pool_params: InitializePoolParams {
                liquidity: split.liquidity_tokens as u128,
                sqrt_price,
                activation_point: None,
            },
        }
    }

    /// What is announced of a migration that ends at `timestamp`.
    pub open spec fn announcement(self, split: MigrationSplit, timestamp: i64) -> MigrationCompleted {
        MigrationCompleted {
            pool: self.pool_key,
            pool_type: 0,
            meteora_pool: self.meteora_pool,
            liquidity_sol: split.liquidity_sol,
            liquidity_tokens: split.liquidity_tokens,
            platform_fee: split.migration_fee,
            buyback_allocation: split.buyback_sol,
            timestamp,
        }
    }
}

/// The outcome of one step, where `found` is what the seeds of the accounts give.
pub open spec fn migration_step_at(
    accounts: MigrateBonding,
    deployment: Deployment,
    found: AddressBytes,
    phase: MigrationPhase,
    event: MigrationEvent,
) -> MigrationOutcome {
    match (phase, event) {
        (MigrationPhase::Idle, MigrationEvent::Begin) => accounts.started(deployment, found),
        (MigrationPhase::Pricing(split, bump), MigrationEvent::Priced { sqrt_price }) => Ok(
            (
                MigrationPhase::Settling(split),
                MigrationAction::Settle(accounts.plan(split, bump, sqrt_price)),
            ),
        ),
        (MigrationPhase::Settling(split), MigrationEvent::Settled { timestamp }) => Ok(
            (
                MigrationPhase::Complete,
                MigrationAction::Finish(accounts.announcement(split, timestamp)),
            ),
        ),
        _ => Err(InstructionError::OutOfOrder),
    }
}

/// The outcome of one step.
pub open spec fn migration_step(
    accounts: MigrateBonding,
    deployment: Deployment,
    phase: MigrationPhase,
    event: MigrationEvent,
) -> MigrationOutcome {
    migration_step_at(accounts, deployment, accounts.addresses(deployment), phase, event)
}

impl MigrateBonding {
    /// Derives the addresses that the accounts have to stand at.
    pub fn derive_addresses(&self, deployment: &Deployment) -> (r: MigrationAddresses)
        ensures
            r@ == self.addresses(*deployment),
            r.buyback_state matches Some((found, bump)) ==> crate::pubkey::program_address(
                seq![BuybackState::SEED@, self.pool_key@, seq![bump]],
                deployment.program_id@,
            ) == Some(found@),
    {
        let program_id = &deployment.program_id;
        let sol_vault_tag = SeedTag::BondingSolVault.to_bytes(deployment);
        MigrationAddresses {
            buyback_state: find_address(&BuybackState::SEED, &self.pool_key, program_id),
            config: tag_address_with_bump(
                deployment.config_seed.as_slice(),
                self.config.bump,
                program_id,
            ),
            pool: address_with_bump(
                deployment.pool_seed.as_slice(),
                &self.pool.mint,
                self.pool.bump,
                program_id,
            ),
            sol_vault: address_with_bump(
                sol_vault_tag.as_slice(),
                &self.pool.mint,
                self.pool.sol_vault_bump,
                program_id,
            ),
            token_vault: address_with_bump(
                deployment.token_vault_seed.as_slice(),
                &self.pool.mint,
                self.pool.token_vault_bump,
                program_id,
            ),
        }
    }

    /// Checks the accounts, where `found` is what their seeds give. Gives the bump of
    /// the buyback state.
    pub fn check_accounts(&self, deployment: &Deployment, found: &MigrationAddresses) -> (r: Result<
        u8,
        InstructionError,
    >)
        ensures
            match self.accounts_refusal(*deployment, found@) {
                Some(error) => r == Err::<u8, _>(error),
                None => r == Ok::<_, InstructionError>(found@.buyback_state->Some_0.1),
            },
    {
        let (state_address, bump) = match found.buyback_state {
            None => {
                return Err(InstructionError::NoProgramAddress);
            },
            Some(state) => state,
        };
        if !is_at(&self.buyback_state, &Some(state_address)) {
            return Err(InstructionError::ConstraintSeeds);
        }
        if !is_at(&self.config_key, &found.config) {
            return Err(InstructionError::ConstraintSeeds);
        }
        if self.config.is_paused {
            return Err(InstructionError::Launchpad(LaunchpadError::PlatformPaused));
        }
        if self.config.admin != self.payer {
            return Err(InstructionError::Launchpad(LaunchpadError::UnauthorizedAdmin));
        }
        if !is_at(&self.pool_key, &found.pool) {
            return Err(InstructionError::ConstraintSeeds);
        }
        if self.pool.is_migrated {
            return Err(InstructionError::Launchpad(LaunchpadError::AlreadyMigrated));
        }
        if self.pool.real_sol_reserves < self.pool.migration_target {
            return Err(InstructionError::Launchpad(LaunchpadError::MigrationTargetNotReached));
        }
        if !is_at(&self.sol_vault, &found.sol_vault) {
            return Err(InstructionError::ConstraintSeeds);
        }
        if !is_at(&self.token_vault.key, &found.token_vault) {
            return Err(InstructionError::ConstraintSeeds);
        }
        if self.token_vault.owner != self.pool_key {
            return Err(InstructionError::ConstraintTokenOwner);
        }
        if self.token_vault.mint != self.pool.mint {
            return Err(InstructionError::ConstraintTokenMint);
        }
        if self.platform_wallet != self.config.platform_wallet {
            return Err(InstructionError::Launchpad(LaunchpadError::InvalidFeeConfig));
        }
        if self.meteora_program != deployment.meteora_program_id {
            return Err(InstructionError::Launchpad(LaunchpadError::InvalidPoolParams));
        }
        if !is_native_mint(&self.wsol_mint) {
            return Err(InstructionError::Launchpad(LaunchpadError::InvalidPoolParams));
        }
        if self.token_mint != self.pool.mint {
            return Err(InstructionError::Launchpad(LaunchpadError::InvalidPoolParams));
        }
        Ok(bump)
    }

    /// Starts the migration, where `found` is what the seeds of the accounts give.
    pub fn start(&self, deployment: &Deployment, found: &MigrationAddresses) -> (r:
        MigrationOutcome)
        ensures
            r == self.started(*deployment, found@),
    {
        let bump: u8 = match self.check_accounts(deployment, found) {
            Err(error) => {
                return Err(error);
            },
            Ok(bump) => bump,
        };
        match split_reserves(&self.pool, &self.config) {
            Err(error) => Err(InstructionError::Launchpad(error)),
            Ok(split) => Ok(
                (
                    MigrationPhase::Pricing(split, bump),
                    MigrationAction::QuotePrice {
                        liquidity_sol: split.liquidity_sol,
                        liquidity_tokens: split.liquidity_tokens,
                    },
                ),
            ),
        }
    }

    /// A transfer of `lamports` out of the SOL vault, where there is anything to
    /// transfer.
    fn pay_from_vault(&self, to: Pubkey, lamports: u64) -> (r: Option<SolTransfer>)
        ensures
            r == self.vault_transfer(to, lamports),
    {
        if lamports > 0 {
            let signer = SignerSeeds {
                tag: SeedTag::BondingSolVault,
                key: self.pool.mint,
                bump: self.pool.sol_vault_bump,
            };
            Some(SolTransfer { from: self.sol_vault, to, signer, lamports })
        } else {
            None
        }
    }

    /// Plans the migration with this split and this initial price.
    pub fn make_plan(&self, split: MigrationSplit, bump: u8, sqrt_price: u128) -> (r: MigrationPlan)
        ensures
            r == self.plan(split, bump, sqrt_price),
    {
        let mut pool = self.pool;
        pool.is_migrated = true;
        let buyback_state = BuybackState {
            pool: self.pool_key,
            mint: self.pool.mint,
            meteora_pool: self.meteora_pool,
            treasury_balance: split.buyback_sol,
            last_buyback_slot: 0,
            total_sol_spent: 0,
            total_tokens_bought: 0,
            total_tokens_burned: 0,
            total_tokens_lp: 0,
            pool_type: 0,
            bump,
        };
        let liquidity_tokens = if split.liquidity_tokens > 0 {
            let signer = SignerSeeds {
                tag: SeedTag::BondingPool,
                key: self.pool.mint,
                bump: self.pool.bump,
            };
            Some(
                TokenTransfer {
                    from: self.token_vault.key,
                    to: self.payer_token_account,
                    authority: self.pool_key,
                    signer,
                    amount: split.liquidity_tokens,
                },
            )
        } else {
            None
        };
        let pool_accounts = InitializePoolAccounts {
            creator: self.payer,
            payer: self.payer,
            position_nft_mint: self.position_nft_mint,
            position_nft_account: self.position_nft_account,
            token_a_mint: self.wsol_mint,
            token_b_mint: self.token_mint,
            token_a_vault: self.meteora_vault_a,
            token_b_vault: self.meteora_vault_b,
            payer_token_a: self.payer_wsol_account,
            payer_token_b: self.payer_token_account,
            pool: self.meteora_pool,
            pool_config: self.meteora_pool_config,
            position: self.position_account,
            position_nft_metadata: self.position_nft_metadata,
            token_program_a: self.token_program,
            token_program_b: self.token_program,
            associated_token_program: self.associated_token_program,
            system_program: self.system_program,
            rent: self.rent,
            meteora_program: self.meteora_program,
        };
        MigrationPlan {
            pool,
            buyback_state,
            fee: self.pay_from_vault(self.platform_wallet, split.migration_fee),
            liquidity_sol: self.pay_from_vault(self.payer_wsol_account, split.liquidity_sol),
            liquidity_tokens,
            pool_accounts,
            pool_params: InitializePoolParams {
                liquidity: split.liquidity_tokens as u128,
                sqrt_price,
                activation_point: None,
            },
        }
    }
}

/// Takes one step of a migration: the phase reached so far and the event that answers
/// the last action give the next phase and the next action. The bump that it hands on
/// gives the address of the buyback state, so that buybacks find the state there.
pub fn handle_migrate_bonding(
    accounts: &MigrateBonding,
    deployment: &Deployment,
    phase: MigrationPhase,
    event: MigrationEvent,
) -> (r: MigrationOutcome)
    ensures
        r == migration_step(*accounts, *deployment, phase, event),
        r matches Ok((MigrationPhase::Pricing(_, bump), _)) ==> crate::pubkey::program_address(
            seq![BuybackState::SEED@, accounts.pool_key@, seq![bump]],
            deployment.program_id@,
        ) == Some(accounts.buyback_state@),
{
    match (phase, event) {
        (MigrationPhase::Idle, MigrationEvent::Begin) => {
            let found = accounts.derive_addresses(deployment);
            accounts.start(deployment, &found)
        },
        (MigrationPhase::Pricing(split, bump), MigrationEvent::Priced { sqrt_price }) => Ok(
            (
                MigrationPhase::Settling(split),
                MigrationAction::Settle(accounts.make_plan(split, bump, sqrt_price)),
            ),
        ),
        (MigrationPhase::Settling(split), MigrationEvent::Settled { timestamp }) => Ok(
            (
                MigrationPhase::Complete,
                MigrationAction::Finish(
                    MigrationCompleted {
                        pool: accounts.pool_key,
                        pool_type: 0,
                        meteora_pool: accounts.meteora_pool,
                        liquidity_sol: split.liquidity_sol,
                        liquidity_tokens: split.liquidity_tokens,
                        platform_fee: split.migration_fee,
                        buyback_allocation: split.buyback_sol,
                        timestamp,
                    },
                ),
            ),
        ),
        _ => Err(InstructionError::OutOfOrder),
    }
}

} // verus!
