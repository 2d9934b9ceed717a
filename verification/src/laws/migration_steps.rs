//! What each step of a migration does, said of its inputs and results alone.
use vstd::prelude::*;

use crate::cpi::{InitializePoolAccounts, SeedTag};
use crate::errors::{InstructionError, LaunchpadError};
use crate::fees;
use crate::instructions::migrate_bonding;
use crate::instructions::migrate_bonding::{
    AddressBytes, MigrateBonding, MigrationAction, MigrationAddresses, MigrationCall,
    MigrationEvent, MigrationPhase, MigrationPlan, MigrationSplit,
};
use crate::laws::seeds;
use crate::state::bonding_curve_pool::BondingCurvePool;
use crate::state::global_config::{Deployment, GlobalConfig};

verus! {

/// The reserves are divided exactly where the fee is at most the SOL reserves and the sum
/// for buybacks fits. Then the fee is the configured share of the SOL reserves in ten
/// thousandths, the SOL for liquidity is four fifths of them, the SOL for buybacks is nine
/// fiftieths of them and the sell tax, and the tokens for liquidity are four fifths of the
/// unsold tokens, each rounded down. The shares do not depend on each other.
pub proof fn law_reserves_are_divided(pool: BondingCurvePool, config: GlobalConfig)
    ensures
        ({
            let sol = pool.real_sol_reserves;
            let fee = sol * config.migration_fee_bps / 10_000;
            let buyback = sol * 1800 / 10_000 + pool.buyback_treasury;
            let refusal = migrate_bonding::split_refusal(pool, config);
            let split = migrate_bonding::split_of(pool, config);
            &&& refusal is None <==> fee <= sol && buyback <= u64::MAX
            &&& refusal == Some(LaunchpadError::CastOverflow) <==> fee > u64::MAX
            &&& refusal == Some(LaunchpadError::MathUnderflow) <==> sol < fee <= u64::MAX
            &&& refusal == Some(LaunchpadError::MathOverflow) <==> fee <= sol && buyback > u64::MAX
            &&& refusal is None ==> {
                &&& split.migration_fee == fee
                &&& split.liquidity_sol == sol * 8000 / 10_000
                &&& 5 * split.liquidity_sol <= 4 * sol < 5 * split.liquidity_sol + 5
                &&& split.buyback_sol == buyback
                &&& 50 * (split.buyback_sol - pool.buyback_treasury) <= 9 * sol < 50 * (
                split.buyback_sol - pool.buyback_treasury) + 50
                &&& split.liquidity_tokens == pool.real_token_reserves * 8000 / 10_000
                &&& 5 * split.liquidity_tokens <= 4 * pool.real_token_reserves < 5
                    * split.liquidity_tokens + 5
            }
        }),
{
    let sol = pool.real_sol_reserves as int;
    fees::lemma_bps_bounds(sol, config.migration_fee_bps as int);
    fees::lemma_bps_bounds(sol, 8000);
    fees::lemma_bps_bounds(sol, 1800);
    fees::lemma_bps_bounds(pool.real_token_reserves as int, 8000);
}

/// What is read as the bytes of derived addresses are the addresses' own bytes.
pub proof fn law_addresses_are_read_as_bytes(found: MigrationAddresses)
    ensures
        match found.buyback_state {
            Some((key, bump)) => found@.buyback_state == Some((key@, bump)),
            None => found@.buyback_state is None,
        },
        found.config matches Some(key) ==> found@.config == Some(key@),
        found.config is None ==> found@.config is None,
        found.pool matches Some(key) ==> found@.pool == Some(key@),
        found.pool is None ==> found@.pool is None,
        found.sol_vault matches Some(key) ==> found@.sol_vault == Some(key@),
        found.sol_vault is None ==> found@.sol_vault is None,
        found.token_vault matches Some(key) ==> found@.token_vault == Some(key@),
        found.token_vault is None ==> found@.token_vault is None,
{
}

/// The accounts of a migration derive from these seeds: the buyback state from the word
/// "buyback" and the pool's key, with the canonical bump; the configuration from its word
/// alone; the pool, the token vault and the SOL vault from their words and the mint. The
/// SOL vault's word is "bonding_sol_vault", the others are those of the deployment, and
/// the bumps are the stored ones.
pub proof fn law_migration_derives_its_addresses(accounts: MigrateBonding, deployment: Deployment)
    ensures
        ({
            let found = accounts.addresses(deployment);
            let id = deployment.program_id@;
            let pool = accounts.pool;
            &&& found.buyback_state == crate::pubkey::canonical_address(
                seq![seeds::buyback(), accounts.pool_key@],
                id,
            )
            &&& found.config == crate::pubkey::program_address(
                seq![deployment.config_seed@, seq![accounts.config.bump]],
                id,
            )
            &&& found.pool == crate::pubkey::program_address(
                seq![deployment.pool_seed@, pool.mint@, seq![pool.bump]],
                id,
            )
            &&& found.sol_vault == crate::pubkey::program_address(
                seq![seeds::bonding_sol_vault(), pool.mint@, seq![pool.sol_vault_bump]],
                id,
            )
            &&& found.token_vault == crate::pubkey::program_address(
                seq![deployment.token_vault_seed@, pool.mint@, seq![pool.token_vault_bump]],
                id,
            )
        }),
{
    seeds::law_words_of_the_seeds(deployment);
}

/// The accounts of a migration are accepted exactly if each stands at its address, the
/// platform is not paused, the payer is the admin, the pool was not migrated before and has
/// reached its target, the token vault is the pool's and of its mint, the wallet is the
/// platform's, and the Meteora program and the two mints are the expected ones. Each
/// refusal comes for its own reason, and only where no earlier one holds.
pub proof fn law_migration_accounts_are_checked(
    accounts: MigrateBonding,
    deployment: Deployment,
    found: AddressBytes,
)
    ensures
        ({
            let refusal = accounts.accounts_refusal(deployment, found);
            let config = accounts.config;
            let pool = accounts.pool;
            let derived = found.buyback_state is Some;
            let configured = derived && found.buyback_state->Some_0.0 == accounts.buyback_state@
                && found.config == Some(accounts.config_key@);
            let running = configured && !config.is_paused;
            let allowed = running && config.admin == accounts.payer;
            let placed = allowed && found.pool == Some(accounts.pool_key@);
            let fresh = placed && !pool.is_migrated;
            let reached = fresh && pool.real_sol_reserves >= pool.migration_target;
            let vaults = reached && found.sol_vault == Some(accounts.sol_vault@)
                && found.token_vault == Some(accounts.token_vault.key@);
            let owned = vaults && accounts.token_vault.owner == accounts.pool_key;
            let minted = owned && accounts.token_vault.mint == pool.mint;
            let paid = minted && accounts.platform_wallet == config.platform_wallet;
            let traded = paid && accounts.meteora_program == deployment.meteora_program_id
                && accounts.wsol_mint@ == crate::pubkey::native_mint_bytes() && accounts.token_mint
                == pool.mint;
            &&& refusal is None <==> traded
            &&& refusal == Some(InstructionError::NoProgramAddress) <==> !derived
            &&& refusal == Some(InstructionError::ConstraintSeeds) <==> (derived && !configured)
                || (allowed && !placed) || (reached && !vaults)
            &&& refusal == Some(InstructionError::Launchpad(LaunchpadError::PlatformPaused))
                <==> configured && !running
            &&& refusal == Some(InstructionError::Launchpad(LaunchpadError::UnauthorizedAdmin))
                <==> running && !allowed
            &&& refusal == Some(InstructionError::Launchpad(LaunchpadError::AlreadyMigrated))
                <==> placed && !fresh
            &&& refusal == Some(
                InstructionError::Launchpad(LaunchpadError::MigrationTargetNotReached),
            ) <==> fresh && !reached
            &&& refusal == Some(InstructionError::ConstraintTokenOwner) <==> vaults && !owned
            &&& refusal == Some(InstructionError::ConstraintTokenMint) <==> owned && !minted
            &&& refusal == Some(InstructionError::Launchpad(LaunchpadError::InvalidFeeConfig))
                <==> minted && !paid
            &&& refusal == Some(InstructionError::Launchpad(LaunchpadError::InvalidPoolParams))
                <==> paid && !traded
        }),
{
}

/// A migration starts exactly if its accounts are accepted and its reserves can be
/// divided; it then has the price of the SOL and tokens for liquidity worked out, and
/// hands on the division and the bump of the buyback state. It is refused for the reason
/// of its accounts, else for that of its division.
pub proof fn law_migration_starts(
    accounts: MigrateBonding,
    deployment: Deployment,
    found: AddressBytes,
)
    ensures
        ({
            let r = accounts.started(deployment, found);
            let pool = accounts.pool;
            let sol = pool.real_sol_reserves;
            let fee = sol * accounts.config.migration_fee_bps / 10_000;
            let buyback = sol * 1800 / 10_000 + pool.buyback_treasury;
            let accepted = accounts.accounts_refusal(deployment, found);
            let divided = migrate_bonding::split_refusal(pool, accounts.config);
            &&& r is Ok <==> accepted is None && fee <= sol && buyback <= u64::MAX
            &&& accepted matches Some(error) ==> r == Err::<(MigrationPhase, MigrationAction), _>(
                error,
            )
            &&& accepted is None ==> (divided matches Some(error) ==> r == Err::<
                (MigrationPhase, MigrationAction),
                _,
            >(InstructionError::Launchpad(error)))
            &&& r matches Ok((phase, action)) ==> {
                &&& phase is Pricing
                &&& phase->Pricing_0.migration_fee == fee
                &&& phase->Pricing_0.liquidity_sol == sol * 8000 / 10_000
                &&& phase->Pricing_0.buyback_sol == buyback
                &&& phase->Pricing_0.liquidity_tokens == pool.real_token_reserves * 8000 / 10_000
                &&& phase->Pricing_1 == found.buyback_state->Some_0.1
                &&& action is QuotePrice
                &&& action->liquidity_sol == sol * 8000 / 10_000
                &&& action->liquidity_tokens == pool.real_token_reserves * 8000 / 10_000
            }
        }),
{
    law_reserves_are_divided(accounts.pool, accounts.config);
}

/// The new pool is created with the accounts that the migration was given, each in its
/// place.
pub open spec fn creates_the_payers_pool(
    accounts: MigrateBonding,
    created: InitializePoolAccounts,
) -> bool {
    &&& created.creator == accounts.payer
    &&& created.payer == accounts.payer
    &&& created.position_nft_mint == accounts.position_nft_mint
    &&& created.position_nft_account == accounts.position_nft_account
    &&& created.token_a_mint == accounts.wsol_mint
    &&& created.token_b_mint == accounts.token_mint
    &&& created.token_a_vault == accounts.meteora_vault_a
    &&& created.token_b_vault == accounts.meteora_vault_b
    &&& created.payer_token_a == accounts.payer_wsol_account
    &&& created.payer_token_b == accounts.payer_token_account
    &&& created.pool == accounts.meteora_pool
    &&& created.pool_config == accounts.meteora_pool_config
    &&& created.position == accounts.position_account
    &&& created.position_nft_metadata == accounts.position_nft_metadata
    &&& created.token_program_a == accounts.token_program
    &&& created.token_program_b == accounts.token_program
    &&& created.associated_token_program == accounts.associated_token_program
    &&& created.system_program == accounts.system_program
    &&& created.rent == accounts.rent
    &&& created.meteora_program == accounts.meteora_program
}

/// The pool after a migration is the one before it, marked as migrated.
pub open spec fn only_marked(before: BondingCurvePool, after: BondingCurvePool) -> bool {
    &&& after.is_migrated
    &&& after.mint == before.mint
    &&& after.real_sol_reserves == before.real_sol_reserves
    &&& after.real_token_reserves == before.real_token_reserves
    &&& after.migration_target == before.migration_target
    &&& after.buyback_treasury == before.buyback_treasury
    &&& after.bump == before.bump
    &&& after.sol_vault_bump == before.sol_vault_bump
    &&& after.token_vault_bump == before.token_vault_bump
}

/// A plan carries out its division at its price: the fee goes from the SOL vault to the
/// platform wallet, the SOL for liquidity from the SOL vault to the payer's WSOL account,
/// the tokens for liquidity from the token vault to the payer's token account, each where
/// it is more than nothing and each signed by its own seeds; the new pool opens at once,
/// with the tokens moved as its liquidity and at exactly the price that was worked out; the
/// pool is marked and nothing else of it changes; and the new buyback state holds the SOL
/// for buybacks, is bound to the pool, its mint and the new Meteora pool, and has done
/// nothing yet.
pub proof fn law_plan_carries_out_its_division(
    accounts: MigrateBonding,
    split: MigrationSplit,
    bump: u8,
    sqrt_price: u128,
)
    ensures
        ({
            let plan = accounts.plan(split, bump, sqrt_price);
            let state = plan.buyback_state;
            &&& plan.fee is Some <==> split.migration_fee > 0
            &&& plan.fee matches Some(transfer) ==> {
                &&& transfer.lamports == split.migration_fee
                &&& transfer.from == accounts.sol_vault
                &&& transfer.to == accounts.platform_wallet
                &&& transfer.signer.tag == SeedTag::BondingSolVault
                &&& transfer.signer.key == accounts.pool.mint
                &&& transfer.signer.bump == accounts.pool.sol_vault_bump
            }
            &&& plan.liquidity_sol is Some <==> split.liquidity_sol > 0
            &&& plan.liquidity_sol matches Some(transfer) ==> {
                &&& transfer.lamports == split.liquidity_sol
                &&& transfer.from == accounts.sol_vault
                &&& transfer.to == accounts.payer_wsol_account
                &&& transfer.signer.tag == SeedTag::BondingSolVault
                &&& transfer.signer.key == accounts.pool.mint
                &&& transfer.signer.bump == accounts.pool.sol_vault_bump
            }
            &&& plan.liquidity_tokens is Some <==> split.liquidity_tokens > 0
            &&& plan.liquidity_tokens matches Some(transfer) ==> {
                &&& transfer.amount == split.liquidity_tokens
                &&& transfer.from == accounts.token_vault.key
                &&& transfer.to == accounts.payer_token_account
                &&& transfer.authority == accounts.pool_key
                &&& transfer.signer.tag == SeedTag::BondingPool
                &&& transfer.signer.key == accounts.pool.mint
                &&& transfer.signer.bump == accounts.pool.bump
            }
            &&& creates_the_payers_pool(accounts, plan.pool_accounts)
            &&& plan.pool_params.liquidity == split.liquidity_tokens
            &&& plan.pool_params.sqrt_price == sqrt_price
            &&& plan.pool_params.activation_point is None
            &&& only_marked(accounts.pool, plan.pool)
            &&& state.pool == accounts.pool_key
            &&& state.mint == accounts.pool.mint
            &&& state.meteora_pool == accounts.meteora_pool
            &&& state.treasury_balance == split.buyback_sol
            &&& state.last_buyback_slot == 0
            &&& state.total_sol_spent == 0
            &&& state.total_tokens_bought == 0
            &&& state.total_tokens_burned == 0
            &&& state.total_tokens_lp == 0
            &&& state.pool_type == 0
            &&& state.bump == bump
        }),
{
}

/// The calls of a plan, whatever it holds: the fee where there is one, then the SOL where
/// there is any, then the tokens where there are any, and the new pool last. There are no
/// others.
pub proof fn law_calls_come_in_order(plan: MigrationPlan)
    ensures
        ({
            let calls = plan.calls();
            let fee = if plan.fee is Some {
                1int
            } else {
                0
            };
            let sol = if plan.liquidity_sol is Some {
                1int
            } else {
                0
            };
            let tokens = if plan.liquidity_tokens is Some {
                1int
            } else {
                0
            };
            &&& calls.len() == fee + sol + tokens + 1
            &&& plan.fee matches Some(transfer) ==> calls[0] == MigrationCall::TransferSol(transfer)
            &&& plan.liquidity_sol matches Some(transfer) ==> calls[fee]
                == MigrationCall::TransferSol(transfer)
            &&& plan.liquidity_tokens matches Some(transfer) ==> calls[fee + sol]
                == MigrationCall::TransferTokens(transfer)
            &&& calls[fee + sol + tokens] == MigrationCall::CreatePool(
                plan.pool_accounts,
                plan.pool_params,
            )
        }),
{
}

/// The first step of a migration starts it with the derived addresses; the price leads to
/// the plan for it; the time ends the migration and announces the division as it was
/// settled.
pub proof fn law_migration_steps(
    accounts: MigrateBonding,
    deployment: Deployment,
    split: MigrationSplit,
    bump: u8,
    sqrt_price: u128,
    timestamp: i64,
)
    ensures
        migrate_bonding::migration_step(
            accounts,
            deployment,
            MigrationPhase::Idle,
            MigrationEvent::Begin,
        ) == accounts.started(deployment, accounts.addresses(deployment)),
        ({
            let r = migrate_bonding::migration_step(
                accounts,
                deployment,
                MigrationPhase::Pricing(split, bump),
                MigrationEvent::Priced { sqrt_price },
            );
            &&& r is Ok
            &&& r->Ok_0.0 == MigrationPhase::Settling(split)
            &&& r->Ok_0.1 == MigrationAction::Settle(accounts.plan(split, bump, sqrt_price))
            &&& r->Ok_0.1->Settle_0.pool_params.sqrt_price == sqrt_price
        }),
        ({
            let r = migrate_bonding::migration_step(
                accounts,
                deployment,
                MigrationPhase::Settling(split),
                MigrationEvent::Settled { timestamp },
            );
            &&& r is Ok
            &&& r->Ok_0.0 is Complete
            &&& r->Ok_0.1 is Finish
            &&& r->Ok_0.1->Finish_0.pool == accounts.pool_key
            &&& r->Ok_0.1->Finish_0.pool_type == 0
            &&& r->Ok_0.1->Finish_0.meteora_pool == accounts.meteora_pool
            &&& r->Ok_0.1->Finish_0.liquidity_sol == split.liquidity_sol
            &&& r->Ok_0.1->Finish_0.liquidity_tokens == split.liquidity_tokens
            &&& r->Ok_0.1->Finish_0.platform_fee == split.migration_fee
            &&& r->Ok_0.1->Finish_0.buyback_allocation == split.buyback_sol
            &&& r->Ok_0.1->Finish_0.timestamp == timestamp
        }),
{
}

/// An event that does not answer the action of the phase is refused as out of order.
pub proof fn law_other_events_are_out_of_order(
    accounts: MigrateBonding,
    deployment: Deployment,
    phase: MigrationPhase,
    event: MigrationEvent,
)
    requires
        !(phase is Idle && event is Begin),
        !(phase is Pricing && event is Priced),
        !(phase is Settling && event is Settled),
    ensures
        migrate_bonding::migration_step(accounts, deployment, phase, event) == Err::<
            (MigrationPhase, MigrationAction),
            _,
        >(InstructionError::OutOfOrder),
{
}

} // verus!
