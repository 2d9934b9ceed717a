//! What holds of whole migrations, and of the buybacks that follow.
use vstd::prelude::*;

use crate::cpi::{SolTransfer, TokenTransfer};
use crate::errors::{InstructionError, LaunchpadError};
use crate::fees;
use crate::instructions::execute_buyback;
use crate::instructions::execute_buyback::{
    BuybackEvent, BuybackPhase, ExecuteBuyback, ExecuteBuybackParams,
};
use crate::instructions::migrate_bonding;
use crate::instructions::migrate_bonding::{
    MigrateBonding, MigrationAction, MigrationCall, MigrationEvent, MigrationPhase, MigrationPlan,
    MigrationSplit,
};
use crate::laws::buyback;
use crate::laws::buyback::BuybackCall;
use crate::laws::migration_steps;
use crate::state::bonding_curve_pool::BondingCurvePool;
use crate::state::buyback::BuybackState;
use crate::state::global_config::{Deployment, GlobalConfig};

verus! {

/// The steps of a migration that is in `phase`, one for each event: the phase they end
/// in and the actions they ask for, or the error of the first step that fails.
pub open spec fn migration_run(
    accounts: MigrateBonding,
    deployment: Deployment,
    phase: MigrationPhase,
    events: Seq<MigrationEvent>,
) -> Result<(MigrationPhase, Seq<MigrationAction>), InstructionError>
    decreases events.len(),
{
    if events.len() == 0 {
        Ok((phase, Seq::empty()))
    } else {
        match migrate_bonding::migration_step(accounts, deployment, phase, events[0]) {
            Err(error) => Err(error),
            Ok((next, action)) => match migration_run(
                accounts,
                deployment,
                next,
                events.drop_first(),
            ) {
                Err(error) => Err(error),
                Ok((end, actions)) => Ok((end, seq![action] + actions)),
            },
        }
    }
}

/// The events bring a migration from its start to its end.
pub open spec fn migration_completes(
    accounts: MigrateBonding,
    deployment: Deployment,
    events: Seq<MigrationEvent>,
) -> bool {
    migration_run(accounts, deployment, MigrationPhase::Idle, events) matches Ok((end, _)) && end
        == MigrationPhase::Complete
}

/// The actions of a migration that completes.
pub open spec fn migration_actions(
    accounts: MigrateBonding,
    deployment: Deployment,
    events: Seq<MigrationEvent>,
) -> Seq<MigrationAction> {
    migration_run(accounts, deployment, MigrationPhase::Idle, events)->Ok_0.1
}

/// The plan that a migration that completes carries out.
pub open spec fn migration_plan(
    accounts: MigrateBonding,
    deployment: Deployment,
    events: Seq<MigrationEvent>,
) -> MigrationPlan {
    migration_actions(accounts, deployment, events)[1]->Settle_0
}

/// The transfers of a migration with this split, in order: the fee to the platform
/// wallet, the SOL to the payer's WSOL account, the tokens to the payer's token account,
/// each where it is more than nothing.
pub open spec fn transfers_in_order(accounts: MigrateBonding, split: MigrationSplit) -> Seq<
    MigrationCall,
> {
    let fee = if split.migration_fee > 0 {
        seq![
            MigrationCall::TransferSol(
                SolTransfer {
                    from: accounts.sol_vault,
                    to: accounts.platform_wallet,
                    signer: accounts.sol_vault_signer(),
                    lamports: split.migration_fee,
                },
            ),
        ]
    } else {
        Seq::empty()
    };
    let sol = if split.liquidity_sol > 0 {
        seq![
            MigrationCall::TransferSol(
                SolTransfer {
                    from: accounts.sol_vault,
                    to: accounts.payer_wsol_account,
                    signer: accounts.sol_vault_signer(),
                    lamports: split.liquidity_sol,
                },
            ),
        ]
    } else {
        Seq::empty()
    };
    let tokens = if split.liquidity_tokens > 0 {
        seq![
            MigrationCall::TransferTokens(
                TokenTransfer {
                    from: accounts.token_vault.key,
                    to: accounts.payer_token_account,
                    authority: accounts.pool_key,
                    signer: accounts.pool_signer(),
                    amount: split.liquidity_tokens,
                },
            ),
        ]
    } else {
        Seq::empty()
    };
    fee + sol + tokens
}

/// What a migration that completes did: its accounts and its split were not refused,
/// it had the price of exactly the reserves that become liquidity worked out, it
/// carried out the plan for that price, and it announced the amounts of that split. Its
/// calls came in this order: the fee, the SOL and the tokens for liquidity, each where
/// there is any, and last, once, the new Meteora pool, after all that funds it.
pub proof fn law_completed_migration(
    accounts: MigrateBonding,
    deployment: Deployment,
    events: Seq<MigrationEvent>,
)
    requires
        migration_completes(accounts, deployment, events),
    ensures
        ({
            let actions = migration_actions(accounts, deployment, events);
            let split = migrate_bonding::split_of(accounts.pool, accounts.config);
            let found = accounts.addresses(deployment);
            let plan = migration_plan(accounts, deployment, events);
            let calls = plan.calls();
            &&& accounts.accounts_refusal(deployment, found) is None
            &&& migrate_bonding::split_refusal(accounts.pool, accounts.config) is None
            &&& events.len() == 3
            &&& events[0] is Begin
            &&& events[1] is Priced
            &&& events[2] is Settled
            &&& actions =~= seq![
                MigrationAction::QuotePrice {
                    liquidity_sol: split.liquidity_sol,
                    liquidity_tokens: split.liquidity_tokens,
                },
                MigrationAction::Settle(
                    accounts.plan(
                        split,
                        found.buyback_state->Some_0.1,
                        events[1]->sqrt_price,
                    ),
                ),
                MigrationAction::Finish(accounts.announcement(split, events[2]->timestamp)),
            ]
            &&& calls =~= transfers_in_order(accounts, split) + seq![
                MigrationCall::CreatePool(plan.pool_accounts, plan.pool_params),
            ]
            &&& forall|i: int|
                0 <= i < calls.len() ==> ((#[trigger] calls[i]) is CreatePool <==> i
                    == calls.len() - 1)
        }),
{
    let run0 = migration_run(accounts, deployment, MigrationPhase::Idle, events);
    assert(events.len() > 0);
    let (phase1, action1) = migrate_bonding::migration_step(
        accounts,
        deployment,
        MigrationPhase::Idle,
        events[0],
    )->Ok_0;
    let events1 = events.drop_first();
    let run1 = migration_run(accounts, deployment, phase1, events1);
    assert(events[0] is Begin);
    assert(events1.len() > 0);
    let (phase2, action2) = migrate_bonding::migration_step(
        accounts,
        deployment,
        phase1,
        events1[0],
    )->Ok_0;
    let events2 = events1.drop_first();
    let run2 = migration_run(accounts, deployment, phase2, events2);
    assert(events1[0] is Priced);
    assert(events2.len() > 0);
    let (phase3, action3) = migrate_bonding::migration_step(
        accounts,
        deployment,
        phase2,
        events2[0],
    )->Ok_0;
    let events3 = events2.drop_first();
    let run3 = migration_run(accounts, deployment, phase3, events3);
    assert(events2[0] is Settled);
    assert(events3.len() == 0);
    assert(run2->Ok_0.1 =~= seq![action3]);
    assert(run1->Ok_0.1 =~= seq![action2, action3]);
    assert(run0->Ok_0.1 =~= seq![action1, action2, action3]);
    let plan = migration_plan(accounts, deployment, events);
    let split = migrate_bonding::split_of(accounts.pool, accounts.config);
    assert(plan.calls() =~= transfers_in_order(accounts, split) + seq![
        MigrationCall::CreatePool(plan.pool_accounts, plan.pool_params),
    ]);
}

/// A migration completes whenever neither its accounts nor its split are refused,
/// whatever the price.
pub proof fn law_migration_goes_through(
    accounts: MigrateBonding,
    deployment: Deployment,
    sqrt_price: u128,
    timestamp: i64,
)
    requires
        accounts.accounts_refusal(deployment, accounts.addresses(deployment)) is None,
        migrate_bonding::split_refusal(accounts.pool, accounts.config) is None,
    ensures
        migration_completes(
            accounts,
            deployment,
            seq![
                MigrationEvent::Begin,
                MigrationEvent::Priced { sqrt_price },
                MigrationEvent::Settled { timestamp },
            ],
        ),
{
    reveal_with_fuel(migration_run, 4);
    let events = seq![
        MigrationEvent::Begin,
        MigrationEvent::Priced { sqrt_price },
        MigrationEvent::Settled { timestamp },
    ];
    assert(events.drop_first()[0] == MigrationEvent::Priced { sqrt_price });
    assert(events.drop_first().drop_first()[0] == MigrationEvent::Settled { timestamp });
    assert(events.drop_first().drop_first().drop_first().len() == 0);
}

/// Only the admin migrates, only while the platform is not paused, only a pool that
/// reached its target and was not migrated before; the fee goes to the platform's own
/// wallet, and the new pool trades wrapped SOL against the pool's own token on Meteora.
pub proof fn law_migration_is_guarded(
    accounts: MigrateBonding,
    deployment: Deployment,
    events: Seq<MigrationEvent>,
)
    requires
        migration_completes(accounts, deployment, events),
    ensures
        accounts.payer == accounts.config.admin,
        !accounts.config.is_paused,
        !accounts.pool.is_migrated,
        accounts.pool.real_sol_reserves >= accounts.pool.migration_target,
        migration_plan(accounts, deployment, events).fee matches Some(transfer) ==> transfer.to
            == accounts.config.platform_wallet,
        ({
            let created = migration_plan(accounts, deployment, events).pool_accounts;
            &&& created.token_a_mint@ == crate::pubkey::native_mint_bytes()
            &&& created.token_b_mint == accounts.pool.mint
            &&& created.meteora_program == deployment.meteora_program_id
        }),
{
    law_completed_migration(accounts, deployment, events);
}

/// The lamports of a transfer, none where there is no transfer.
pub open spec fn lamports_of(transfer: Option<SolTransfer>) -> int {
    match transfer {
        Some(transfer) => transfer.lamports as int,
        None => 0,
    }
}

/// The tokens of a transfer, none where there is no transfer.
pub open spec fn tokens_of(transfer: Option<TokenTransfer>) -> int {
    match transfer {
        Some(transfer) => transfer.amount as int,
        None => 0,
    }
}

/// What a completed migration moves and sets aside, each for itself: to the platform
/// wallet the configured share of the SOL reserves in ten thousandths, for liquidity four
/// fifths of the SOL reserves to the payer's WSOL account and four fifths of the unsold
/// tokens to the payer's token account, and for buybacks nine fiftieths of the SOL reserves
/// and the sell tax, each rounded down. The announcement gives the same amounts.
pub proof fn law_amounts_of_a_migration(
    accounts: MigrateBonding,
    deployment: Deployment,
    events: Seq<MigrationEvent>,
)
    requires
        migration_completes(accounts, deployment, events),
    ensures
        ({
            let actions = migration_run(
                accounts,
                deployment,
                MigrationPhase::Idle,
                events,
            )->Ok_0.1;
            let plan = actions[1]->Settle_0;
            let announced = actions[2]->Finish_0;
            let sol = accounts.pool.real_sol_reserves;
            let tokens = accounts.pool.real_token_reserves;
            let fee = sol * accounts.config.migration_fee_bps / 10_000;
            &&& actions.len() == 3
            &&& actions[1] is Settle
            &&& actions[2] is Finish
            &&& match plan.fee {
                Some(transfer) => transfer.lamports == fee && transfer.to
                    == accounts.config.platform_wallet && transfer.from == accounts.sol_vault,
                None => fee == 0,
            }
            &&& match plan.liquidity_sol {
                Some(transfer) => transfer.lamports == sol * 8000 / 10_000 && transfer.to
                    == accounts.payer_wsol_account && transfer.from == accounts.sol_vault,
                None => sol * 8000 / 10_000 == 0,
            }
            &&& match plan.liquidity_tokens {
                Some(transfer) => transfer.amount == tokens * 8000 / 10_000 && transfer.to
                    == accounts.payer_token_account && transfer.from == accounts.token_vault.key
                    && transfer.authority == accounts.pool_key,
                None => tokens * 8000 / 10_000 == 0,
            }
            &&& plan.buyback_state.treasury_balance == sol * 1800 / 10_000
                + accounts.pool.buyback_treasury
            &&& announced.platform_fee == fee
            &&& announced.liquidity_sol == sol * 8000 / 10_000
            &&& announced.liquidity_tokens == tokens * 8000 / 10_000
            &&& announced.buyback_allocation == sol * 1800 / 10_000
                + accounts.pool.buyback_treasury
            &&& announced.timestamp == events[2]->timestamp
        }),
{
    law_completed_migration(accounts, deployment, events);
    migration_steps::law_reserves_are_divided(accounts.pool, accounts.config);
}

/// The pool that a completed migration creates opens at the price that was worked out for
/// it, whatever that is: the price of the event that answered the request for it, which
/// named four fifths of the SOL reserves and of the unsold tokens. It opens at once, with
/// those tokens as its liquidity.
pub proof fn law_new_pool_opens_at_its_price(
    accounts: MigrateBonding,
    deployment: Deployment,
    events: Seq<MigrationEvent>,
)
    requires
        migration_completes(accounts, deployment, events),
    ensures
        ({
            let actions = migration_run(
                accounts,
                deployment,
                MigrationPhase::Idle,
                events,
            )->Ok_0.1;
            let sol = accounts.pool.real_sol_reserves;
            let tokens = accounts.pool.real_token_reserves;
            let plan = actions[1]->Settle_0;
            let created = plan.calls()[plan.calls().len() - 1];
            &&& actions[0] is QuotePrice
            &&& actions[0]->liquidity_sol == sol * 8000 / 10_000
            &&& actions[0]->liquidity_tokens == tokens * 8000 / 10_000
            &&& events[1] is Priced
            &&& created is CreatePool
            &&& created->CreatePool_1.sqrt_price == events[1]->sqrt_price
            &&& created->CreatePool_1.liquidity == tokens * 8000 / 10_000
            &&& created->CreatePool_1.activation_point is None
            &&& migration_steps::creates_the_payers_pool(accounts, created->CreatePool_0)
        }),
{
    law_completed_migration(accounts, deployment, events);
    migration_steps::law_reserves_are_divided(accounts.pool, accounts.config);
    let plan = migration_plan(accounts, deployment, events);
    migration_steps::law_calls_come_in_order(plan);
}

/// Two migrations relate by their reserves: what the platform wallet gets, what becomes
/// liquidity and what is set aside for buybacks never falls when the SOL reserves grow and
/// nothing else changes, and no share grows by more than the reserves do, for a fee of at
/// most the whole.
pub proof fn law_shares_grow_with_the_reserves(
    small: BondingCurvePool,
    large: BondingCurvePool,
    config: GlobalConfig,
)
    requires
        small.real_sol_reserves <= large.real_sol_reserves,
        large == (BondingCurvePool { real_sol_reserves: large.real_sol_reserves, ..small }),
        config.migration_fee_bps <= 10_000,
        migrate_bonding::split_refusal(large, config) is None,
    ensures
        ({
            let a = migrate_bonding::split_of(small, config);
            let b = migrate_bonding::split_of(large, config);
            let growth = large.real_sol_reserves - small.real_sol_reserves;
            &&& migrate_bonding::split_refusal(small, config) is None
            &&& a.migration_fee <= b.migration_fee <= a.migration_fee + growth
            &&& a.liquidity_sol <= b.liquidity_sol <= a.liquidity_sol + growth
            &&& a.buyback_sol <= b.buyback_sol <= a.buyback_sol + growth
            &&& a.liquidity_tokens == b.liquidity_tokens
        }),
{
    let x = small.real_sol_reserves as int;
    let y = large.real_sol_reserves as int;
    let bps = config.migration_fee_bps as int;
    assert(x * bps <= y * bps <= x * bps + (y - x) * 10_000) by (nonlinear_arith)
        requires
            0 <= x <= y,
            0 <= bps <= 10_000,
    ;
    fees::lemma_bps_bounds(x, bps);
    fees::lemma_bps_bounds(y, bps);
    migration_steps::law_reserves_are_divided(small, config);
    migration_steps::law_reserves_are_divided(large, config);
}

/// What is announced is what was moved and set aside: the fee, the SOL and tokens of
/// the new pool, and the treasury for buybacks; and the new pool starts with the
/// liquidity that was moved to the payer.
pub proof fn law_announcement_is_true(
    accounts: MigrateBonding,
    deployment: Deployment,
    events: Seq<MigrationEvent>,
)
    requires
        migration_completes(accounts, deployment, events),
    ensures
        ({
            let plan = migration_plan(accounts, deployment, events);
            let announced = migration_actions(accounts, deployment, events)[2]->Finish_0;
            &&& announced.platform_fee == lamports_of(plan.fee)
            &&& announced.liquidity_sol == lamports_of(plan.liquidity_sol)
            &&& announced.liquidity_tokens == tokens_of(plan.liquidity_tokens)
            &&& announced.buyback_allocation == plan.buyback_state.treasury_balance
            &&& announced.meteora_pool == plan.buyback_state.meteora_pool
            &&& announced.pool == plan.buyback_state.pool
            &&& announced.pool_type == plan.buyback_state.pool_type
            &&& plan.pool_params.liquidity == tokens_of(plan.liquidity_tokens)
            &&& plan.pool_accounts.pool == announced.meteora_pool
        }),
{
    law_completed_migration(accounts, deployment, events);
}

/// A migration uses exactly its shares: what it leaves of the reserves and the sell tax
/// is the share that neither the fee, nor the liquidity, nor the buybacks take, plus less
/// than three lamports of rounding. With a fee of at most 2% that is never negative, so
/// that the pool has all that is paid out and set aside; a larger fee may ask for more
/// than there is. The tokens moved stay within the token reserves.
pub proof fn law_migration_uses_its_shares(
    accounts: MigrateBonding,
    deployment: Deployment,
    events: Seq<MigrationEvent>,
)
    requires
        migration_completes(accounts, deployment, events),
    ensures
        ({
            let pool = accounts.pool;
            let plan = migration_plan(accounts, deployment, events);
            let used = lamports_of(plan.fee) + lamports_of(plan.liquidity_sol)
                + plan.buyback_state.treasury_balance;
            let left = pool.real_sol_reserves + pool.buyback_treasury - used;
            let unshared = pool.real_sol_reserves * (200 - accounts.config.migration_fee_bps);
            &&& unshared <= left * 10_000 < unshared + 30_000
            &&& accounts.config.migration_fee_bps <= 200 ==> 0 <= left
            &&& tokens_of(plan.liquidity_tokens) <= pool.real_token_reserves
        }),
{
    law_completed_migration(accounts, deployment, events);
    let sol = accounts.pool.real_sol_reserves as int;
    let tokens = accounts.pool.real_token_reserves as int;
    let bps = accounts.config.migration_fee_bps as int;
    fees::lemma_bps_bounds(sol, bps);
    fees::lemma_bps_bounds(sol, 8000);
    fees::lemma_bps_bounds(sol, 1800);
    fees::lemma_bps_bounds(tokens, 8000);
    assert(sol * (200 - bps) == sol * 200 - sol * bps) by (nonlinear_arith);
    if bps <= 200 {
        assert(0 <= sol * (200 - bps)) by (nonlinear_arith)
            requires
                0 <= sol,
                bps <= 200,
        ;
    }
}

/// A migration marks its pool as migrated and changes nothing else of it.
pub proof fn law_migration_marks_its_pool(
    accounts: MigrateBonding,
    deployment: Deployment,
    events: Seq<MigrationEvent>,
)
    requires
        migration_completes(accounts, deployment, events),
    ensures
        migration_plan(accounts, deployment, events).pool == (BondingCurvePool {
            is_migrated: true,
            ..accounts.pool
        }),
{
    law_completed_migration(accounts, deployment, events);
}

/// A pool migrates once: on the pool that a migration stored, no later migration
/// completes, whatever its other accounts; and one that differs in nothing else is
/// refused as already migrated.
pub proof fn law_pool_migrates_once(
    first: MigrateBonding,
    first_events: Seq<MigrationEvent>,
    second: MigrateBonding,
    second_events: Seq<MigrationEvent>,
    deployment: Deployment,
)
    requires
        migration_completes(first, deployment, first_events),
        second.pool == migration_plan(first, deployment, first_events).pool,
    ensures
        !migration_completes(second, deployment, second_events),
        second == (MigrateBonding { pool: second.pool, ..first })
            ==> migrate_bonding::migration_step(
            second,
            deployment,
            MigrationPhase::Idle,
            MigrationEvent::Begin,
        ) == Err::<(MigrationPhase, MigrationAction), _>(
            InstructionError::Launchpad(LaunchpadError::AlreadyMigrated),
        ),
{
    law_completed_migration(first, deployment, first_events);
    if migration_completes(second, deployment, second_events) {
        law_completed_migration(second, deployment, second_events);
    }
}

/// Each transfer of a migration is signed with seeds that give the address it needs:
/// the SOL vault for SOL, the pool, which holds the token vault, for tokens.
pub proof fn law_migration_signs_for_its_vaults(
    accounts: MigrateBonding,
    deployment: Deployment,
    events: Seq<MigrationEvent>,
)
    requires
        migration_completes(accounts, deployment, events),
    ensures
        ({
            let plan = migration_plan(accounts, deployment, events);
            &&& plan.fee matches Some(transfer) ==> transfer.signer.sign_for(
                transfer.from,
                deployment,
            )
            &&& plan.liquidity_sol matches Some(transfer) ==> transfer.signer.sign_for(
                transfer.from,
                deployment,
            )
            &&& plan.liquidity_tokens matches Some(transfer) ==> transfer.signer.sign_for(
                transfer.authority,
                deployment,
            ) && transfer.authority == accounts.token_vault.owner
        }),
{
    law_completed_migration(accounts, deployment, events);
}

/// A migration opens a treasury that is ready for buybacks: its tallies are empty and
/// agree, it holds 18% of the SOL reserves and the sell tax, it is bound to the Meteora
/// pool that the migration created, and the first buyback may run in any slot, spends a
/// fifth, and is refused for its state only where the treasury holds less than 5
/// lamports.
pub proof fn law_migration_opens_treasury(
    accounts: MigrateBonding,
    deployment: Deployment,
    events: Seq<MigrationEvent>,
    slot: u64,
)
    requires
        migration_completes(accounts, deployment, events),
    ensures
        ({
            let plan = migration_plan(accounts, deployment, events);
            let state = plan.buyback_state;
            &&& state.wf()
            &&& state.total_tokens_bought == 0
            &&& state.total_sol_spent == 0
            &&& state.treasury_balance == fees::bps_of(
                accounts.pool.real_sol_reserves as int,
                1800,
            ) + accounts.pool.buyback_treasury
            &&& state.pool == accounts.pool_key
            &&& state.mint == accounts.pool.mint
            &&& state.meteora_pool == plan.pool_accounts.pool
            &&& state.next_spend() == state.treasury_balance as int / 5
            &&& state.spend_refusal(slot) == if state.treasury_balance < 5 {
                Some(LaunchpadError::InsufficientTreasury)
            } else {
                None
            }
        }),
{
    law_completed_migration(accounts, deployment, events);
    let treasury = migration_plan(
        accounts,
        deployment,
        events,
    ).buyback_state.treasury_balance as int;
    assert(treasury * 2000 / 10_000 == treasury / 5);
    fees::lemma_bps_bounds(accounts.pool.real_sol_reserves as int, 1800);
}

/// The state that a migration creates stands where buybacks look for it: no buyback of
/// that state is refused for the state's address.
pub proof fn law_migrated_state_is_found(
    accounts: MigrateBonding,
    deployment: Deployment,
    events: Seq<MigrationEvent>,
    buyback: ExecuteBuyback,
)
    requires
        migration_completes(accounts, deployment, events),
        buyback.buyback_state == migration_plan(accounts, deployment, events).buyback_state,
        buyback.buyback_state_key == accounts.buyback_state,
    ensures
        crate::pubkey::program_address(buyback.state_seeds(), deployment.program_id@) == Some(
            buyback.buyback_state_key@,
        ),
{
    law_completed_migration(accounts, deployment, events);
    let seeds = seq![BuybackState::SEED@, accounts.pool_key@];
    crate::pubkey::law_canonical_address(seeds, deployment.program_id@);
    assert(seeds.push(seq![buyback.buyback_state.bump]) =~= buyback.state_seeds());
}

/// The vault that buybacks pay from is the pool's own SOL vault, the one that the
/// migration paid from, with the bump that the pool stores. This holds exactly where the
/// stored bump is the canonical one; another bump stands for another address.
pub proof fn law_buyback_vault_is_the_pools(
    accounts: MigrateBonding,
    deployment: Deployment,
    events: Seq<MigrationEvent>,
    buyback: ExecuteBuyback,
)
    requires
        migration_completes(accounts, deployment, events),
        buyback.buyback_state == migration_plan(accounts, deployment, events).buyback_state,
        buyback.pool_mint == accounts.pool.mint,
    ensures
        crate::pubkey::is_canonical_bump(
            seq![BondingCurvePool::SOL_VAULT_SEED@, accounts.pool.mint@],
            deployment.program_id@,
            accounts.pool.sol_vault_bump,
        ) <==> crate::pubkey::canonical_address(
            buyback.vault_seeds(deployment),
            deployment.program_id@,
        ) == Some((accounts.sol_vault@, accounts.pool.sol_vault_bump)),
{
    law_completed_migration(accounts, deployment, events);
    let seeds = seq![BondingCurvePool::SOL_VAULT_SEED@, accounts.pool.mint@];
    let program_id = deployment.program_id@;
    let bump = accounts.pool.sol_vault_bump;
    assert(buyback.vault_seeds(deployment) =~= seeds);
    assert(seeds.push(seq![bump]) =~= accounts.sol_vault_signer().seeds(deployment));
    crate::pubkey::law_canonical_address(seeds, program_id);
    if crate::pubkey::is_canonical_bump(seeds, program_id, bump) {
        crate::pubkey::lemma_canonical_is_unique(
            seeds,
            program_id,
            Some((accounts.sol_vault@, bump)),
        );
    }
}

/// Every buyback that follows a migration, after any number of others, takes its lamports
/// out of the pool's own SOL vault, the one that the migration paid from. The bump that
/// the pool stores for the vault has to be the canonical one.
pub proof fn law_buybacks_pay_from_the_migrated_vault(
    accounts: MigrateBonding,
    deployment: Deployment,
    events: Seq<MigrationEvent>,
    earlier: Seq<BuybackCall>,
    call: BuybackCall,
)
    requires
        migration_completes(accounts, deployment, events),
        crate::pubkey::is_canonical_bump(
            seq![BondingCurvePool::SOL_VAULT_SEED@, accounts.pool.mint@],
            deployment.program_id@,
            accounts.pool.sol_vault_bump,
        ),
        buyback::is_history(
            migration_plan(accounts, deployment, events).buyback_state,
            earlier,
            deployment,
        ),
        call.accounts.buyback_state == buyback::after_history(
            migration_plan(accounts, deployment, events).buyback_state,
            earlier,
            deployment,
        ),
        call.completes(deployment),
    ensures
        ({
            let actions = buyback::buyback_actions(
                call.accounts,
                call.params,
                deployment,
                call.events,
            );
            &&& actions[0] is Transfer
            &&& actions[0]->Transfer_0.from == accounts.sol_vault
            &&& actions[0]->Transfer_0.signer == accounts.sol_vault_signer()
        }),
{
    let state = migration_plan(accounts, deployment, events).buyback_state;
    law_completed_migration(accounts, deployment, events);
    buyback::law_history_keeps_accounts(state, earlier, deployment);
    buyback::law_buyback_stays_on_its_pool(call.accounts, call.params, deployment, call.events);
    buyback::law_completed_buyback(call.accounts, call.params, deployment, call.events);
    buyback::law_buyback_pays_from_its_vault(call.accounts, call.params, deployment, call.events);
    let first = ExecuteBuyback { buyback_state: state, ..call.accounts };
    law_buyback_vault_is_the_pools(accounts, deployment, events, first);
    assert(first.vault_seeds(deployment) =~= call.accounts.vault_seeds(deployment));
    let actions = buyback::buyback_actions(call.accounts, call.params, deployment, call.events);
    crate::pubkey::lemma_key_is_its_bytes(actions[0]->Transfer_0.from, accounts.sol_vault);
}

/// Buybacks spend what the migration announced for them and no more: after any number of
/// buybacks, the treasury and what was spent add up to the announced allocation, and the
/// tallies agree.
pub proof fn law_allocation_is_accounted_for(
    accounts: MigrateBonding,
    deployment: Deployment,
    events: Seq<MigrationEvent>,
    calls: Seq<BuybackCall>,
)
    requires
        migration_completes(accounts, deployment, events),
        buyback::is_history(
            migration_plan(accounts, deployment, events).buyback_state,
            calls,
            deployment,
        ),
    ensures
        ({
            let announced = migration_actions(accounts, deployment, events)[2]->Finish_0;
            let after = buyback::after_history(
                migration_plan(accounts, deployment, events).buyback_state,
                calls,
                deployment,
            );
            &&& after.treasury_balance + after.total_sol_spent == announced.buyback_allocation
            &&& after.wf()
        }),
{
    law_completed_migration(accounts, deployment, events);
    buyback::law_history_keeps_accounts(
        migration_plan(accounts, deployment, events).buyback_state,
        calls,
        deployment,
    );
}

/// After a migration no buyback swaps on any Meteora pool but the one that the
/// migration created: such a call fails at its start.
pub proof fn law_buyback_needs_the_migrated_pool(
    accounts: MigrateBonding,
    deployment: Deployment,
    events: Seq<MigrationEvent>,
    buyback: ExecuteBuyback,
    params: ExecuteBuybackParams,
    slot: u64,
)
    requires
        migration_completes(accounts, deployment, events),
        buyback.buyback_state == migration_plan(accounts, deployment, events).buyback_state,
        buyback.meteora_pool != accounts.meteora_pool,
    ensures
        execute_buyback::buyback_step(
            buyback,
            params,
            deployment,
            BuybackPhase::Idle,
            BuybackEvent::Slot(slot),
        ) is Err,
{
    law_completed_migration(accounts, deployment, events);
}

} // verus!
