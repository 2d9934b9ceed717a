//! Migrations, step by step.
use launchpad::cpi::{SeedTag, SignerSeeds, SolTransfer, TokenAccount, TokenTransfer};
use launchpad::errors::{InstructionError, LaunchpadError};
use launchpad::events::MigrationCompleted;
use launchpad::instructions::execute_buyback::{
    handle_execute_buyback, BuybackAction, BuybackEvent, BuybackPhase, ExecuteBuyback,
    ExecuteBuybackParams,
};
use launchpad::instructions::migrate_bonding::{
    handle_migrate_bonding, split_reserves, MigrateBonding, MigrationAction, MigrationCall,
    MigrationEvent, MigrationPhase, MigrationPlan, MigrationSplit,
};
use launchpad::pubkey::{address_with_bump, find_address, tag_address_with_bump, Pubkey};
use launchpad::state::bonding_curve_pool::BondingCurvePool;
use launchpad::state::buyback::{BuybackMode, BuybackState};
use launchpad::state::global_config::{Deployment, GlobalConfig};

const WSOL: [u8; 32] = [
    6, 155, 136, 87, 254, 171, 129, 132, 251, 104, 127, 99, 70, 24, 192, 53, 218, 196, 57, 220, 26,
    235, 59, 85, 152, 160, 240, 0, 0, 0, 0, 1,
];

fn key(n: u8) -> Pubkey {
    Pubkey { bytes: [n; 32] }
}

fn deployment() -> Deployment {
    Deployment {
        program_id: key(1),
        meteora_program_id: key(2),
        config_seed: b"config".to_vec(),
        pool_seed: b"pool".to_vec(),
        token_vault_seed: b"token_vault".to_vec(),
    }
}

fn config_address() -> (Pubkey, u8) {
    for bump in (0..=255u8).rev() {
        if let Some(found) = tag_address_with_bump(b"config", bump, &key(1)) {
            return (found, bump);
        }
    }
    panic!("no bump fits");
}

fn accounts() -> MigrateBonding {
    let mint = key(11);
    let (config_key, config_bump) = config_address();
    let (pool_key, pool_bump) = find_address(b"pool", &mint, &key(1)).unwrap();
    let (sol_vault, sol_vault_bump) = find_address(b"bonding_sol_vault", &mint, &key(1)).unwrap();
    let (token_vault, token_vault_bump) = find_address(b"token_vault", &mint, &key(1)).unwrap();
    MigrateBonding {
        payer: key(20),
        config_key,
        config: GlobalConfig {
            admin: key(20),
            platform_wallet: key(21),
            migration_fee_bps: 100,
            is_paused: false,
            bump: config_bump,
        },
        pool_key,
        pool: BondingCurvePool {
            mint,
            real_sol_reserves: 85_000_000_123,
            real_token_reserves: 200_000_007,
            migration_target: 85_000_000_000,
            buyback_treasury: 1_000_000,
            is_migrated: false,
            bump: pool_bump,
            sol_vault_bump,
            token_vault_bump,
        },
        sol_vault,
        token_vault: TokenAccount { key: token_vault, mint, owner: pool_key, amount: 300_000_000 },
        buyback_state: find_address(b"buyback", &pool_key, &key(1)).unwrap().0,
        platform_wallet: key(21),
        meteora_program: key(2),
        meteora_pool: key(30),
        meteora_pool_config: key(31),
        position_nft_mint: key(32),
        position_nft_account: key(33),
        position_account: key(34),
        position_nft_metadata: key(35),
        meteora_vault_a: key(36),
        meteora_vault_b: key(37),
        wsol_mint: Pubkey { bytes: WSOL },
        token_mint: mint,
        payer_wsol_account: key(38),
        payer_token_account: key(39),
        token_program: key(40),
        associated_token_program: key(41),
        system_program: key(42),
        rent: key(43),
    }
}

fn begin(accounts: &MigrateBonding) -> Result<(MigrationPhase, MigrationAction), InstructionError> {
    handle_migrate_bonding(accounts, &deployment(), MigrationPhase::Idle, MigrationEvent::Begin)
}

fn run(accounts: &MigrateBonding) -> (MigrationPlan, MigrationCompleted) {
    let deployment = deployment();
    let (phase, _) = begin(accounts).unwrap();
    let (phase, action) = handle_migrate_bonding(
        accounts,
        &deployment,
        phase,
        MigrationEvent::Priced { sqrt_price: 1 << 70 },
    )
    .unwrap();
    let plan = match action {
        MigrationAction::Settle(plan) => plan,
        other => panic!("no plan: {:?}", other),
    };
    match handle_migrate_bonding(
        accounts,
        &deployment,
        phase,
        MigrationEvent::Settled { timestamp: 1_700_000_000 },
    ) {
        Ok((MigrationPhase::Complete, MigrationAction::Finish(announced))) => (plan, announced),
        other => panic!("not finished: {:?}", other),
    }
}

fn launchpad_error(
    error: LaunchpadError,
) -> Result<(MigrationPhase, MigrationAction), InstructionError> {
    Err(InstructionError::Launchpad(error))
}

#[test]
fn reserves_are_divided() {
    let accounts = accounts();
    assert_eq!(
        split_reserves(&accounts.pool, &accounts.config),
        Ok(MigrationSplit {
            migration_fee: 850_000_001,
            liquidity_sol: 68_000_000_098,
            buyback_sol: 15_301_000_022,
            liquidity_tokens: 160_000_005,
        })
    );
}

#[test]
fn splits_that_do_not_fit_are_refused() {
    let mut accounts = accounts();
    accounts.pool.buyback_treasury = u64::MAX;
    assert_eq!(
        split_reserves(&accounts.pool, &accounts.config),
        Err(LaunchpadError::MathOverflow)
    );
    assert_eq!(begin(&accounts), launchpad_error(LaunchpadError::MathOverflow));
    accounts.config.migration_fee_bps = 10_001;
    assert_eq!(begin(&accounts), launchpad_error(LaunchpadError::MathUnderflow));
    accounts.pool.real_sol_reserves = u64::MAX;
    assert_eq!(begin(&accounts), launchpad_error(LaunchpadError::CastOverflow));
}

#[test]
fn migration_settles_the_pool() {
    let accounts = accounts();
    let (phase, action) = begin(&accounts).unwrap();
    assert!(matches!(phase, MigrationPhase::Pricing(_, _)));
    assert_eq!(
        action,
        MigrationAction::QuotePrice {
            liquidity_sol: 68_000_000_098,
            liquidity_tokens: 160_000_005,
        }
    );

    let (plan, announced) = run(&accounts);
    assert_eq!(plan.pool, BondingCurvePool { is_migrated: true, ..accounts.pool });
    let (state_key, bump) = find_address(b"buyback", &accounts.pool_key, &key(1)).unwrap();
    assert_eq!(state_key, accounts.buyback_state);
    assert_eq!(
        plan.buyback_state,
        BuybackState {
            pool: accounts.pool_key,
            mint: key(11),
            meteora_pool: key(30),
            treasury_balance: 15_301_000_022,
            last_buyback_slot: 0,
            total_sol_spent: 0,
            total_tokens_bought: 0,
            total_tokens_burned: 0,
            total_tokens_lp: 0,
            pool_type: 0,
            bump,
        }
    );
    let vault_signer = SignerSeeds {
        tag: SeedTag::BondingSolVault,
        key: key(11),
        bump: accounts.pool.sol_vault_bump,
    };
    assert_eq!(
        plan.fee,
        Some(SolTransfer {
            from: accounts.sol_vault,
            to: key(21),
            signer: vault_signer,
            lamports: 850_000_001,
        })
    );
    assert_eq!(
        plan.liquidity_sol,
        Some(SolTransfer {
            from: accounts.sol_vault,
            to: key(38),
            signer: vault_signer,
            lamports: 68_000_000_098,
        })
    );
    assert_eq!(
        plan.liquidity_tokens,
        Some(TokenTransfer {
            from: accounts.token_vault.key,
            to: key(39),
            authority: accounts.pool_key,
            signer: SignerSeeds {
                tag: SeedTag::BondingPool,
                key: key(11),
                bump: accounts.pool.bump,
            },
            amount: 160_000_005,
        })
    );
    assert_eq!(plan.pool_params.liquidity, 160_000_005);
    assert_eq!(plan.pool_params.sqrt_price, 1 << 70);
    assert_eq!(plan.pool_params.activation_point, None);
    assert_eq!(plan.pool_accounts.creator, key(20));
    assert_eq!(plan.pool_accounts.payer, key(20));
    assert_eq!(plan.pool_accounts.position_nft_mint, key(32));
    assert_eq!(plan.pool_accounts.position_nft_account, key(33));
    assert_eq!(plan.pool_accounts.token_a_mint, Pubkey { bytes: WSOL });
    assert_eq!(plan.pool_accounts.token_b_mint, key(11));
    assert_eq!(plan.pool_accounts.token_a_vault, key(36));
    assert_eq!(plan.pool_accounts.token_b_vault, key(37));
    assert_eq!(plan.pool_accounts.payer_token_a, key(38));
    assert_eq!(plan.pool_accounts.payer_token_b, key(39));
    assert_eq!(plan.pool_accounts.pool, key(30));
    assert_eq!(plan.pool_accounts.pool_config, key(31));
    assert_eq!(plan.pool_accounts.position, key(34));
    assert_eq!(plan.pool_accounts.position_nft_metadata, key(35));
    assert_eq!(plan.pool_accounts.token_program_a, key(40));
    assert_eq!(plan.pool_accounts.token_program_b, key(40));
    assert_eq!(plan.pool_accounts.associated_token_program, key(41));
    assert_eq!(plan.pool_accounts.system_program, key(42));
    assert_eq!(plan.pool_accounts.rent, key(43));
    assert_eq!(plan.pool_accounts.meteora_program, key(2));
    assert_eq!(
        announced,
        MigrationCompleted {
            pool: accounts.pool_key,
            pool_type: 0,
            meteora_pool: key(30),
            liquidity_sol: 68_000_000_098,
            liquidity_tokens: 160_000_005,
            platform_fee: 850_000_001,
            buyback_allocation: 15_301_000_022,
            timestamp: 1_700_000_000,
        }
    );
}

#[test]
fn pool_is_created_after_all_that_funds_it() {
    let mut accounts = accounts();
    let (plan, _) = run(&accounts);
    assert_eq!(
        plan.to_calls(),
        vec![
            MigrationCall::TransferSol(plan.fee.unwrap()),
            MigrationCall::TransferSol(plan.liquidity_sol.unwrap()),
            MigrationCall::TransferTokens(plan.liquidity_tokens.unwrap()),
            MigrationCall::CreatePool(plan.pool_accounts, plan.pool_params),
        ]
    );
    accounts.config.migration_fee_bps = 0;
    let (plan, _) = run(&accounts);
    assert_eq!(plan.fee, None);
    assert_eq!(
        plan.to_calls(),
        vec![
            MigrationCall::TransferSol(plan.liquidity_sol.unwrap()),
            MigrationCall::TransferTokens(plan.liquidity_tokens.unwrap()),
            MigrationCall::CreatePool(plan.pool_accounts, plan.pool_params),
        ]
    );
}

#[test]
fn migration_stays_within_the_reserves() {
    let mut accounts = accounts();
    accounts.config.migration_fee_bps = 200;
    let (plan, announced) = run(&accounts);
    let used = announced.platform_fee + announced.liquidity_sol + plan.buyback_state.treasury_balance;
    let held = accounts.pool.real_sol_reserves + accounts.pool.buyback_treasury;
    assert!(used <= held);
    assert!(held - used < 3);
}

#[test]
fn larger_fee_may_ask_for_too_much() {
    let mut accounts = accounts();
    accounts.config.migration_fee_bps = 10_000;
    let (plan, announced) = run(&accounts);
    let used = announced.platform_fee + announced.liquidity_sol + plan.buyback_state.treasury_balance;
    assert!(used > accounts.pool.real_sol_reserves + accounts.pool.buyback_treasury);
}

#[test]
fn transfers_of_nothing_are_left_out() {
    let mut accounts = accounts();
    accounts.pool.real_sol_reserves = 1;
    accounts.pool.real_token_reserves = 1;
    accounts.pool.migration_target = 1;
    let (plan, announced) = run(&accounts);
    assert_eq!(plan.fee, None);
    assert_eq!(plan.liquidity_sol, None);
    assert_eq!(plan.liquidity_tokens, None);
    assert_eq!(plan.buyback_state.treasury_balance, 1_000_000);
    assert_eq!(announced.platform_fee, 0);
    assert_eq!(
        plan.to_calls(),
        vec![MigrationCall::CreatePool(plan.pool_accounts, plan.pool_params)]
    );
}

#[test]
fn pool_migrates_once() {
    let mut accounts = accounts();
    accounts.pool = run(&accounts).0.pool;
    assert_eq!(begin(&accounts), launchpad_error(LaunchpadError::AlreadyMigrated));
}

#[test]
fn guards_refuse_in_order() {
    let good = accounts();
    assert!(begin(&good).is_ok());

    let mut bad = good;
    bad.token_mint = key(99);
    assert_eq!(begin(&bad), launchpad_error(LaunchpadError::InvalidPoolParams));
    let mut bad = good;
    bad.wsol_mint = key(99);
    assert_eq!(begin(&bad), launchpad_error(LaunchpadError::InvalidPoolParams));
    let mut bad = good;
    bad.meteora_program = key(99);
    assert_eq!(begin(&bad), launchpad_error(LaunchpadError::InvalidPoolParams));

    bad.platform_wallet = key(99);
    assert_eq!(begin(&bad), launchpad_error(LaunchpadError::InvalidFeeConfig));
    bad.token_vault.mint = key(99);
    assert_eq!(begin(&bad), Err(InstructionError::ConstraintTokenMint));
    bad.token_vault.owner = key(99);
    assert_eq!(begin(&bad), Err(InstructionError::ConstraintTokenOwner));
    bad.token_vault.key = key(99);
    assert_eq!(begin(&bad), Err(InstructionError::ConstraintSeeds));
    bad.pool.migration_target = bad.pool.real_sol_reserves + 1;
    assert_eq!(begin(&bad), launchpad_error(LaunchpadError::MigrationTargetNotReached));
    bad.pool.is_migrated = true;
    assert_eq!(begin(&bad), launchpad_error(LaunchpadError::AlreadyMigrated));
    let pool_bump = bad.pool.bump;
    bad.pool.bump = pool_bump.wrapping_sub(1);
    assert_eq!(begin(&bad), Err(InstructionError::ConstraintSeeds));
    bad.payer = key(99);
    assert_eq!(begin(&bad), launchpad_error(LaunchpadError::UnauthorizedAdmin));
    bad.config.is_paused = true;
    assert_eq!(begin(&bad), launchpad_error(LaunchpadError::PlatformPaused));
    bad.config_key = key(99);
    assert_eq!(begin(&bad), Err(InstructionError::ConstraintSeeds));

    let mut bad = good;
    bad.sol_vault = key(99);
    assert_eq!(begin(&bad), Err(InstructionError::ConstraintSeeds));
    let mut bad = good;
    bad.buyback_state = key(99);
    assert_eq!(begin(&bad), Err(InstructionError::ConstraintSeeds));
}

#[test]
fn state_without_an_address_is_refused() {
    let accounts = accounts();
    let deployment = deployment();
    let mut found = accounts.derive_addresses(&deployment);
    assert!(accounts.start(&deployment, &found).is_ok());
    found.buyback_state = None;
    assert_eq!(accounts.start(&deployment, &found), Err(InstructionError::NoProgramAddress));
}

#[test]
fn steps_out_of_order_are_refused() {
    let accounts = accounts();
    assert_eq!(
        handle_migrate_bonding(
            &accounts,
            &deployment(),
            MigrationPhase::Complete,
            MigrationEvent::Begin,
        ),
        Err(InstructionError::OutOfOrder)
    );
    assert_eq!(
        handle_migrate_bonding(
            &accounts,
            &deployment(),
            MigrationPhase::Idle,
            MigrationEvent::Settled { timestamp: 0 },
        ),
        Err(InstructionError::OutOfOrder)
    );
}

fn buyback_after(migration: &MigrateBonding, plan: &MigrationPlan) -> ExecuteBuyback {
    ExecuteBuyback {
        payer: key(50),
        buyback_state_key: migration.buyback_state,
        buyback_state: plan.buyback_state,
        buyback_sol_vault: migration.sol_vault,
        pool_mint: key(11),
        payer_wsol_account: key(51),
        payer_token_account: TokenAccount { key: key(52), mint: key(11), owner: key(50), amount: 0 },
        token_mint: key(11),
        meteora_program: key(2),
        meteora_pool: migration.meteora_pool,
        meteora_input_vault: key(36),
        meteora_output_vault: key(37),
        wsol_mint: Pubkey { bytes: WSOL },
        protocol_fee: key(53),
        token_program: key(40),
    }
}

#[test]
fn migrated_pool_buys_back() {
    let migration = accounts();
    let (plan, _) = run(&migration);
    let mut buyback = buyback_after(&migration, &plan);
    let params = ExecuteBuybackParams { mode: BuybackMode::Burn, min_tokens_out: 0 };
    let step = handle_execute_buyback(
        &buyback,
        &params,
        &deployment(),
        BuybackPhase::Idle,
        BuybackEvent::Slot(0),
    );
    match step {
        Ok((_, BuybackAction::Transfer(transfer))) => {
            assert_eq!(transfer.lamports, 3_060_200_004);
            assert_eq!(transfer.from, migration.sol_vault);
            assert_eq!(
                address_with_bump(
                    b"bonding_sol_vault",
                    &key(11),
                    transfer.signer.bump,
                    &key(1)
                ),
                Some(migration.sol_vault)
            );
        }
        other => panic!("not a transfer: {:?}", other),
    }
    buyback.meteora_pool = key(99);
    assert_eq!(
        handle_execute_buyback(
            &buyback,
            &params,
            &deployment(),
            BuybackPhase::Idle,
            BuybackEvent::Slot(0),
        ),
        Err(InstructionError::Launchpad(LaunchpadError::InvalidPoolParams))
    );
}

#[test]
fn vault_at_a_lower_bump_pays_no_buyback() {
    let mut migration = accounts();
    let mint = migration.pool.mint;
    let canonical = migration.pool.sol_vault_bump;
    let mut lower = canonical - 1;
    while address_with_bump(b"bonding_sol_vault", &mint, lower, &key(1)).is_none() {
        lower -= 1;
    }
    migration.pool.sol_vault_bump = lower;
    migration.sol_vault = address_with_bump(b"bonding_sol_vault", &mint, lower, &key(1)).unwrap();
    let (plan, _) = run(&migration);
    assert_eq!(plan.fee.unwrap().from, migration.sol_vault);
    let buyback = buyback_after(&migration, &plan);
    let params = ExecuteBuybackParams { mode: BuybackMode::Burn, min_tokens_out: 0 };
    assert_eq!(
        handle_execute_buyback(
            &buyback,
            &params,
            &deployment(),
            BuybackPhase::Idle,
            BuybackEvent::Slot(0),
        ),
        Err(InstructionError::Launchpad(LaunchpadError::InvalidPoolParams))
    );
}

#[test]
fn announced_allocation_is_accounted_for() {
    let migration = accounts();
    let (plan, announced) = run(&migration);
    let params = ExecuteBuybackParams { mode: BuybackMode::Burn, min_tokens_out: 0 };
    let mut buyback = buyback_after(&migration, &plan);
    for slot in [100, 110, 125] {
        let mut phase = BuybackPhase::Idle;
        for event in [
            BuybackEvent::Slot(slot),
            BuybackEvent::Transferred,
            BuybackEvent::Swapped { token_balance: 9 },
            BuybackEvent::Burned,
            BuybackEvent::Time(0),
        ] {
            let (next, action) =
                handle_execute_buyback(&buyback, &params, &deployment(), phase, event).unwrap();
            phase = next;
            match action {
                BuybackAction::Transfer(transfer) => assert_eq!(transfer.from, migration.sol_vault),
                BuybackAction::Finish(state, _) => buyback.buyback_state = state,
                _ => {}
            }
        }
        let state = buyback.buyback_state;
        assert_eq!(state.treasury_balance + state.total_sol_spent, announced.buyback_allocation);
    }
    assert_eq!(buyback.buyback_state.total_tokens_burned, 27);
    assert_eq!(buyback.buyback_state.total_sol_spent, 7_466_888_010);
}
