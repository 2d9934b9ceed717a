//! Buybacks, step by step.
use launchpad::cpi::{SeedTag, SwapParams, TokenAccount};
use launchpad::errors::{InstructionError, LaunchpadError};
use launchpad::events::BuybackExecuted;
use launchpad::instructions::execute_buyback::{
    handle_execute_buyback, BuybackAction, BuybackEvent, BuybackPhase, ExecuteBuyback,
    ExecuteBuybackParams, Spend,
};
use launchpad::pubkey::{address_with_bump, find_address, Pubkey};
use launchpad::state::bonding_curve_pool::BondingCurvePool;
use launchpad::state::buyback::{BuybackMode, BuybackState};
use launchpad::state::global_config::Deployment;
use launchpad::state::presale_pool::PresalePool;

const WSOL: [u8; 32] = [
    6, 155, 136, 87, 254, 171, 129, 132, 251, 104, 127, 99, 70, 24, 192, 53, 218, 196, 57, 220, 26,
    235, 59, 85, 152, 160, 240, 0, 0, 0, 0, 1,
];

fn key(n: u8) -> Pubkey {
    Pubkey { bytes: [n; 32] }
}

fn deployment() -> Deployment {
    Deployment {
        program_id: key(1),
        meteora_program_id: key(2),
        config_seed: b"config".to_vec(),
        pool_seed: b"pool".to_vec(),
        token_vault_seed: b"token_vault".to_vec(),
    }
}

fn state(pool_type: u8, treasury_balance: u64) -> BuybackState {
    let (_, bump) = find_address(b"buyback", &key(10), &key(1)).unwrap();
    BuybackState {
        pool: key(10),
        mint: key(11),
        meteora_pool: key(12),
        treasury_balance,
        last_buyback_slot: 0,
        total_sol_spent: 0,
        total_tokens_bought: 0,
        total_tokens_burned: 0,
        total_tokens_lp: 0,
        pool_type,
        bump,
    }
}

fn accounts(state: BuybackState) -> ExecuteBuyback {
    let tag: &[u8] = if state.pool_type == 0 { b"bonding_sol_vault" } else { b"presale_sol_vault" };
    ExecuteBuyback {
        payer: key(20),
        buyback_state_key: address_with_bump(b"buyback", &state.pool, state.bump, &key(1)).unwrap(),
        buyback_state: state,
        buyback_sol_vault: find_address(tag, &key(11), &key(1)).unwrap().0,
        pool_mint: key(11),
        payer_wsol_account: key(21),
        payer_token_account: TokenAccount {
            key: key(22),
            mint: key(11),
            owner: key(20),
            amount: 1_000,
        },
        token_mint: key(11),
        meteora_program: key(2),
        meteora_pool: key(12),
        meteora_input_vault: key(23),
        meteora_output_vault: key(24),
        wsol_mint: Pubkey { bytes: WSOL },
        protocol_fee: key(25),
        token_program: key(26),
    }
}

fn burn(min_tokens_out: u64) -> ExecuteBuybackParams {
    ExecuteBuybackParams { mode: BuybackMode::Burn, min_tokens_out }
}

fn add_liquidity(min_tokens_out: u64) -> ExecuteBuybackParams {
    ExecuteBuybackParams { mode: BuybackMode::AddLiquidity, min_tokens_out }
}

fn run(
    accounts: &ExecuteBuyback,
    params: &ExecuteBuybackParams,
    events: &[BuybackEvent],
) -> Result<Vec<BuybackAction>, InstructionError> {
    let deployment = deployment();
    let mut phase = BuybackPhase::Idle;
    let mut actions = Vec::new();
    for event in events {
        let (next, action) = handle_execute_buyback(accounts, params, &deployment, phase, *event)?;
        phase = next;
        actions.push(action);
    }
    Ok(actions)
}

fn start_error(accounts: &ExecuteBuyback, slot: u64) -> InstructionError {
    run(accounts, &burn(0), &[BuybackEvent::Slot(slot)]).unwrap_err()
}

fn launchpad_error(error: LaunchpadError) -> InstructionError {
    InstructionError::Launchpad(error)
}

fn finish(actions: &[BuybackAction]) -> (BuybackState, BuybackExecuted) {
    match actions.last() {
        Some(BuybackAction::Finish(state, announced)) => (*state, *announced),
        other => panic!("not finished: {:?}", other),
    }
}

#[test]
fn seeds_are_the_documented_words() {
    assert_eq!(&BuybackState::SEED, b"buyback");
    assert_eq!(&PresalePool::SEED, b"presale_pool");
    assert_eq!(&PresalePool::SOL_VAULT_SEED, b"presale_sol_vault");
    assert_eq!(&PresalePool::TOKEN_VAULT_SEED, b"presale_token_vault");
    assert_eq!(&BondingCurvePool::SOL_VAULT_SEED, b"bonding_sol_vault");
    let deployment = deployment();
    assert_eq!(SeedTag::BondingSolVault.to_bytes(&deployment), b"bonding_sol_vault");
    assert_eq!(SeedTag::PresaleSolVault.to_bytes(&deployment), b"presale_sol_vault");
    assert_eq!(SeedTag::BondingPool.to_bytes(&deployment), b"pool");
}

#[test]
fn presale_targets_are_in_lamports() {
    assert_eq!(PresalePool::MIN_MIGRATION_TARGET, 100 * 1_000_000_000);
    assert_eq!(PresalePool::MAX_MIGRATION_TARGET, 10_000 * 1_000_000_000);
}

#[test]
fn bonding_buyback_burns_what_it_buys() {
    let accounts = accounts(state(0, 1_000_004));
    let actions = run(
        &accounts,
        &burn(400),
        &[
            BuybackEvent::Slot(77),
            BuybackEvent::Transferred,
            BuybackEvent::Swapped { token_balance: 1_500 },
            BuybackEvent::Burned,
            BuybackEvent::Time(1_700_000_000),
        ],
    )
    .unwrap();
    match actions[0] {
        BuybackAction::Transfer(transfer) => {
            assert_eq!(transfer.from, accounts.buyback_sol_vault);
            assert_eq!(transfer.to, key(21));
            assert_eq!(transfer.lamports, 200_000);
            assert_eq!(transfer.signer.tag, SeedTag::BondingSolVault);
            assert_eq!(transfer.signer.key, key(11));
            let signed = address_with_bump(
                b"bonding_sol_vault",
                &transfer.signer.key,
                transfer.signer.bump,
                &key(1),
            );
            assert_eq!(signed, Some(transfer.from));
        }
        other => panic!("not a transfer: {:?}", other),
    }
    match actions[1] {
        BuybackAction::Swap(swap, params) => {
            assert_eq!(params, SwapParams { amount_in: 200_000, minimum_amount_out: 400 });
            assert_eq!(swap.pool, key(12));
            assert_eq!(swap.input_vault, key(23));
            assert_eq!(swap.output_vault, key(24));
            assert_eq!(swap.input_mint, Pubkey { bytes: WSOL });
            assert_eq!(swap.output_mint, key(11));
            assert_eq!(swap.user_input_token, key(21));
            assert_eq!(swap.user_output_token, key(22));
            assert_eq!(swap.user, key(20));
            assert_eq!(swap.protocol_fee, key(25));
            assert_eq!(swap.input_token_program, key(26));
            assert_eq!(swap.output_token_program, key(26));
            assert_eq!(swap.meteora_program, key(2));
        }
        other => panic!("not a swap: {:?}", other),
    }
    match actions[2] {
        BuybackAction::Burn(burn) => {
            assert_eq!((burn.mint, burn.from, burn.authority), (key(11), key(22), key(20)));
            assert_eq!(burn.amount, 500);
        }
        other => panic!("not a burn: {:?}", other),
    }
    assert_eq!(actions[3], BuybackAction::ReadTime);
    let (stored, announced) = finish(&actions);
    assert_eq!(
        stored,
        BuybackState {
            treasury_balance: 800_004,
            last_buyback_slot: 77,
            total_sol_spent: 200_000,
            total_tokens_bought: 500,
            total_tokens_burned: 500,
            ..accounts.buyback_state
        }
    );
    assert_eq!(
        announced,
        BuybackExecuted {
            pool: key(10),
            sol_spent: 200_000,
            tokens_received: 500,
            mode: 0,
            timestamp: 1_700_000_000,
        }
    );
}

#[test]
fn presale_buyback_adds_liquidity() {
    let accounts = accounts(state(1, 1_000));
    let actions = run(
        &accounts,
        &add_liquidity(25),
        &[
            BuybackEvent::Slot(5),
            BuybackEvent::Transferred,
            BuybackEvent::Swapped { token_balance: 1_025 },
            BuybackEvent::Time(-1),
        ],
    )
    .unwrap();
    match actions[0] {
        BuybackAction::Transfer(transfer) => {
            assert_eq!(transfer.lamports, 600);
            assert_eq!(transfer.signer.tag, SeedTag::PresaleSolVault);
        }
        other => panic!("not a transfer: {:?}", other),
    }
    assert_eq!(actions[2], BuybackAction::ReadTime);
    let (stored, announced) = finish(&actions);
    assert_eq!(stored.treasury_balance, 400);
    assert_eq!(stored.total_sol_spent, 600);
    assert_eq!(stored.total_tokens_lp, 25);
    assert_eq!(stored.total_tokens_burned, 0);
    assert_eq!(stored.total_tokens_bought, 25);
    assert_eq!(announced.mode, 1);
    assert_eq!(announced.timestamp, -1);
}

#[test]
fn two_buybacks_keep_their_distance() {
    let first = accounts(state(0, 1_000));
    let actions = run(
        &first,
        &burn(0),
        &[
            BuybackEvent::Slot(100),
            BuybackEvent::Transferred,
            BuybackEvent::Swapped { token_balance: 1_000 },
            BuybackEvent::Burned,
            BuybackEvent::Time(0),
        ],
    )
    .unwrap();
    let (stored, _) = finish(&actions);
    let second = accounts(stored);
    assert_eq!(start_error(&second, 100), launchpad_error(LaunchpadError::BuybackTooFrequent));
    assert_eq!(start_error(&second, 109), launchpad_error(LaunchpadError::BuybackTooFrequent));
    let actions = run(&second, &burn(0), &[BuybackEvent::Slot(110)]).unwrap();
    match actions[0] {
        BuybackAction::Transfer(transfer) => assert_eq!(transfer.lamports, 160),
        other => panic!("not a transfer: {:?}", other),
    }
}

#[test]
fn treasury_and_spent_add_up_over_a_history() {
    let mut current = state(1, 1_000_003);
    let mut slot = 50;
    let mut calls = 0;
    while current.treasury_balance >= 2 {
        let call = accounts(current);
        let actions = run(
            &call,
            &add_liquidity(0),
            &[
                BuybackEvent::Slot(slot),
                BuybackEvent::Transferred,
                BuybackEvent::Swapped { token_balance: 1_007 },
                BuybackEvent::Time(0),
            ],
        )
        .unwrap();
        current = finish(&actions).0;
        slot += 10;
        calls += 1;
        assert_eq!(current.treasury_balance + current.total_sol_spent, 1_000_003);
        assert_eq!(current.total_tokens_bought, 7 * calls);
        assert_eq!(
            current.total_tokens_bought,
            current.total_tokens_burned + current.total_tokens_lp
        );
    }
    assert_eq!(current.treasury_balance, 1);
    assert_eq!(
        start_error(&accounts(current), slot),
        launchpad_error(LaunchpadError::InsufficientTreasury)
    );
}

#[test]
fn small_treasuries_are_refused() {
    let refused = launchpad_error(LaunchpadError::InsufficientTreasury);
    assert_eq!(start_error(&accounts(state(0, 0)), 1), refused);
    assert_eq!(start_error(&accounts(state(0, 4)), 1), refused);
    assert_eq!(start_error(&accounts(state(1, 1)), 1), refused);
    assert!(run(&accounts(state(0, 5)), &burn(0), &[BuybackEvent::Slot(1)]).is_ok());
    assert!(run(&accounts(state(1, 2)), &burn(0), &[BuybackEvent::Slot(1)]).is_ok());
}

#[test]
fn plans_of_the_state_alone() {
    let mut s = state(0, u64::MAX);
    assert_eq!(s.plan_spend(0), Ok(3_689_348_814_741_910_323));
    s.pool_type = 1;
    assert_eq!(s.plan_spend(0), Ok(11_068_046_444_225_730_969));
    s.pool_type = 2;
    assert_eq!(s.plan_spend(0), Err(LaunchpadError::InvalidBuybackMode));
    s.last_buyback_slot = u64::MAX - 9;
    assert_eq!(s.plan_spend(u64::MAX), Err(LaunchpadError::MathOverflow));
    s.last_buyback_slot = u64::MAX - 10;
    assert_eq!(s.plan_spend(u64::MAX - 1), Err(LaunchpadError::BuybackTooFrequent));
    assert_eq!(s.plan_spend(u64::MAX), Err(LaunchpadError::InvalidBuybackMode));
}

#[test]
fn records_refuse_without_a_change() {
    let before = state(0, 10);
    let mut s = before;
    assert_eq!(s.record_spend(11, 3), Err(LaunchpadError::MathUnderflow));
    assert_eq!(s, before);
    s.total_sol_spent = u64::MAX;
    let full = s;
    assert_eq!(s.record_spend(1, 3), Err(LaunchpadError::MathOverflow));
    assert_eq!(s, full);
    s.total_tokens_lp = u64::MAX;
    let full = s;
    assert_eq!(s.record_purchase(BuybackMode::AddLiquidity, 1), Err(LaunchpadError::MathOverflow));
    assert_eq!(s, full);
    assert_eq!(s.record_purchase(BuybackMode::Burn, 1), Ok(()));
    assert_eq!((s.total_tokens_burned, s.total_tokens_bought), (1, 1));
}

#[test]
fn spent_tally_may_overflow() {
    let mut s = state(0, 100);
    s.total_sol_spent = u64::MAX - 19;
    assert_eq!(start_error(&accounts(s), 1), launchpad_error(LaunchpadError::MathOverflow));
}

#[test]
fn wrong_accounts_are_refused_in_order() {
    let good = accounts(state(0, 1_000));
    let params = launchpad_error(LaunchpadError::InvalidPoolParams);

    let mut bad = good;
    bad.wsol_mint = key(99);
    assert_eq!(start_error(&bad, 1), params);
    let mut bad = good;
    bad.meteora_pool = key(99);
    assert_eq!(start_error(&bad, 1), params);
    let mut bad = good;
    bad.meteora_program = key(99);
    assert_eq!(start_error(&bad, 1), params);
    let mut bad = good;
    bad.pool_mint = key(99);
    assert_eq!(start_error(&bad, 1), params);
    let mut bad = good;
    bad.buyback_sol_vault = key(99);
    assert_eq!(start_error(&bad, 1), params);

    let mut bad = good;
    bad.token_mint = key(99);
    assert_eq!(start_error(&bad, 1), InstructionError::ConstraintTokenMint);
    bad.payer_token_account.mint = key(99);
    assert_eq!(start_error(&bad, 1), params);

    let mut bad = good;
    bad.buyback_state_key = key(99);
    bad.buyback_state.treasury_balance = 0;
    assert_eq!(start_error(&bad, 1), InstructionError::ConstraintSeeds);
}

#[test]
fn presale_vault_does_not_pay_for_a_bonding_pool() {
    let mut bad = accounts(state(0, 1_000));
    bad.buyback_sol_vault = find_address(b"presale_sol_vault", &key(11), &key(1)).unwrap().0;
    assert_eq!(start_error(&bad, 1), launchpad_error(LaunchpadError::InvalidPoolParams));
}

#[test]
fn unknown_pool_type_is_refused() {
    assert_eq!(
        start_error(&accounts(state(2, 1_000)), 1),
        launchpad_error(LaunchpadError::InvalidBuybackMode)
    );
}

#[test]
fn missing_addresses_are_told_apart() {
    let good = accounts(state(0, 1_000));
    let deployment = deployment();
    assert_eq!(
        good.start(&deployment, 1, None, Some((good.buyback_sol_vault, 255))),
        Err(InstructionError::ConstraintSeeds)
    );
    assert_eq!(
        good.start(&deployment, 1, Some(good.buyback_state_key), None),
        Err(InstructionError::NoProgramAddress)
    );
    match good.start(
        &deployment,
        1,
        Some(good.buyback_state_key),
        Some((good.buyback_sol_vault, 250)),
    ) {
        Ok((BuybackPhase::Funding(spend), BuybackAction::Transfer(transfer))) => {
            assert_eq!(spend.sol_spent, 200);
            assert_eq!(transfer.signer.bump, 250);
        }
        other => panic!("not started: {:?}", other),
    }
}

#[test]
fn poor_swaps_are_refused() {
    let accounts = accounts(state(0, 1_000));
    let spend = Spend { state: accounts.buyback_state, sol_spent: 200 };
    assert_eq!(
        accounts.receive(&burn(0), spend, 999),
        Err(launchpad_error(LaunchpadError::MathUnderflow))
    );
    assert_eq!(
        accounts.receive(&burn(10), spend, 1_009),
        Err(launchpad_error(LaunchpadError::SlippageExceeded))
    );
    assert!(accounts.receive(&burn(10), spend, 1_010).is_ok());
    assert!(accounts.receive(&add_liquidity(0), spend, 1_000).is_ok());
}

#[test]
fn token_tally_may_overflow() {
    let mut s = state(0, 1_000);
    s.total_tokens_bought = u64::MAX - 4;
    let accounts = accounts(s);
    let begin = [
        BuybackEvent::Slot(1),
        BuybackEvent::Transferred,
        BuybackEvent::Swapped { token_balance: 1_005 },
    ];
    assert_eq!(
        run(&accounts, &add_liquidity(0), &begin),
        Err(launchpad_error(LaunchpadError::MathOverflow))
    );
    let actions = run(&accounts, &burn(0), &begin).unwrap();
    assert!(matches!(actions[2], BuybackAction::Burn(_)));
    let mut events = begin.to_vec();
    events.push(BuybackEvent::Burned);
    assert_eq!(
        run(&accounts, &burn(0), &events),
        Err(launchpad_error(LaunchpadError::MathOverflow))
    );
}

#[test]
fn events_out_of_order_are_refused() {
    let accounts = accounts(state(0, 1_000));
    let refused = Err(InstructionError::OutOfOrder);
    assert_eq!(run(&accounts, &burn(0), &[BuybackEvent::Transferred]), refused);
    assert_eq!(
        run(&accounts, &burn(0), &[BuybackEvent::Slot(1), BuybackEvent::Slot(2)]),
        refused
    );
    let last = [
        BuybackEvent::Slot(1),
        BuybackEvent::Transferred,
        BuybackEvent::Swapped { token_balance: 1_000 },
        BuybackEvent::Burned,
        BuybackEvent::Time(0),
        BuybackEvent::Time(0),
    ];
    assert_eq!(run(&accounts, &burn(0), &last), refused);
}
