//! What holds of whole buybacks, and of one after another.
use vstd::prelude::*;

use crate::cpi::SwapParams;
use crate::errors::{InstructionError, LaunchpadError};
use crate::events::BuybackExecuted;
use crate::fees;
use crate::instructions::execute_buyback;
use crate::instructions::execute_buyback::{
    BuybackAction, BuybackEvent, BuybackPhase, ExecuteBuyback, ExecuteBuybackParams, Receipt,
};
use crate::laws::buyback_steps;
use crate::laws::seeds;
use crate::state::buyback::{BuybackMode, BuybackState};
use crate::state::global_config::Deployment;

verus! {

/// The steps of a buyback that is in `phase`, one for each event: the phase they end
/// in and the actions they ask for, or the error of the first step that fails.
pub open spec fn buyback_run(
    accounts: ExecuteBuyback,
    params: ExecuteBuybackParams,
    deployment: Deployment,
    phase: BuybackPhase,
    events: Seq<BuybackEvent>,
) -> Result<(BuybackPhase, Seq<BuybackAction>), InstructionError>
    decreases events.len(),
{
    if events.len() == 0 {
        Ok((phase, Seq::empty()))
    } else {
        match execute_buyback::buyback_step(accounts, params, deployment, phase, events[0]) {
            Err(error) => Err(error),
            Ok((next, action)) => match buyback_run(
                accounts,
                params,
                deployment,
                next,
                events.drop_first(),
            ) {
                Err(error) => Err(error),
                Ok((end, actions)) => Ok((end, seq![action] + actions)),
            },
        }
    }
}

/// The events bring a buyback from its start to its end.
pub open spec fn buyback_completes(
    accounts: ExecuteBuyback,
    params: ExecuteBuybackParams,
    deployment: Deployment,
    events: Seq<BuybackEvent>,
) -> bool {
    buyback_run(accounts, params, deployment, BuybackPhase::Idle, events) matches Ok((end, _))
        && end == BuybackPhase::Complete
}

/// The actions of a buyback that completes.
pub open spec fn buyback_actions(
    accounts: ExecuteBuyback,
    params: ExecuteBuybackParams,
    deployment: Deployment,
    events: Seq<BuybackEvent>,
) -> Seq<BuybackAction> {
    buyback_run(accounts, params, deployment, BuybackPhase::Idle, events)->Ok_0.1
}

/// The state that a buyback that completes stores.
pub open spec fn buyback_stores(
    accounts: ExecuteBuyback,
    params: ExecuteBuybackParams,
    deployment: Deployment,
    events: Seq<BuybackEvent>,
) -> BuybackState {
    buyback_actions(accounts, params, deployment, events).last()->Finish_0
}

/// The slot in which a buyback starts.
pub open spec fn start_slot(events: Seq<BuybackEvent>) -> u64 {
    events[0]->Slot_0
}

/// The tokens that the swap of a buyback gives.
pub open spec fn tokens_received(accounts: ExecuteBuyback, events: Seq<BuybackEvent>) -> int {
    events[2]->token_balance - accounts.payer_token_account.amount
}

/// The events of a buyback that goes well, in order.
pub open spec fn events_in_order(mode: BuybackMode, events: Seq<BuybackEvent>) -> bool {
    match mode {
        BuybackMode::Burn => {
            &&& events.len() == 5
            &&& events[0] is Slot
            &&& events[1] is Transferred
            &&& events[2] is Swapped
            &&& events[3] is Burned
            &&& events[4] is Time
        },
        BuybackMode::AddLiquidity => {
            &&& events.len() == 4
            &&& events[0] is Slot
            &&& events[1] is Transferred
            &&& events[2] is Swapped
            &&& events[3] is Time
        },
    }
}

/// Nothing follows the end of a buyback.
proof fn lemma_run_from_complete(
    accounts: ExecuteBuyback,
    params: ExecuteBuybackParams,
    deployment: Deployment,
    events: Seq<BuybackEvent>,
)
    ensures
        buyback_run(accounts, params, deployment, BuybackPhase::Complete, events) is Ok ==> events
            =~= Seq::empty(),
{
}

/// A buyback that waits for the time ends with it.
proof fn lemma_run_from_closing(
    accounts: ExecuteBuyback,
    params: ExecuteBuybackParams,
    deployment: Deployment,
    receipt: Receipt,
    events: Seq<BuybackEvent>,
)
    requires
        buyback_run(
            accounts,
            params,
            deployment,
            BuybackPhase::Closing(receipt),
            events,
        ) matches Ok((end, _)) && end == BuybackPhase::Complete,
    ensures
        events.len() == 1,
        events[0] is Time,
        buyback_run(accounts, params, deployment, BuybackPhase::Closing(receipt), events)->Ok_0.1
            =~= seq![
            BuybackAction::Finish(
                receipt.state,
                execute_buyback::announcement(params, receipt, events[0]->Time_0),
            ),
        ],
{
    lemma_run_from_complete(accounts, params, deployment, events.drop_first());
    assert(events.len() > 0);
    assert(events[0] is Time);
}

/// What a buyback that completes did: its events came in order, it was not refused at
/// its start, the swap gave at least the tokens asked for, the lamports that left the
/// treasury are the ones transferred, swapped and announced, the tokens received are
/// the ones burned (where the mode burns) and announced, and the state stored is the
/// old one with exactly these entries made. Storing is the last action, so that a
/// buyback which fails stores nothing.
pub proof fn law_completed_buyback(
    accounts: ExecuteBuyback,
    params: ExecuteBuybackParams,
    deployment: Deployment,
    events: Seq<BuybackEvent>,
)
    requires
        buyback_completes(accounts, params, deployment, events),
    ensures
        ({
            let before = accounts.buyback_state;
            let after = buyback_stores(accounts, params, deployment, events);
            let actions = buyback_actions(accounts, params, deployment, events);
            let spent = before.next_spend();
            let received = tokens_received(accounts, events);
            let last = events.len() - 1;
            &&& events_in_order(params.mode, events)
            &&& before.spend_refusal(start_slot(events)) is None
            &&& 0 < spent <= before.treasury_balance
            &&& before.total_sol_spent + spent <= u64::MAX
            &&& params.min_tokens_out <= received
            &&& 0 <= received <= u64::MAX
            &&& before.has_room(params.mode, received as u64)
            &&& after == before.after_spend(spent as u64, start_slot(events)).after_purchase(
                params.mode,
                received as u64,
            )
            &&& actions.len() == events.len()
            &&& actions[0] matches BuybackAction::Transfer(transfer) && transfer
                == accounts.funding(spent as u64, transfer.signer.bump)
            &&& actions[1] == BuybackAction::Swap(
                accounts.swap_accounts(),
                SwapParams {
                    amount_in: spent as u64,
                    minimum_amount_out: params.min_tokens_out,
                },
            )
            &&& params.mode is Burn ==> actions[2] == BuybackAction::Burn(
                accounts.burn(received as u64),
            )
            &&& actions[last - 1] is ReadTime
            &&& actions[last] == BuybackAction::Finish(
                after,
                BuybackExecuted {
                    pool: before.pool,
                    sol_spent: spent as u64,
                    tokens_received: received as u64,
                    mode: params.mode.code(),
                    timestamp: events[last]->Time_0,
                },
            )
        }),
{
    let before = accounts.buyback_state;
    let run0 = buyback_run(accounts, params, deployment, BuybackPhase::Idle, events);
    assert(events.len() > 0);
    let (phase1, action1) = execute_buyback::buyback_step(
        accounts,
        params,
        deployment,
        BuybackPhase::Idle,
        events[0],
    )->Ok_0;
    let events1 = events.drop_first();
    let run1 = buyback_run(accounts, params, deployment, phase1, events1);
    assert(events[0] is Slot);
    fees::lemma_bps_bounds(before.treasury_balance as int, before.buyback_bps());
    assert(events1.len() > 0);
    let (phase2, action2) = execute_buyback::buyback_step(accounts, params, deployment, phase1, events1[0])->Ok_0;
    let events2 = events1.drop_first();
    let run2 = buyback_run(accounts, params, deployment, phase2, events2);
    assert(events2.len() > 0);
    let (phase3, action3) = execute_buyback::buyback_step(accounts, params, deployment, phase2, events2[0])->Ok_0;
    let events3 = events2.drop_first();
    let run3 = buyback_run(accounts, params, deployment, phase3, events3);
    assert(run2->Ok_0.1 == seq![action3] + run3->Ok_0.1);
    assert(run1->Ok_0.1 == seq![action2] + run2->Ok_0.1);
    assert(run0->Ok_0.1 == seq![action1] + run1->Ok_0.1);
    match params.mode {
        BuybackMode::Burn => {
            assert(events3.len() > 0);
            let (phase4, action4) = execute_buyback::buyback_step(
                accounts,
                params,
                deployment,
                phase3,
                events3[0],
            )->Ok_0;
            let events4 = events3.drop_first();
            let run4 = buyback_run(accounts, params, deployment, phase4, events4);
            assert(run3->Ok_0.1 == seq![action4] + run4->Ok_0.1);
            lemma_run_from_closing(accounts, params, deployment, phase4->Closing_0, events4);
        },
        BuybackMode::AddLiquidity => {
            lemma_run_from_closing(accounts, params, deployment, phase3->Closing_0, events3);
        },
    }
}


/// Each event brings one action.
proof fn lemma_one_action_per_event(
    accounts: ExecuteBuyback,
    params: ExecuteBuybackParams,
    deployment: Deployment,
    phase: BuybackPhase,
    events: Seq<BuybackEvent>,
)
    requires
        buyback_run(accounts, params, deployment, phase, events) is Ok,
    ensures
        buyback_run(accounts, params, deployment, phase, events)->Ok_0.1.len() == events.len(),
    decreases events.len(),
{
    if events.len() > 0 {
        let (next, action) = execute_buyback::buyback_step(
            accounts,
            params,
            deployment,
            phase,
            events[0],
        )->Ok_0;
        lemma_one_action_per_event(accounts, params, deployment, next, events.drop_first());
    }
}

/// Nothing is stored on the way: the action that stores a state is the last one, and
/// comes only where the buyback is over. One that fails in any step has stored nothing.
pub proof fn law_only_finished_buybacks_store(
    accounts: ExecuteBuyback,
    params: ExecuteBuybackParams,
    deployment: Deployment,
    phase: BuybackPhase,
    events: Seq<BuybackEvent>,
    i: int,
)
    requires
        buyback_run(accounts, params, deployment, phase, events) is Ok,
        0 <= i < events.len(),
        buyback_run(accounts, params, deployment, phase, events)->Ok_0.1[i] is Finish,
    ensures
        i == events.len() - 1,
        buyback_run(accounts, params, deployment, phase, events)->Ok_0.0 == BuybackPhase::Complete,
    decreases events.len(),
{
    let (next, action) = execute_buyback::buyback_step(
        accounts,
        params,
        deployment,
        phase,
        events[0],
    )->Ok_0;
    let rest = events.drop_first();
    if i == 0 {
        assert(action is Finish);
        lemma_run_from_complete(accounts, params, deployment, rest);
        assert(rest.len() == 0);
    } else {
        lemma_one_action_per_event(accounts, params, deployment, next, rest);
        let actions = buyback_run(accounts, params, deployment, next, rest)->Ok_0.1;
        assert((seq![action] + actions)[i] == actions[i - 1]);
        law_only_finished_buybacks_store(accounts, params, deployment, next, rest, i - 1);
    }
}

/// The events that answer a buyback's actions when all goes well.
pub open spec fn good_events(
    mode: BuybackMode,
    slot: u64,
    token_balance: u64,
    timestamp: i64,
) -> Seq<BuybackEvent> {
    let begin = seq![
        BuybackEvent::Slot(slot),
        BuybackEvent::Transferred,
        BuybackEvent::Swapped { token_balance },
    ];
    match mode {
        BuybackMode::Burn => begin + seq![BuybackEvent::Burned, BuybackEvent::Time(timestamp)],
        BuybackMode::AddLiquidity => begin + seq![BuybackEvent::Time(timestamp)],
    }
}

/// A buyback completes whenever its start is not refused, the swap gives at least the
/// tokens asked for, and the tallies have room for them. The caller plays no part: any
/// payer can trigger it.
pub proof fn law_buyback_goes_through(
    accounts: ExecuteBuyback,
    params: ExecuteBuybackParams,
    deployment: Deployment,
    slot: u64,
    token_balance: u64,
    timestamp: i64,
)
    requires
        accounts.start_refusal(
            deployment,
            slot,
            crate::pubkey::program_address(accounts.state_seeds(), deployment.program_id@),
            crate::pubkey::canonical_address(
                accounts.vault_seeds(deployment),
                deployment.program_id@,
            ),
        ) is None,
        accounts.payer_token_account.amount + params.min_tokens_out <= token_balance,
        accounts.buyback_state.has_room(
            params.mode,
            (token_balance - accounts.payer_token_account.amount) as u64,
        ),
    ensures
        buyback_completes(
            accounts,
            params,
            deployment,
            good_events(params.mode, slot, token_balance, timestamp),
        ),
{
    reveal_with_fuel(buyback_run, 6);
    let events = good_events(params.mode, slot, token_balance, timestamp);
    let events1 = events.drop_first();
    let events2 = events1.drop_first();
    let events3 = events2.drop_first();
    let events4 = events3.drop_first();
    assert(events[0] == BuybackEvent::Slot(slot));
    assert(events1[0] == BuybackEvent::Transferred);
    assert(events2[0] == BuybackEvent::Swapped { token_balance });
    match params.mode {
        BuybackMode::Burn => {
            assert(events3[0] == BuybackEvent::Burned);
            assert(events4[0] == BuybackEvent::Time(timestamp));
            assert(events4.drop_first().len() == 0);
        },
        BuybackMode::AddLiquidity => {
            assert(events3[0] == BuybackEvent::Time(timestamp));
            assert(events4.len() == 0);
        },
    }
}

/// A bonding pool spends a fifth of its treasury, a presale pool three fifths.
proof fn lemma_next_spend(state: BuybackState)
    ensures
        state.pool_type == 0 ==> state.next_spend() == state.treasury_balance as int / 5,
        state.pool_type == 1 ==> state.next_spend() == state.treasury_balance * 3 / 5,
{
    let treasury = state.treasury_balance as int;
    assert(treasury * 2000 / 10_000 == treasury / 5);
    assert(treasury * 6000 / 10_000 == treasury * 3 / 5);
}

/// No SOL is lost or made up: what leaves the treasury is what is counted as spent, so
/// that the two together stay the same, and the treasury shrinks by a fifth (bonding)
/// or by three fifths (presale), rounded down, but by at least one lamport.
pub proof fn law_buyback_conserves_sol(
    accounts: ExecuteBuyback,
    params: ExecuteBuybackParams,
    deployment: Deployment,
    events: Seq<BuybackEvent>,
)
    requires
        buyback_completes(accounts, params, deployment, events),
    ensures
        ({
            let before = accounts.buyback_state;
            let after = buyback_stores(accounts, params, deployment, events);
            &&& after.treasury_balance + after.total_sol_spent == before.treasury_balance
                + before.total_sol_spent
            &&& after.treasury_balance < before.treasury_balance
            &&& before.pool_type == 0 || before.pool_type == 1
            &&& before.pool_type == 0 ==> after.treasury_balance == before.treasury_balance
                - before.treasury_balance as int / 5
            &&& before.pool_type == 1 ==> after.treasury_balance == before.treasury_balance
                - before.treasury_balance * 3 / 5
        }),
{
    lemma_next_spend(accounts.buyback_state);
    law_completed_buyback(accounts, params, deployment, events);
}

/// The token tallies stay true: what a buyback receives is counted once as bought and
/// once under its mode, the other mode's tally stays as it was, and a state whose
/// tallies agree keeps tallies that agree.
pub proof fn law_buyback_keeps_tallies(
    accounts: ExecuteBuyback,
    params: ExecuteBuybackParams,
    deployment: Deployment,
    events: Seq<BuybackEvent>,
)
    requires
        buyback_completes(accounts, params, deployment, events),
    ensures
        ({
            let before = accounts.buyback_state;
            let after = buyback_stores(accounts, params, deployment, events);
            let received = tokens_received(accounts, events);
            &&& after.total_tokens_bought == before.total_tokens_bought + received
            &&& after.total_tokens_burned + after.total_tokens_lp == before.total_tokens_burned
                + before.total_tokens_lp + received
            &&& params.mode is Burn ==> after.total_tokens_lp == before.total_tokens_lp
            &&& params.mode is AddLiquidity ==> after.total_tokens_burned
                == before.total_tokens_burned
            &&& before.wf() ==> after.wf()
        }),
{
    law_completed_buyback(accounts, params, deployment, events);
}

/// A buyback leaves alone what a buyback state is bound to: its pool, mint and Meteora
/// pool, its type and its bump.
pub proof fn law_buyback_keeps_identity(
    accounts: ExecuteBuyback,
    params: ExecuteBuybackParams,
    deployment: Deployment,
    events: Seq<BuybackEvent>,
)
    requires
        buyback_completes(accounts, params, deployment, events),
    ensures
        ({
            let before = accounts.buyback_state;
            let after = buyback_stores(accounts, params, deployment, events);
            &&& after.pool == before.pool
            &&& after.mint == before.mint
            &&& after.meteora_pool == before.meteora_pool
            &&& after.pool_type == before.pool_type
            &&& after.bump == before.bump
        }),
{
    law_completed_buyback(accounts, params, deployment, events);
}

/// Two buybacks of one pool are at least `MIN_BUYBACK_INTERVAL` slots apart, however
/// they are called and whoever calls them. The first one must not run in slot 0, which
/// stands for no buyback at all.
pub proof fn law_buybacks_keep_their_distance(
    first: ExecuteBuyback,
    first_params: ExecuteBuybackParams,
    first_events: Seq<BuybackEvent>,
    second: ExecuteBuyback,
    second_params: ExecuteBuybackParams,
    second_events: Seq<BuybackEvent>,
    deployment: Deployment,
)
    requires
        buyback_completes(first, first_params, deployment, first_events),
        second.buyback_state == buyback_stores(first, first_params, deployment, first_events),
        buyback_completes(second, second_params, deployment, second_events),
        start_slot(first_events) > 0,
    ensures
        start_slot(second_events) >= start_slot(first_events) + BuybackState::MIN_BUYBACK_INTERVAL,
{
    law_completed_buyback(first, first_params, deployment, first_events);
    law_completed_buyback(second, second_params, deployment, second_events);
}

/// A buyback that comes too early is refused as such, whatever else holds of the
/// accounts that pass the checks.
pub proof fn law_early_buyback_is_refused(
    accounts: ExecuteBuyback,
    params: ExecuteBuybackParams,
    deployment: Deployment,
    slot: u64,
)
    requires
        accounts.accounts_refusal(
            deployment,
            crate::pubkey::program_address(accounts.state_seeds(), deployment.program_id@),
        ) is None,
        accounts.buyback_state.last_buyback_slot > 0,
        accounts.buyback_state.last_buyback_slot + BuybackState::MIN_BUYBACK_INTERVAL <= u64::MAX,
        slot < accounts.buyback_state.last_buyback_slot + BuybackState::MIN_BUYBACK_INTERVAL,
    ensures
        execute_buyback::buyback_step(
            accounts,
            params,
            deployment,
            BuybackPhase::Idle,
            BuybackEvent::Slot(slot),
        ) == Err::<(BuybackPhase, BuybackAction), _>(
            InstructionError::Launchpad(LaunchpadError::BuybackTooFrequent),
        ),
{
}

/// A treasury is spent down until nothing can be taken: the next buyback has something
/// to spend exactly while the treasury holds 5 lamports (bonding) or 2 (presale).
pub proof fn law_treasury_is_spent_down(state: BuybackState)
    requires
        state.known_pool_type(),
    ensures
        state.pool_type == 0 ==> (state.next_spend() > 0 <==> state.treasury_balance >= 5),
        state.pool_type == 1 ==> (state.next_spend() > 0 <==> state.treasury_balance >= 2),
{
    lemma_next_spend(state);
}

/// No buyback touches a Meteora pool other than the one that its state is bound to, a
/// mint other than the pool's, or a program other than Meteora's.
pub proof fn law_buyback_stays_on_its_pool(
    accounts: ExecuteBuyback,
    params: ExecuteBuybackParams,
    deployment: Deployment,
    events: Seq<BuybackEvent>,
)
    requires
        buyback_completes(accounts, params, deployment, events),
    ensures
        ({
            let state = accounts.buyback_state;
            &&& accounts.swap_accounts().pool == state.meteora_pool
            &&& accounts.swap_accounts().output_mint == state.mint
            &&& accounts.swap_accounts().input_mint@ == crate::pubkey::native_mint_bytes()
            &&& accounts.swap_accounts().meteora_program == deployment.meteora_program_id
            &&& accounts.payer_token_account.mint == state.mint
            &&& accounts.pool_mint == state.mint
        }),
{
    law_completed_buyback(accounts, params, deployment, events);
    assert(execute_buyback::buyback_step(
        accounts,
        params,
        deployment,
        BuybackPhase::Idle,
        events[0],
    ) is Ok);
}

/// The lamports of a buyback come out of the pool's own vault: the one whose address
/// derives from the mint and from the type of the pool. The program signs for it with the
/// seeds that give that address.
pub proof fn law_buyback_pays_from_its_vault(
    accounts: ExecuteBuyback,
    params: ExecuteBuybackParams,
    deployment: Deployment,
    events: Seq<BuybackEvent>,
)
    requires
        buyback_completes(accounts, params, deployment, events),
    ensures
        ({
            let actions = buyback_actions(accounts, params, deployment, events);
            let vault = crate::pubkey::canonical_address(
                seq![
                    crate::cpi::SeedTag::sol_vault_of(accounts.buyback_state.pool_type).bytes(
                        deployment,
                    ),
                    accounts.buyback_state.mint@,
                ],
                deployment.program_id@,
            );
            &&& actions[0] is Transfer
            &&& vault == Some((actions[0]->Transfer_0.from@, actions[0]->Transfer_0.signer.bump))
            &&& actions[0]->Transfer_0.signer.sign_for(actions[0]->Transfer_0.from, deployment)
        }),
{
    law_completed_buyback(accounts, params, deployment, events);
    law_buyback_stays_on_its_pool(accounts, params, deployment, events);
    assert(execute_buyback::buyback_step(
        accounts,
        params,
        deployment,
        BuybackPhase::Idle,
        events[0],
    ) is Ok);
    let seeds = accounts.vault_seeds(deployment);
    let signer = buyback_actions(accounts, params, deployment, events)[0]->Transfer_0.signer;
    crate::pubkey::law_canonical_address(seeds, deployment.program_id@);
    assert(seeds.push(seq![signer.bump]) =~= signer.seeds(deployment));
}

/// What a completed buyback does with its lamports: the share of the treasury (a fifth of
/// a bonding pool's, three fifths of a presale pool's, rounded down) is what the treasury
/// falls by, what the total spent grows by, what is transferred, what is swapped and what
/// is announced. The transfer goes from the vault to the payer's WSOL account.
pub proof fn law_lamports_of_a_buyback(
    accounts: ExecuteBuyback,
    params: ExecuteBuybackParams,
    deployment: Deployment,
    events: Seq<BuybackEvent>,
)
    requires
        buyback_completes(accounts, params, deployment, events),
    ensures
        ({
            let before = accounts.buyback_state;
            let actions = buyback_run(
                accounts,
                params,
                deployment,
                BuybackPhase::Idle,
                events,
            )->Ok_0.1;
            let last = actions[actions.len() - 1];
            let after = last->Finish_0;
            let transfer = actions[0]->Transfer_0;
            let lamports = transfer.lamports;
            &&& actions.len() >= 4
            &&& last is Finish
            &&& actions[0] is Transfer
            &&& actions[1] is Swap
            &&& lamports > 0
            &&& before.pool_type == 0 || before.pool_type == 1
            &&& before.pool_type == 0 ==> 5 * lamports <= before.treasury_balance < 5 * lamports
                + 5
            &&& before.pool_type == 1 ==> 5 * lamports <= 3 * before.treasury_balance < 5 * lamports
                + 5
            &&& before.treasury_balance - after.treasury_balance == lamports
            &&& after.total_sol_spent - before.total_sol_spent == lamports
            &&& after.last_buyback_slot == events[0]->Slot_0
            &&& actions[1]->Swap_1.amount_in == lamports
            &&& last->Finish_1.sol_spent == lamports
            &&& last->Finish_1.pool == before.pool
            &&& last->Finish_1.timestamp == events[events.len() - 1]->Time_0
            &&& transfer.from == accounts.buyback_sol_vault
            &&& transfer.to == accounts.payer_wsol_account
            &&& transfer.signer.key == before.mint
            &&& before.pool_type == 0 ==> transfer.signer.tag
                == crate::cpi::SeedTag::BondingSolVault
            &&& before.pool_type == 1 ==> transfer.signer.tag
                == crate::cpi::SeedTag::PresaleSolVault
            &&& after.pool == before.pool && after.mint == before.mint
            &&& after.meteora_pool == before.meteora_pool
            &&& after.pool_type == before.pool_type && after.bump == before.bump
        }),
{
    law_completed_buyback(accounts, params, deployment, events);
    law_buyback_stays_on_its_pool(accounts, params, deployment, events);
    buyback_steps::law_spend_is_a_share(accounts.buyback_state);
}

/// What a completed buyback does with its tokens: the payer's token balance after the swap
/// less the balance before it is at least what was asked for. It is what the total bought
/// grows by and what is announced. In Burn mode, for either type of pool, it is what is
/// burned and what the total burned grows by: of the state's mint, from the payer's token
/// account, on the payer's authority. In AddLiquidity mode nothing is burned, and it is
/// what the total for liquidity grows by.
pub proof fn law_tokens_of_a_buyback(
    accounts: ExecuteBuyback,
    params: ExecuteBuybackParams,
    deployment: Deployment,
    events: Seq<BuybackEvent>,
)
    requires
        buyback_completes(accounts, params, deployment, events),
    ensures
        ({
            let before = accounts.buyback_state;
            let actions = buyback_run(
                accounts,
                params,
                deployment,
                BuybackPhase::Idle,
                events,
            )->Ok_0.1;
            let last = actions[actions.len() - 1];
            let after = last->Finish_0;
            let gain = events[2]->token_balance - accounts.payer_token_account.amount;
            &&& last is Finish
            &&& events[2] is Swapped
            &&& params.min_tokens_out <= gain
            &&& actions[1] is Swap
            &&& actions[1]->Swap_1.minimum_amount_out == params.min_tokens_out
            &&& after.total_tokens_bought - before.total_tokens_bought == gain
            &&& last->Finish_1.tokens_received == gain
            &&& params.mode is Burn ==> {
                &&& actions.len() == 5
                &&& actions[2] is Burn
                &&& actions[2]->Burn_0.amount == gain
                &&& actions[2]->Burn_0.mint == before.mint
                &&& actions[2]->Burn_0.from == accounts.payer_token_account.key
                &&& actions[2]->Burn_0.authority == accounts.payer
                &&& after.total_tokens_burned - before.total_tokens_burned == gain
                &&& after.total_tokens_lp == before.total_tokens_lp
                &&& last->Finish_1.mode == 0
            }
            &&& params.mode is AddLiquidity ==> {
                &&& actions.len() == 4
                &&& actions[2] is ReadTime
                &&& after.total_tokens_lp - before.total_tokens_lp == gain
                &&& after.total_tokens_burned == before.total_tokens_burned
                &&& last->Finish_1.mode == 1
            }
        }),
{
    law_completed_buyback(accounts, params, deployment, events);
    law_buyback_stays_on_its_pool(accounts, params, deployment, events);
}

/// Anyone's buyback goes through once 10 slots have passed since the last one, or where
/// there was none: given accounts that agree with the state, the state at its address, the
/// derived vault, a treasury whose share is at least one lamport, sums that fit, and a swap
/// that gives what was asked for.
pub proof fn law_timely_buyback_goes_through(
    accounts: ExecuteBuyback,
    params: ExecuteBuybackParams,
    deployment: Deployment,
    bump: u8,
    slot: u64,
    token_balance: u64,
    timestamp: i64,
)
    requires
        buyback_steps::accounts_agree(accounts, deployment),
        crate::pubkey::program_address(
            seq![
                seeds::buyback(),
                accounts.buyback_state.pool@,
                seq![accounts.buyback_state.bump],
            ],
            deployment.program_id@,
        ) == Some(accounts.buyback_state_key@),
        crate::pubkey::canonical_address(
            seq![
                if accounts.buyback_state.pool_type == 0 {
                    seeds::bonding_sol_vault()
                } else {
                    seeds::presale_sol_vault()
                },
                accounts.pool_mint@,
            ],
            deployment.program_id@,
        ) == Some((accounts.buyback_sol_vault@, bump)),
        accounts.buyback_state.last_buyback_slot == 0 || accounts.buyback_state.last_buyback_slot
            + 10 <= slot,
        (accounts.buyback_state.pool_type == 0 && accounts.buyback_state.treasury_balance >= 5) || (
        accounts.buyback_state.pool_type == 1 && accounts.buyback_state.treasury_balance >= 2),
        accounts.buyback_state.treasury_balance + accounts.buyback_state.total_sol_spent
            <= u64::MAX,
        accounts.payer_token_account.amount + params.min_tokens_out <= token_balance,
        ({
            let state = accounts.buyback_state;
            let gain = token_balance - accounts.payer_token_account.amount;
            &&& state.total_tokens_bought + gain <= u64::MAX
            &&& params.mode is Burn ==> state.total_tokens_burned + gain <= u64::MAX
            &&& params.mode is AddLiquidity ==> state.total_tokens_lp + gain <= u64::MAX
        }),
    ensures
        buyback_completes(
            accounts,
            params,
            deployment,
            good_events(params.mode, slot, token_balance, timestamp),
        ),
{
    let id = deployment.program_id@;
    let vault = Some((accounts.buyback_sol_vault@, bump));
    let address = Some(accounts.buyback_state_key@);
    seeds::law_words_of_the_seeds(deployment);
    buyback_steps::law_buyback_starts(accounts, deployment, slot, address, vault);
    assert(accounts.started(deployment, slot, address, vault) is Ok);
    law_buyback_goes_through(accounts, params, deployment, slot, token_balance, timestamp);
}

/// How two buybacks of one pool relate in time: the second one, in the state that the first
/// one stored, is refused as too frequent in each slot up to the ninth after the first, and
/// never from the tenth on.
pub proof fn law_interval_is_ten_slots(
    accounts: ExecuteBuyback,
    params: ExecuteBuybackParams,
    deployment: Deployment,
    events: Seq<BuybackEvent>,
    slot: u64,
)
    requires
        buyback_completes(accounts, params, deployment, events),
        0 < events[0]->Slot_0 <= u64::MAX - 10,
    ensures
        ({
            let stored = buyback_stores(accounts, params, deployment, events);
            stored.spend_refusal(slot) == Some(LaunchpadError::BuybackTooFrequent) <==> slot
                < events[0]->Slot_0 + 10
        }),
{
    law_completed_buyback(accounts, params, deployment, events);
    buyback_steps::law_buyback_may_run(
        buyback_stores(accounts, params, deployment, events),
        slot,
    );
}

/// One call of a buyback, with the events that answered its actions.
pub struct BuybackCall {
    pub accounts: ExecuteBuyback,
    pub params: ExecuteBuybackParams,
    pub events: Seq<BuybackEvent>,
}

impl BuybackCall {
    /// The call completes.
    pub open spec fn completes(self, deployment: Deployment) -> bool {
        buyback_completes(self.accounts, self.params, deployment, self.events)
    }

    /// The state that the call stores.
    pub open spec fn stores(self, deployment: Deployment) -> BuybackState {
        buyback_stores(self.accounts, self.params, deployment, self.events)
    }
}

/// Completed calls of which the first one starts from `state` and each other one from
/// what the one before it stored.
pub open spec fn is_history(
    state: BuybackState,
    calls: Seq<BuybackCall>,
    deployment: Deployment,
) -> bool
    decreases calls.len(),
{
    calls.len() == 0 || {
        &&& calls[0].accounts.buyback_state == state
        &&& calls[0].completes(deployment)
        &&& is_history(calls[0].stores(deployment), calls.drop_first(), deployment)
    }
}

/// The state after a history.
pub open spec fn after_history(
    state: BuybackState,
    calls: Seq<BuybackCall>,
    deployment: Deployment,
) -> BuybackState
    decreases calls.len(),
{
    if calls.len() == 0 {
        state
    } else {
        after_history(calls[0].stores(deployment), calls.drop_first(), deployment)
    }
}

/// Over any number of buybacks, the treasury and what was spent add up to the same
/// sum, each buyback takes at least one lamport, the tallies stay true, and the state
/// stays bound to the same pool, mint and Meteora pool.
pub proof fn law_history_keeps_accounts(
    state: BuybackState,
    calls: Seq<BuybackCall>,
    deployment: Deployment,
)
    requires
        is_history(state, calls, deployment),
    ensures
        ({
            let after = after_history(state, calls, deployment);
            &&& after.treasury_balance + after.total_sol_spent == state.treasury_balance
                + state.total_sol_spent
            &&& after.treasury_balance + calls.len() <= state.treasury_balance
            &&& state.wf() ==> after.wf()
            &&& after.pool == state.pool
            &&& after.mint == state.mint
            &&& after.meteora_pool == state.meteora_pool
            &&& after.pool_type == state.pool_type
            &&& after.bump == state.bump
        }),
    decreases calls.len(),
{
    if calls.len() > 0 {
        let call = calls[0];
        law_buyback_conserves_sol(call.accounts, call.params, deployment, call.events);
        law_buyback_keeps_tallies(call.accounts, call.params, deployment, call.events);
        law_buyback_keeps_identity(call.accounts, call.params, deployment, call.events);
        law_history_keeps_accounts(call.stores(deployment), calls.drop_first(), deployment);
    }
}

} // verus!
