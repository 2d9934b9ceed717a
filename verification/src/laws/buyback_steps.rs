//! What each step of a buyback does, said of its inputs and results alone.
use vstd::prelude::*;

use crate::cpi::SeedTag;
use crate::errors::{InstructionError, LaunchpadError};
use crate::instructions::execute_buyback;
use crate::instructions::execute_buyback::{
    BuybackAction, BuybackEvent, BuybackOutcome, BuybackPhase, ExecuteBuyback,
    ExecuteBuybackParams, Receipt, Spend,
};
use crate::laws::seeds;
use crate::state::buyback::{BuybackMode, BuybackState};
use crate::state::global_config::Deployment;

verus! {

/// The two states are bound to the same pool, mint and Meteora pool, and are of the same
/// type and bump.
pub open spec fn same_binding(a: BuybackState, b: BuybackState) -> bool {
    &&& a.pool == b.pool
    &&& a.mint == b.mint
    &&& a.meteora_pool == b.meteora_pool
    &&& a.pool_type == b.pool_type
    &&& a.bump == b.bump
}

/// The two states hold the same treasury, have spent the same, and ran last in the same
/// slot.
pub open spec fn same_sol(a: BuybackState, b: BuybackState) -> bool {
    &&& a.treasury_balance == b.treasury_balance
    &&& a.total_sol_spent == b.total_sol_spent
    &&& a.last_buyback_slot == b.last_buyback_slot
}

/// The two states have the same token tallies.
pub open spec fn same_tokens(a: BuybackState, b: BuybackState) -> bool {
    &&& a.total_tokens_bought == b.total_tokens_bought
    &&& a.total_tokens_burned == b.total_tokens_burned
    &&& a.total_tokens_lp == b.total_tokens_lp
}

/// `lamports` is a fifth of the treasury of a bonding pool, or three fifths of that of a
/// presale pool, rounded down.
pub open spec fn is_share(lamports: int, pool_type: u8, treasury: int) -> bool {
    ||| pool_type == 0 && 5 * lamports <= treasury < 5 * lamports + 5
    ||| pool_type == 1 && 5 * lamports <= 3 * treasury < 5 * lamports + 5
}

/// A buyback may run in a slot exactly if none ran before, or 10 slots have passed since
/// the last one, and its share of the treasury is at least one lamport. It is refused as
/// too frequent only while the 10 slots have not passed; for its pool type only where
/// that is neither 0 nor 1; for its treasury only where a bonding pool holds less than 5
/// lamports or a presale pool less than 2; and for the sum of the slots only where that
/// does not fit.
pub proof fn law_buyback_may_run(state: BuybackState, slot: u64)
    ensures
        ({
            let last = state.last_buyback_slot;
            let refusal = state.spend_refusal(slot);
            let ready = last == 0 || last + 10 <= slot;
            let funded = (state.pool_type == 0 && state.treasury_balance >= 5) || (state.pool_type
                == 1 && state.treasury_balance >= 2);
            &&& refusal is None <==> ready && funded
            &&& refusal == Some(LaunchpadError::MathOverflow) <==> last > 0 && last + 10 > u64::MAX
            &&& refusal == Some(LaunchpadError::BuybackTooFrequent) <==> last > 0 && slot < last
                + 10 <= u64::MAX
            &&& refusal == Some(LaunchpadError::InvalidBuybackMode) <==> ready && state.pool_type
                > 1
            &&& refusal == Some(LaunchpadError::InsufficientTreasury) <==> ready && state.pool_type
                <= 1 && !funded
        }),
{
    law_spend_is_a_share(state);
}

/// A buyback spends a fifth of the treasury of a bonding pool and three fifths of that of
/// a presale pool, rounded down.
pub proof fn law_spend_is_a_share(state: BuybackState)
    ensures
        state.pool_type <= 1 ==> is_share(
            state.next_spend(),
            state.pool_type,
            state.treasury_balance as int,
        ),
{
    let treasury = state.treasury_balance as int;
    assert(treasury * 2000 / 10_000 == treasury / 5);
    assert(treasury * 6000 / 10_000 == treasury * 3 / 5);
}

/// Taking lamports out of the treasury lowers it by them, raises what was spent by them,
/// notes the slot, and leaves everything else.
pub proof fn law_spend_is_booked(state: BuybackState, lamports: u64, slot: u64)
    requires
        lamports <= state.treasury_balance,
        state.total_sol_spent + lamports <= u64::MAX,
    ensures
        ({
            let after = state.after_spend(lamports, slot);
            &&& after.treasury_balance + lamports == state.treasury_balance
            &&& after.total_sol_spent == state.total_sol_spent + lamports
            &&& after.last_buyback_slot == slot
            &&& same_binding(after, state)
            &&& same_tokens(after, state)
        }),
{
}

/// Tokens are counted where the sums fit: once as bought, and once as burned or as
/// liquidity, as the mode says. Everything else is left.
pub proof fn law_purchase_is_booked(state: BuybackState, mode: BuybackMode, tokens: u64)
    ensures
        ({
            let after = state.after_purchase(mode, tokens);
            let bought = state.total_tokens_bought + tokens;
            let burned = state.total_tokens_burned + tokens;
            let lp = state.total_tokens_lp + tokens;
            let fits = bought <= u64::MAX && match mode {
                BuybackMode::Burn => burned <= u64::MAX,
                BuybackMode::AddLiquidity => lp <= u64::MAX,
            };
            &&& state.has_room(mode, tokens) <==> fits
            &&& fits ==> {
                &&& after.total_tokens_bought == bought
                &&& mode is Burn ==> after.total_tokens_burned == burned && after.total_tokens_lp
                    == state.total_tokens_lp
                &&& mode is AddLiquidity ==> after.total_tokens_lp == lp
                    && after.total_tokens_burned == state.total_tokens_burned
                &&& same_binding(after, state)
                &&& same_sol(after, state)
            }
        }),
{
}

/// The mode is announced as 0 for a burn and as 1 for liquidity.
pub proof fn law_mode_codes()
    ensures
        BuybackMode::Burn.code() == 0,
        BuybackMode::AddLiquidity.code() == 1,
{
}

/// The accounts of a buyback agree with its state and with the deployment.
pub open spec fn accounts_agree(accounts: ExecuteBuyback, deployment: Deployment) -> bool {
    let state = accounts.buyback_state;
    &&& accounts.pool_mint == state.mint
    &&& accounts.token_mint == state.mint
    &&& accounts.payer_token_account.mint == state.mint
    &&& accounts.meteora_pool == state.meteora_pool
    &&& accounts.meteora_program == deployment.meteora_program_id
    &&& accounts.wsol_mint@ == crate::pubkey::native_mint_bytes()
}

/// The accounts of a buyback are accepted exactly if the state stands at its address, the
/// treasury is not empty, and the mints, the Meteora pool and the Meteora program are the
/// state's and the deployment's. Each refusal comes for its own reason, and only where no
/// earlier one holds.
pub proof fn law_buyback_accounts_are_checked(
    accounts: ExecuteBuyback,
    deployment: Deployment,
    state_address: Option<Seq<u8>>,
)
    ensures
        ({
            let refusal = accounts.accounts_refusal(deployment, state_address);
            let state = accounts.buyback_state;
            let placed = state_address == Some(accounts.buyback_state_key@);
            let funded = placed && state.treasury_balance > 0;
            let own_token = accounts.payer_token_account.mint == accounts.token_mint;
            &&& refusal is None <==> funded && accounts_agree(accounts, deployment)
            &&& refusal == Some(InstructionError::ConstraintSeeds) <==> !placed
            &&& refusal == Some(
                InstructionError::Launchpad(LaunchpadError::InsufficientTreasury),
            ) <==> placed && state.treasury_balance == 0
            &&& refusal == Some(InstructionError::ConstraintTokenMint) <==> funded
                && accounts.pool_mint == state.mint && !own_token
            &&& refusal == Some(
                InstructionError::Launchpad(LaunchpadError::InvalidPoolParams),
            ) <==> funded && (accounts.pool_mint != state.mint || own_token && !accounts_agree(
                accounts,
                deployment,
            ))
        }),
{
}

/// A buyback starts exactly if its accounts are accepted, it may run in the slot, the sum
/// of what was spent fits, and the vault is the one that was derived. What it spends is
/// its share of the treasury; exactly that leaves the treasury, is counted as spent, and
/// is transferred from the vault to the payer's WSOL account, signed with the vault's tag,
/// the mint and the derived bump.
pub proof fn law_buyback_starts(
    accounts: ExecuteBuyback,
    deployment: Deployment,
    slot: u64,
    state_address: Option<Seq<u8>>,
    vault: Option<(Seq<u8>, u8)>,
)
    ensures
        ({
            let r = accounts.started(deployment, slot, state_address, vault);
            let state = accounts.buyback_state;
            let last = state.last_buyback_slot;
            let accepted = accounts.accounts_refusal(deployment, state_address);
            let planned = state.spend_refusal(slot);
            let fits = forall|lamports: int|
                #[trigger] is_share(lamports, state.pool_type, state.treasury_balance as int)
                    ==> state.total_sol_spent + lamports <= u64::MAX;
            let at_vault = vault matches Some((address, _)) && address
                == accounts.buyback_sol_vault@;
            &&& r is Ok <==> {
                &&& state_address == Some(accounts.buyback_state_key@)
                &&& accounts_agree(accounts, deployment)
                &&& last == 0 || last + 10 <= slot
                &&& (state.pool_type == 0 && state.treasury_balance >= 5) || (state.pool_type == 1
                    && state.treasury_balance >= 2)
                &&& fits
                &&& at_vault
            }
            &&& accepted matches Some(error) ==> r == Err::<(BuybackPhase, BuybackAction), _>(error)
            &&& accepted is None ==> {
                &&& planned matches Some(error) ==> r == Err::<(BuybackPhase, BuybackAction), _>(
                    InstructionError::Launchpad(error),
                )
                &&& planned is None && !fits ==> r == Err::<(BuybackPhase, BuybackAction), _>(
                    InstructionError::Launchpad(LaunchpadError::MathOverflow),
                )
                &&& planned is None && fits && vault is None ==> r == Err::<
                    (BuybackPhase, BuybackAction),
                    _,
                >(InstructionError::NoProgramAddress)
                &&& planned is None && fits && vault is Some && !at_vault ==> r == Err::<
                    (BuybackPhase, BuybackAction),
                    _,
                >(InstructionError::Launchpad(LaunchpadError::InvalidPoolParams))
            }
            &&& r matches Ok((phase, action)) ==> {
                &&& phase is Funding
                &&& action is Transfer
                &&& ({
                    let spend = phase->Funding_0;
                    let transfer = action->Transfer_0;
                    let lamports = spend.sol_spent;
                    let after = spend.state;
                    &&& lamports > 0
                    &&& is_share(lamports as int, state.pool_type, state.treasury_balance as int)
                    &&& after.treasury_balance + lamports == state.treasury_balance
                    &&& after.total_sol_spent == state.total_sol_spent + lamports
                    &&& after.last_buyback_slot == slot
                    &&& same_binding(after, state)
                    &&& same_tokens(after, state)
                    &&& transfer.lamports == lamports
                    &&& transfer.from == accounts.buyback_sol_vault
                    &&& transfer.to == accounts.payer_wsol_account
                    &&& transfer.signer.key == accounts.pool_mint
                    &&& transfer.signer.bump == vault->Some_0.1
                    &&& state.pool_type == 0 ==> transfer.signer.tag == SeedTag::BondingSolVault
                    &&& state.pool_type == 1 ==> transfer.signer.tag == SeedTag::PresaleSolVault
                })
            }
        }),
{
    let state = accounts.buyback_state;
    law_buyback_accounts_are_checked(accounts, deployment, state_address);
    law_buyback_may_run(state, slot);
    law_spend_is_a_share(state);
    if state.pool_type <= 1 {
        assert(is_share(state.next_spend(), state.pool_type, state.treasury_balance as int));
        assert forall|lamports: int| #[trigger]
            is_share(lamports, state.pool_type, state.treasury_balance as int) implies lamports
            == state.next_spend() by {}
        assert(0 <= state.next_spend() <= state.treasury_balance);
    }
}

/// The first step of a buyback looks for the state at the address of the word "buyback",
/// the pool and the stored bump, and for the vault at the canonical address of the word
/// for the vaults of its pool type and the mint.
pub proof fn law_buyback_derives_its_addresses(
    accounts: ExecuteBuyback,
    params: ExecuteBuybackParams,
    deployment: Deployment,
    slot: u64,
)
    ensures
        ({
            let state = accounts.buyback_state;
            let id = deployment.program_id@;
            let word = if state.pool_type == 0 {
                seeds::bonding_sol_vault()
            } else {
                seeds::presale_sol_vault()
            };
            execute_buyback::buyback_step(
                accounts,
                params,
                deployment,
                BuybackPhase::Idle,
                BuybackEvent::Slot(slot),
            ) == accounts.started(
                deployment,
                slot,
                crate::pubkey::program_address(
                    seq![seeds::buyback(), state.pool@, seq![state.bump]],
                    id,
                ),
                crate::pubkey::canonical_address(seq![word, accounts.pool_mint@], id),
            )
        }),
{
    seeds::law_words_of_the_seeds(deployment);
}

/// Once funded, a buyback swaps exactly what it spent, asks for at least the tokens its
/// caller asked for, and swaps wrapped SOL for the token between the payer's two accounts
/// on the pool and vaults it was given.
pub proof fn law_funded_buyback_swaps(
    accounts: ExecuteBuyback,
    params: ExecuteBuybackParams,
    deployment: Deployment,
    spend: Spend,
)
    ensures
        ({
            let r = execute_buyback::buyback_step(
                accounts,
                params,
                deployment,
                BuybackPhase::Funding(spend),
                BuybackEvent::Transferred,
            );
            &&& r is Ok
            &&& r->Ok_0.0 == BuybackPhase::Swapping(spend)
            &&& r->Ok_0.1 is Swap
            &&& r->Ok_0.1->Swap_1.amount_in == spend.sol_spent
            &&& r->Ok_0.1->Swap_1.minimum_amount_out == params.min_tokens_out
            &&& swap_is_the_payers(accounts, r->Ok_0.1->Swap_0)
        }),
{
}

/// The swap runs on the accounts that the buyback was given, each in its place.
pub open spec fn swap_is_the_payers(
    accounts: ExecuteBuyback,
    swap: crate::cpi::SwapAccounts,
) -> bool {
    &&& swap.pool == accounts.meteora_pool
    &&& swap.input_vault == accounts.meteora_input_vault
    &&& swap.output_vault == accounts.meteora_output_vault
    &&& swap.input_mint == accounts.wsol_mint
    &&& swap.output_mint == accounts.token_mint
    &&& swap.user_input_token == accounts.payer_wsol_account
    &&& swap.user_output_token == accounts.payer_token_account.key
    &&& swap.user == accounts.payer
    &&& swap.protocol_fee == accounts.protocol_fee
    &&& swap.input_token_program == accounts.token_program
    &&& swap.output_token_program == accounts.token_program
    &&& swap.meteora_program == accounts.meteora_program
}

/// `outcome` counts `tokens` on top of `before` and then asks for the time, or refuses
/// them exactly where a sum does not fit.
pub open spec fn counts_tokens(
    outcome: BuybackOutcome,
    mode: BuybackMode,
    before: BuybackState,
    sol_spent: u64,
    tokens: int,
) -> bool {
    let fits = before.total_tokens_bought + tokens <= u64::MAX && match mode {
        BuybackMode::Burn => before.total_tokens_burned + tokens <= u64::MAX,
        BuybackMode::AddLiquidity => before.total_tokens_lp + tokens <= u64::MAX,
    };
    &&& !fits ==> outcome == Err::<(BuybackPhase, BuybackAction), _>(
        InstructionError::Launchpad(LaunchpadError::MathOverflow),
    )
    &&& fits ==> {
        &&& outcome is Ok
        &&& outcome->Ok_0.1 is ReadTime
        &&& outcome->Ok_0.0 is Closing
        &&& ({
            let receipt = outcome->Ok_0.0->Closing_0;
            let after = receipt.state;
            &&& receipt.sol_spent == sol_spent
            &&& receipt.tokens_received == tokens
            &&& after.total_tokens_bought == before.total_tokens_bought + tokens
            &&& mode is Burn ==> after.total_tokens_burned == before.total_tokens_burned + tokens
                && after.total_tokens_lp == before.total_tokens_lp
            &&& mode is AddLiquidity ==> after.total_tokens_lp == before.total_tokens_lp + tokens
                && after.total_tokens_burned == before.total_tokens_burned
            &&& same_binding(after, before)
            &&& same_sol(after, before)
        })
    }
}

/// A swap is judged by what the payer's token account gained: a loss is refused, and so is
/// a gain below what was asked for. In Burn mode exactly the gain is to be burned, from
/// the payer's token account, of the token's mint, on the payer's authority, whatever the
/// type of the pool. In AddLiquidity mode the gain is counted and nothing is burned.
pub proof fn law_swap_is_judged_by_its_gain(
    accounts: ExecuteBuyback,
    params: ExecuteBuybackParams,
    spend: Spend,
    token_balance: u64,
)
    ensures
        ({
            let r = execute_buyback::swapped(accounts, params, spend, token_balance);
            let gain = token_balance - accounts.payer_token_account.amount;
            &&& gain < 0 ==> r == Err::<(BuybackPhase, BuybackAction), _>(
                InstructionError::Launchpad(LaunchpadError::MathUnderflow),
            )
            &&& 0 <= gain < params.min_tokens_out ==> r == Err::<(BuybackPhase, BuybackAction), _>(
                InstructionError::Launchpad(LaunchpadError::SlippageExceeded),
            )
            &&& params.min_tokens_out <= gain ==> match params.mode {
                BuybackMode::Burn => {
                    &&& r is Ok
                    &&& r->Ok_0.0 is Burning
                    &&& r->Ok_0.0->Burning_0.state == spend.state
                    &&& r->Ok_0.0->Burning_0.sol_spent == spend.sol_spent
                    &&& r->Ok_0.0->Burning_0.tokens_received == gain
                    &&& r->Ok_0.1 is Burn
                    &&& r->Ok_0.1->Burn_0.amount == gain
                    &&& r->Ok_0.1->Burn_0.mint == accounts.token_mint
                    &&& r->Ok_0.1->Burn_0.from == accounts.payer_token_account.key
                    &&& r->Ok_0.1->Burn_0.authority == accounts.payer
                },
                BuybackMode::AddLiquidity => counts_tokens(
                    r,
                    params.mode,
                    spend.state,
                    spend.sol_spent,
                    gain,
                ),
            }
        }),
{
}

/// Counting tokens books them under their mode.
pub proof fn law_tokens_are_counted(mode: BuybackMode, receipt: Receipt)
    ensures
        counts_tokens(
            execute_buyback::counted(mode, receipt),
            mode,
            receipt.state,
            receipt.sol_spent,
            receipt.tokens_received as int,
        ),
{
}

/// After the swap its gain is judged; after the burn the burned tokens are counted under
/// the mode; with the time the buyback ends, stores the state it has come to, and
/// announces the pool, the lamports, the tokens, the mode and the time.
pub proof fn law_later_steps(
    accounts: ExecuteBuyback,
    params: ExecuteBuybackParams,
    deployment: Deployment,
    spend: Spend,
    token_balance: u64,
    receipt: Receipt,
    timestamp: i64,
)
    ensures
        execute_buyback::buyback_step(
            accounts,
            params,
            deployment,
            BuybackPhase::Swapping(spend),
            BuybackEvent::Swapped { token_balance },
        ) == execute_buyback::swapped(accounts, params, spend, token_balance),
        counts_tokens(
            execute_buyback::buyback_step(
                accounts,
                params,
                deployment,
                BuybackPhase::Burning(receipt),
                BuybackEvent::Burned,
            ),
            params.mode,
            receipt.state,
            receipt.sol_spent,
            receipt.tokens_received as int,
        ),
        ({
            let r = execute_buyback::buyback_step(
                accounts,
                params,
                deployment,
                BuybackPhase::Closing(receipt),
                BuybackEvent::Time(timestamp),
            );
            &&& r is Ok
            &&& r->Ok_0.0 is Complete
            &&& r->Ok_0.1 is Finish
            &&& r->Ok_0.1->Finish_0 == receipt.state
            &&& r->Ok_0.1->Finish_1.pool == receipt.state.pool
            &&& r->Ok_0.1->Finish_1.sol_spent == receipt.sol_spent
            &&& r->Ok_0.1->Finish_1.tokens_received == receipt.tokens_received
            &&& params.mode is Burn ==> r->Ok_0.1->Finish_1.mode == 0
            &&& params.mode is AddLiquidity ==> r->Ok_0.1->Finish_1.mode == 1
            &&& r->Ok_0.1->Finish_1.timestamp == timestamp
        }),
{
    law_tokens_are_counted(params.mode, receipt);
}

/// An event that does not answer the action of the phase is refused as out of order.
pub proof fn law_other_events_are_out_of_order(
    accounts: ExecuteBuyback,
    params: ExecuteBuybackParams,
    deployment: Deployment,
    phase: BuybackPhase,
    event: BuybackEvent,
)
    requires
        !(phase is Idle && event is Slot),
        !(phase is Funding && event is Transferred),
        !(phase is Swapping && event is Swapped),
        !(phase is Burning && event is Burned),
        !(phase is Closing && event is Time),
    ensures
        execute_buyback::buyback_step(accounts, params, deployment, phase, event) == Err::<
            (BuybackPhase, BuybackAction),
            _,
        >(InstructionError::OutOfOrder),
{
}

} // verus!
