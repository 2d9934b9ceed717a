//! Spending a share of a pool's treasury on its own token.
//!
//! One buyback is a sequence of steps. Each step takes the phase reached so far and
//! the event that answers the last action, and gives the next phase and the next
//! action. Nothing is stored before the last step: a buyback that fails on the way
//! leaves its state as it was.
use vstd::prelude::*;

use crate::cpi::{
    SeedTag, SignerSeeds, SolTransfer, SwapAccounts, SwapParams, TokenAccount, TokenBurn,
};
use crate::errors::{InstructionError, LaunchpadError};
use crate::events::BuybackExecuted;
use crate::pubkey::{address_with_bump, find_address, is_native_mint, Pubkey};
use crate::state::buyback::{BuybackMode, BuybackState};
use crate::state::global_config::Deployment;

verus! {

/// What the caller of a buyback chooses.
#[derive(Clone, Copy, Debug, PartialEq, Eq)]
pub struct ExecuteBuybackParams {
    /// Buyback mode: Burn or AddLiquidity
    pub mode: BuybackMode,
    /// Minimum tokens expected (slippage protection)
    pub min_tokens_out: u64,
}

/// The accounts of a buyback, with what is read of them.
#[derive(Clone, Copy, Debug, PartialEq, Eq)]
pub struct ExecuteBuyback {
    /// Anyone can trigger a buyback
    pub payer: Pubkey,
    /// Where the buyback state is stored
    pub buyback_state_key: Pubkey,
    pub buyback_state: BuybackState,
    /// SOL vault that holds the buyback treasury
    pub buyback_sol_vault: Pubkey,
    /// The token mint of the pool, from which the vault's address derives
    pub pool_mint: Pubkey,
    /// Payer's WSOL account (SOL gets wrapped here for the swap)
    pub payer_wsol_account: Pubkey,
    /// Payer's token account to receive bought-back tokens, as it stands before
    /// the swap
    pub payer_token_account: TokenAccount,
    /// Token mint (for burning)
    pub token_mint: Pubkey,
    /// Meteora DAMM v2 program
    pub meteora_program: Pubkey,
    /// Meteora pool for the swap
    pub meteora_pool: Pubkey,
    /// Meteora input vault (SOL/WSOL side)
    pub meteora_input_vault: Pubkey,
    /// Meteora output vault (token side)
    pub meteora_output_vault: Pubkey,
    /// Mint of wrapped SOL
    pub wsol_mint: Pubkey,
    /// Protocol fee account
    pub protocol_fee: Pubkey,
    pub token_program: Pubkey,
}

/// A buyback that has taken its lamports out of the treasury.
#[derive(Clone, Copy, Debug, PartialEq, Eq)]
pub struct Spend {
    pub state: BuybackState,
    pub sol_spent: u64,
}

/// A buyback that has received its tokens.
#[derive(Clone, Copy, Debug, PartialEq, Eq)]
pub struct Receipt {
    pub state: BuybackState,
    pub sol_spent: u64,
    pub tokens_received: u64,
}

/// How far a buyback has come.
#[derive(Clone, Copy, Debug, PartialEq, Eq)]
pub enum BuybackPhase {
    /// Nothing has happened yet.
    Idle,
    /// The vault is to pay the payer's WSOL account.
    Funding(Spend),
    /// The lamports are to be swapped for tokens.
    Swapping(Spend),
    /// The tokens are to be burned.
    Burning(Receipt),
    /// All tallies are made; the time is to be read.
    Closing(Receipt),
    /// The buyback is over.
    Complete,
}

/// What happened since the last step.
#[derive(Clone, Copy, Debug, PartialEq, Eq)]
pub enum BuybackEvent {
    /// The buyback starts in this slot.
    Slot(u64),
    /// The transfer went through.
    Transferred,
    /// The swap went through, and the payer's token account now holds this much.
    Swapped { token_balance: u64 },
    /// The burn went through.
    Burned,
    /// The time is this (unix timestamp).
    Time(i64),
}

/// What is to be done next.
#[derive(Clone, Copy, Debug, PartialEq, Eq)]
pub enum BuybackAction {
    /// Transfer SOL, then answer with `Transferred`.
    Transfer(SolTransfer),
    /// Swap on Meteora and reload the payer's token account, then answer with
    /// `Swapped`.
    Swap(SwapAccounts, SwapParams),
    /// Burn the tokens, then answer with `Burned`.
    Burn(TokenBurn),
    /// Read the clock, then answer with `Time`.
    ReadTime,
    /// Store the state and announce the event: the buyback is over.
    Finish(BuybackState, BuybackExecuted),
}

/// What one step gives.
pub type BuybackOutcome = Result<(BuybackPhase, BuybackAction), InstructionError>;

impl ExecuteBuyback {
    /// The seeds from which the address of the buyback state derives.
    pub open spec fn state_seeds(self) -> Seq<Seq<u8>> {
        seq![BuybackState::SEED@, self.buyback_state.pool@, seq![self.buyback_state.bump]]
    }

    /// The seeds from which the address of the treasury's vault derives.
    pub open spec fn vault_seeds(self, deployment: Deployment) -> Seq<Seq<u8>> {
        seq![
            SeedTag::sol_vault_of(self.buyback_state.pool_type).bytes(deployment),
            self.pool_mint@,
        ]
    }

    /// Why the accounts are refused, where `state_address` is what the state's seeds
    /// give. The earlier reason wins.
    pub open spec fn accounts_refusal(
        self,
        deployment: Deployment,
        state_address: Option<Seq<u8>>,
    ) -> Option<InstructionError> {
        if state_address != Some(self.buyback_state_key@) {
            Some(InstructionError::ConstraintSeeds)
        } else if self.buyback_state.treasury_balance == 0 {
            Some(InstructionError::Launchpad(LaunchpadError::InsufficientTreasury))
        } else if self.pool_mint != self.buyback_state.mint {
            Some(InstructionError::Launchpad(LaunchpadError::InvalidPoolParams))
        } else if self.payer_token_account.mint != self.token_mint {
            Some(InstructionError::ConstraintTokenMint)
        } else if self.token_mint != self.buyback_state.mint || self.meteora_program
            != deployment.meteora_program_id || self.meteora_pool
            != self.buyback_state.meteora_pool || self.wsol_mint@
            != crate::pubkey::native_mint_bytes() {
            Some(InstructionError::Launchpad(LaunchpadError::InvalidPoolParams))
        } else {
            None
        }
    }

    /// Why a buyback that starts in `slot` is refused, where `vault` is what the
    /// vault's seeds give. The earlier reason wins.
    pub open spec fn start_refusal(
        self,
        deployment: Deployment,
        slot: u64,
        state_address: Option<Seq<u8>>,
        vault: Option<(Seq<u8>, u8)>,
    ) -> Option<InstructionError> {
        if self.accounts_refusal(deployment, state_address) is Some {
            self.accounts_refusal(deployment, state_address)
        } else if self.buyback_state.spend_refusal(slot) is Some {
            Some(InstructionError::Launchpad(self.buyback_state.spend_refusal(slot)->Some_0))
        } else if self.buyback_state.total_sol_spent + self.buyback_state.next_spend() > u64::MAX {
            Some(InstructionError::Launchpad(LaunchpadError::MathOverflow))
        } else if vault is None {
            Some(InstructionError::NoProgramAddress)
        } else if vault->Some_0.0 != self.buyback_sol_vault@ {
            Some(InstructionError::Launchpad(LaunchpadError::InvalidPoolParams))
        } else {
            None
        }
    }

    /// The transfer that funds a buyback of `lamports`, signed with `bump`.
    pub open spec fn funding(self, lamports: u64, bump: u8) -> SolTransfer {
        SolTransfer {
            from: self.buyback_sol_vault,
            to: self.payer_wsol_account,
            signer: SignerSeeds {
                tag: SeedTag::sol_vault_of(self.buyback_state.pool_type),
                key: self.pool_mint,
                bump,
            },
            lamports,
        }
    }

    /// The outcome of the step that starts a buyback in `slot`.
    pub open spec fn started(
        self,
        deployment: Deployment,
        slot: u64,
        state_address: Option<Seq<u8>>,
        vault: Option<(Seq<u8>, u8)>,
    ) -> BuybackOutcome {
        match self.start_refusal(deployment, slot, state_address, vault) {
            Some(error) => Err(error),
            None => {
                let lamports = self.buyback_state.next_spend() as u64;
                let state = self.buyback_state.after_spend(lamports, slot);
                Ok(
                    (
                        BuybackPhase::Funding(Spend { state, sol_spent: lamports }),
                        BuybackAction::Transfer(self.funding(lamports, vault->Some_0.1)),
                    ),
                )
            },
        }
    }

    /// The accounts of the swap.
    pub open spec fn swap_accounts(self) -> SwapAccounts {
        SwapAccounts {
            pool: self.meteora_pool,
            input_vault: self.meteora_input_vault,
            output_vault: self.meteora_output_vault,
            input_mint: self.wsol_mint,
            output_mint: self.token_mint,
            user_input_token: self.payer_wsol_account,
            user_output_token: self.payer_token_account.key,
            user: self.payer,
            protocol_fee: self.protocol_fee,
            input_token_program: self.token_program,
            output_token_program: self.token_program,
            meteora_program: self.meteora_program,
        }
    }

    /// The burn of `amount` tokens.
    pub open spec fn burn(self, amount: u64) -> TokenBurn {
        TokenBurn {
            mint: self.token_mint,
            from: self.payer_token_account.key,
            authority: self.payer,
            amount,
        }
    }
}

/// The outcome of counting the tokens of `receipt`.
pub open spec fn counted(mode: BuybackMode, receipt: Receipt) -> BuybackOutcome {
    if !receipt.state.has_room(mode, receipt.tokens_received) {
        Err(InstructionError::Launchpad(LaunchpadError::MathOverflow))
    } else {
        let state = receipt.state.after_purchase(mode, receipt.tokens_received);
        Ok((BuybackPhase::Closing(Receipt { state, ..receipt }), BuybackAction::ReadTime))
    }
}

/// The outcome of a swap after which the payer holds `token_balance`.
pub open spec fn swapped(
    accounts: ExecuteBuyback,
    params: ExecuteBuybackParams,
    spend: Spend,
    token_balance: u64,
) -> BuybackOutcome {
    let received = token_balance - accounts.payer_token_account.amount;
    if received < 0 {
        Err(InstructionError::Launchpad(LaunchpadError::MathUnderflow))
    } else if received < params.min_tokens_out {
        Err(InstructionError::Launchpad(LaunchpadError::SlippageExceeded))
    } else {
        let receipt = Receipt {
            state: spend.state,
            sol_spent: spend.sol_spent,
            tokens_received: received as u64,
        };
        match params.mode {
            BuybackMode::Burn => Ok(
                (
                    BuybackPhase::Burning(receipt),
                    BuybackAction::Burn(accounts.burn(receipt.tokens_received)),
                ),
            ),
            BuybackMode::AddLiquidity => counted(params.mode, receipt),
        }
    }
}

/// What is announced of a buyback that ends at `timestamp`.
pub open spec fn announcement(
    params: ExecuteBuybackParams,
    receipt: Receipt,
    timestamp: i64,
) -> BuybackExecuted {
    BuybackExecuted {
        pool: receipt.state.pool,
        sol_spent: receipt.sol_spent,
        tokens_received: receipt.tokens_received,
        mode: params.mode.code(),
        timestamp,
    }
}

/// The outcome of one step, where `state_address` and `vault` are what the seeds of
/// the buyback state and of the vault give.
pub open spec fn buyback_step_at(
    accounts: ExecuteBuyback,
    params: ExecuteBuybackParams,
    deployment: Deployment,
    state_address: Option<Seq<u8>>,
    vault: Option<(Seq<u8>, u8)>,
    phase: BuybackPhase,
    event: BuybackEvent,
) -> BuybackOutcome {
    match (phase, event) {
        (BuybackPhase::Idle, BuybackEvent::Slot(slot)) => accounts.started(
            deployment,
            slot,
            state_address,
            vault,
        ),
        (BuybackPhase::Funding(spend), BuybackEvent::Transferred) => Ok(
            (
                BuybackPhase::Swapping(spend),
                BuybackAction::Swap(
                    accounts.swap_accounts(),
                    SwapParams {
                        amount_in: spend.sol_spent,
                        minimum_amount_out: params.min_tokens_out,
                    },
                ),
            ),
        ),
        (BuybackPhase::Swapping(spend), BuybackEvent::Swapped { token_balance }) => swapped(
            accounts,
            params,
            spend,
            token_balance,
        ),
        (BuybackPhase::Burning(receipt), BuybackEvent::Burned) => counted(params.mode, receipt),
        (BuybackPhase::Closing(receipt), BuybackEvent::Time(timestamp)) => Ok(
            (
                BuybackPhase::Complete,
                BuybackAction::Finish(receipt.state, announcement(params, receipt, timestamp)),
            ),
        ),
        _ => Err(InstructionError::OutOfOrder),
    }
}

/// The outcome of one step.
pub open spec fn buyback_step(
    accounts: ExecuteBuyback,
    params: ExecuteBuybackParams,
    deployment: Deployment,
    phase: BuybackPhase,
    event: BuybackEvent,
) -> BuybackOutcome {
    buyback_step_at(
        accounts,
        params,
        deployment,
        crate::pubkey::program_address(accounts.state_seeds(), deployment.program_id@),
        crate::pubkey::canonical_address(
            accounts.vault_seeds(deployment),
            deployment.program_id@,
        ),
        phase,
        event,
    )
}

impl ExecuteBuyback {
    /// Checks the accounts against the buyback state, where `state_address` is what
    /// the state's seeds give.
    pub fn check_accounts(&self, deployment: &Deployment, state_address: Option<Pubkey>) -> (r:
        Result<(), InstructionError>)
        ensures
            match self.accounts_refusal(*deployment, crate::pubkey::key_bytes(state_address)) {
                Some(error) => r == Err::<(), _>(error),
                None => r is Ok,
            },
    {
        match state_address {
            None => {
                return Err(InstructionError::ConstraintSeeds);
            },
            Some(address) => {
                proof {
                    if address@ == self.buyback_state_key@ {
                        crate::pubkey::lemma_key_is_its_bytes(address, self.buyback_state_key);
                    }
                }
                if self.buyback_state_key != address {
                    return Err(InstructionError::ConstraintSeeds);
                }
            },
        }
        if self.buyback_state.treasury_balance == 0 {
            return Err(InstructionError::Launchpad(LaunchpadError::InsufficientTreasury));
        }
        if self.pool_mint != self.buyback_state.mint {
            return Err(InstructionError::Launchpad(LaunchpadError::InvalidPoolParams));
        }
        if self.payer_token_account.mint != self.token_mint {
            return Err(InstructionError::ConstraintTokenMint);
        }
        if self.token_mint != self.buyback_state.mint {
            return Err(InstructionError::Launchpad(LaunchpadError::InvalidPoolParams));
        }
        if self.meteora_program != deployment.meteora_program_id {
            return Err(InstructionError::Launchpad(LaunchpadError::InvalidPoolParams));
        }
        if self.meteora_pool != self.buyback_state.meteora_pool {
            return Err(InstructionError::Launchpad(LaunchpadError::InvalidPoolParams));
        }
        if !is_native_mint(&self.wsol_mint) {
            return Err(InstructionError::Launchpad(LaunchpadError::InvalidPoolParams));
        }
        Ok(())
    }

    /// Starts a buyback in `slot`, where `state_address` and `vault` are what the
    /// seeds of the buyback state and of the vault give.
    pub fn start(
        &self,
        deployment: &Deployment,
        slot: u64,
        state_address: Option<Pubkey>,
        vault: Option<(Pubkey, u8)>,
    ) -> (r: BuybackOutcome)
        ensures
            r == self.started(
                *deployment,
                slot,
                crate::pubkey::key_bytes(state_address),
                crate::pubkey::key_and_bump(vault),
            ),
    {
        match self.check_accounts(deployment, state_address) {
            Err(error) => {
                return Err(error);
            },
            Ok(()) => {},
        }
        let lamports: u64 = match self.buyback_state.plan_spend(slot) {
            Err(error) => {
                return Err(InstructionError::Launchpad(error));
            },
            Ok(lamports) => lamports,
        };
        let mut state = self.buyback_state;
        match state.record_spend(lamports, slot) {
            Err(error) => {
                return Err(InstructionError::Launchpad(error));
            },
            Ok(()) => {},
        }
        let (expected, bump) = match vault {
            None => {
                return Err(InstructionError::NoProgramAddress);
            },
            Some(found) => found,
        };
        proof {
            if expected@ == self.buyback_sol_vault@ {
                crate::pubkey::lemma_key_is_its_bytes(expected, self.buyback_sol_vault);
            }
        }
        if self.buyback_sol_vault != expected {
            return Err(InstructionError::Launchpad(LaunchpadError::InvalidPoolParams));
        }
        let signer = SignerSeeds {
            tag: SeedTag::sol_vault(self.buyback_state.pool_type),
            key: self.pool_mint,
            bump,
        };
        let transfer = SolTransfer {
            from: self.buyback_sol_vault,
            to: self.payer_wsol_account,
            signer,
            lamports,
        };
        Ok(
            (
                BuybackPhase::Funding(Spend { state, sol_spent: lamports }),
                BuybackAction::Transfer(transfer),
            ),
        )
    }

    /// Takes the tokens that a swap gave.
    pub fn receive(&self, params: &ExecuteBuybackParams, spend: Spend, token_balance: u64) -> (r:
        BuybackOutcome)
        ensures
            r == swapped(*self, *params, spend, token_balance),
    {
        let tokens_received: u64 = match token_balance.checked_sub(
            self.payer_token_account.amount,
        ) {
            None => {
                return Err(InstructionError::Launchpad(LaunchpadError::MathUnderflow));
            },
            Some(tokens) => tokens,
        };
        if tokens_received < params.min_tokens_out {
            return Err(InstructionError::Launchpad(LaunchpadError::SlippageExceeded));
        }
        let receipt = Receipt { state: spend.state, sol_spent: spend.sol_spent, tokens_received };
        match params.mode {
            BuybackMode::Burn => Ok(
                (
                    BuybackPhase::Burning(receipt),
                    BuybackAction::Burn(
                        TokenBurn {
                            mint: self.token_mint,
                            from: self.payer_token_account.key,
                            authority: self.payer,
                            amount: tokens_received,
                        },
                    ),
                ),
            ),
            BuybackMode::AddLiquidity => count_tokens(params.mode, receipt),
        }
    }
}

/// Counts the tokens of `receipt`.
pub fn count_tokens(mode: BuybackMode, receipt: Receipt) -> (r: BuybackOutcome)
    ensures
        r == counted(mode, receipt),
{
    let mut state = receipt.state;
    match state.record_purchase(mode, receipt.tokens_received) {
        Err(error) => Err(InstructionError::Launchpad(error)),
        Ok(()) => Ok(
            (
                BuybackPhase::Closing(
                    Receipt {
                        state,
                        sol_spent: receipt.sol_spent,
                        tokens_received: receipt.tokens_received,
                    },
                ),
                BuybackAction::ReadTime,
            ),
        ),
    }
}

/// Takes one step of a buyback: the phase reached so far and the event that answers
/// the last action give the next phase and the next action. A transfer that it asks
/// for is signed with seeds that give the address of the vault it takes from.
pub fn handle_execute_buyback(
    accounts: &ExecuteBuyback,
    params: &ExecuteBuybackParams,
    deployment: &Deployment,
    phase: BuybackPhase,
    event: BuybackEvent,
) -> (r: BuybackOutcome)
    ensures
        r == buyback_step(*accounts, *params, *deployment, phase, event),
        r matches Ok((_, BuybackAction::Transfer(transfer))) ==> transfer.signer.sign_for(
            transfer.from,
            *deployment,
        ),
{
    match (phase, event) {
        (BuybackPhase::Idle, BuybackEvent::Slot(slot)) => {
            let state = &accounts.buyback_state;
            let state_address = address_with_bump(
                &BuybackState::SEED,
                &state.pool,
                state.bump,
                &deployment.program_id,
            );
            let tag = SeedTag::sol_vault(state.pool_type).to_bytes(deployment);
            let vault = find_address(tag.as_slice(), &accounts.pool_mint, &deployment.program_id);
            accounts.start(deployment, slot, state_address, vault)
        },
        (BuybackPhase::Funding(spend), BuybackEvent::Transferred) => Ok(
            (
                BuybackPhase::Swapping(spend),
                BuybackAction::Swap(
                    SwapAccounts {
                        pool: accounts.meteora_pool,
                        input_vault: accounts.meteora_input_vault,
                        output_vault: accounts.meteora_output_vault,
                        input_mint: accounts.wsol_mint,
                        output_mint: accounts.token_mint,
                        user_input_token: accounts.payer_wsol_account,
                        user_output_token: accounts.payer_token_account.key,
                        user: accounts.payer,
                        protocol_fee: accounts.protocol_fee,
                        input_token_program: accounts.token_program,
                        output_token_program: accounts.token_program,
                        meteora_program: accounts.meteora_program,
                    },
                    SwapParams {
                        amount_in: spend.sol_spent,
                        minimum_amount_out: params.min_tokens_out,
                    },
                ),
            ),
        ),
        (BuybackPhase::Swapping(spend), BuybackEvent::Swapped { token_balance }) => {
            accounts.receive(params, spend, token_balance)
        },
        (BuybackPhase::Burning(receipt), BuybackEvent::Burned) => count_tokens(
            params.mode,
            receipt,
        ),
        (BuybackPhase::Closing(receipt), BuybackEvent::Time(timestamp)) => Ok(
            (
                BuybackPhase::Complete,
                BuybackAction::Finish(
                    receipt.state,
                    BuybackExecuted {
                        pool: receipt.state.pool,
                        sol_spent: receipt.sol_spent,
                        tokens_received: receipt.tokens_received,
                        mode: params.mode.to_code(),
                        timestamp,
                    },
                ),
            ),
        ),
        _ => Err(InstructionError::OutOfOrder),
    }
}

} // verus!
