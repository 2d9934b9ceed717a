//! The buyback treasury of a migrated pool.
use vstd::prelude::*;

use crate::errors::LaunchpadError;
use crate::fees::BPS_DENOMINATOR;
use crate::pubkey::Pubkey;

verus! {

/// What becomes of the tokens that a buyback buys.
#[derive(Clone, Copy, Debug, PartialEq, Eq, Structural)]
pub enum BuybackMode {
    /// Swap SOL for tokens, then burn them (deflationary)
    Burn,
    /// Swap SOL for tokens, then leave them with the caller to add as liquidity
    AddLiquidity,
}

impl BuybackMode {
    /// The number that stands for the mode in an event.
    pub open spec fn code(self) -> u8 {
        match self {
            BuybackMode::Burn => 0,
            BuybackMode::AddLiquidity => 1,
        }
    }

    /// The number that stands for the mode in an event.
    pub fn to_code(self) -> (r: u8)
        ensures
            r == self.code(),
    {
        match self {
            BuybackMode::Burn => 0,
            BuybackMode::AddLiquidity => 1,
        }
    }
}

/// The record of a pool's buybacks.
#[derive(Clone, Copy, Debug, PartialEq, Eq)]
pub struct BuybackState {
    /// Associated pool
    pub pool: Pubkey,
    /// Associated token mint
    pub mint: Pubkey,
    /// Meteora DAMM pool created during migration, validated on every buyback
    pub meteora_pool: Pubkey,
    /// SOL remaining in buyback treasury (lamports)
    pub treasury_balance: u64,
    /// Last slot a buyback was executed, 0 before the first
    pub last_buyback_slot: u64,
    /// Total SOL spent on buybacks
    pub total_sol_spent: u64,
    /// Total tokens bought back
    pub total_tokens_bought: u64,
    /// Total tokens burned
    pub total_tokens_burned: u64,
    /// Total tokens added as liquidity
    pub total_tokens_lp: u64,
    /// Pool type (0 = bonding, 1 = presale)
    pub pool_type: u8,
    /// PDA bump
    pub bump: u8,
}

impl BuybackState {
    /// `buyback`
    pub const SEED: [u8; 7] = [
        98, 117, 121, 98, 97, 99, 107,
    ];

    /// Minimum slots between buybacks (about 4 seconds)
    pub const MIN_BUYBACK_INTERVAL: u64 = 10;

    /// Bonding curve: 20% of the treasury each buyback cycle
    pub const BONDING_BUYBACK_BPS: u64 = 2000;

    /// Presale: 60% of the treasury each buyback cycle
    pub const PRESALE_BUYBACK_BPS: u64 = 6000;

    /// The tallies agree: each token bought was burned or went to liquidity.
    pub open spec fn wf(self) -> bool {
        self.total_tokens_bought == self.total_tokens_burned + self.total_tokens_lp
    }

    /// The pool type is one that buybacks know.
    pub open spec fn known_pool_type(self) -> bool {
        self.pool_type == 0 || self.pool_type == 1
    }

    /// The share of the treasury that one buyback spends, in basis points.
    pub open spec fn buyback_bps(self) -> int {
        if self.pool_type == 0 {
            Self::BONDING_BUYBACK_BPS as int
        } else {
            Self::PRESALE_BUYBACK_BPS as int
        }
    }

    /// The lamports that the next buyback spends.
    pub open spec fn next_spend(self) -> int {
        crate::fees::bps_of(self.treasury_balance as int, self.buyback_bps())
    }

    /// The first slot in which the next buyback may run.
    pub open spec fn next_slot(self) -> int {
        if self.last_buyback_slot == 0 {
            0
        } else {
            self.last_buyback_slot + Self::MIN_BUYBACK_INTERVAL
        }
    }

    /// Why a buyback in `slot` would be refused, judging by the state alone. The
    /// earlier reason wins.
    pub open spec fn spend_refusal(self, slot: u64) -> Option<LaunchpadError> {
        if self.next_slot() > u64::MAX {
            Some(LaunchpadError::MathOverflow)
        } else if slot < self.next_slot() {
            Some(LaunchpadError::BuybackTooFrequent)
        } else if !self.known_pool_type() {
            Some(LaunchpadError::InvalidBuybackMode)
        } else if self.next_spend() == 0 {
            Some(LaunchpadError::InsufficientTreasury)
        } else {
            None
        }
    }

    /// The state after `lamports` left the treasury in `slot`.
    pub open spec fn after_spend(self, lamports: u64, slot: u64) -> BuybackState {
        BuybackState {
            treasury_balance: (self.treasury_balance - lamports) as u64,
            last_buyback_slot: slot,
            total_sol_spent: (self.total_sol_spent + lamports) as u64,
            ..self
        }
    }

    /// The tokens that `mode` tallies, next to all that were bought.
    pub open spec fn tally(self, mode: BuybackMode) -> u64 {
        match mode {
            BuybackMode::Burn => self.total_tokens_burned,
            BuybackMode::AddLiquidity => self.total_tokens_lp,
        }
    }

    /// The state after `tokens` were bought and used as `mode` says.
    pub open spec fn after_purchase(self, mode: BuybackMode, tokens: u64) -> BuybackState {
        let bought = (self.total_tokens_bought + tokens) as u64;
        let used = (self.tally(mode) + tokens) as u64;
        match mode {
            BuybackMode::Burn => BuybackState {
                total_tokens_bought: bought,
                total_tokens_burned: used,
                ..self
            },
            BuybackMode::AddLiquidity => BuybackState {
                total_tokens_bought: bought,
                total_tokens_lp: used,
                ..self
            },
        }
    }

    /// Whether the tallies have room for `tokens` more.
    pub open spec fn has_room(self, mode: BuybackMode, tokens: u64) -> bool {
        &&& self.tally(mode) + tokens <= u64::MAX
        &&& self.total_tokens_bought + tokens <= u64::MAX
    }

    /// Decides whether a buyback may run in `current_slot`, and how many lamports
    /// it spends.
    pub fn plan_spend(&self, current_slot: u64) -> (r: Result<u64, LaunchpadError>)
        ensures
            match self.spend_refusal(current_slot) {
                Some(error) => r == Err::<u64, _>(error),
                None => r is Ok && r->Ok_0 == self.next_spend(),
            },
            r matches Ok(lamports) ==> 0 < lamports <= self.treasury_balance,
    {
        if self.last_buyback_slot > 0 {
            match self.last_buyback_slot.checked_add(Self::MIN_BUYBACK_INTERVAL) {
                None => {
                    return Err(LaunchpadError::MathOverflow);
                },
                Some(next_slot) => {
                    if current_slot < next_slot {
                        return Err(LaunchpadError::BuybackTooFrequent);
                    }
                },
            }
        }
        if !(self.pool_type == 0 || self.pool_type == 1) {
            return Err(LaunchpadError::InvalidBuybackMode);
        }
        let bps: u64 = if self.pool_type == 0 {
            Self::BONDING_BUYBACK_BPS
        } else {
            Self::PRESALE_BUYBACK_BPS
        };
        proof {
            crate::fees::lemma_bps_bounds(self.treasury_balance as int, bps as int);
        }
        assert(self.treasury_balance * bps <= u64::MAX * 10_000) by (nonlinear_arith)
            requires
                0 <= self.treasury_balance <= u64::MAX,
                0 <= bps <= 10_000,
        ;
        let lamports: u128 = self.treasury_balance as u128 * bps as u128 / BPS_DENOMINATOR as u128;
        if lamports == 0 {
            return Err(LaunchpadError::InsufficientTreasury);
        }
        Ok(lamports as u64)
    }

    /// Takes `lamports` out of the treasury in `slot`. Refused, and nothing
    /// changed, where the treasury holds less or the tally of what was spent has
    /// no room.
    pub fn record_spend(&mut self, lamports: u64, slot: u64) -> (r: Result<(), LaunchpadError>)
        ensures
            lamports > old(self).treasury_balance ==> r == Err::<(), _>(
                LaunchpadError::MathUnderflow,
            ),
            lamports <= old(self).treasury_balance && old(self).total_sol_spent + lamports
                > u64::MAX ==> r == Err::<(), _>(LaunchpadError::MathOverflow),
            lamports <= old(self).treasury_balance && old(self).total_sol_spent + lamports
                <= u64::MAX ==> r is Ok,
            r is Ok ==> *final(self) == old(self).after_spend(lamports, slot),
            r is Err ==> *final(self) == *old(self),
    {
        let treasury_balance: u64 = match self.treasury_balance.checked_sub(lamports) {
            None => {
                return Err(LaunchpadError::MathUnderflow);
            },
            Some(left) => left,
        };
        let total_sol_spent: u64 = match self.total_sol_spent.checked_add(lamports) {
            None => {
                return Err(LaunchpadError::MathOverflow);
            },
            Some(sum) => sum,
        };
        self.treasury_balance = treasury_balance;
        self.last_buyback_slot = slot;
        self.total_sol_spent = total_sol_spent;
        Ok(())
    }

    /// Counts `tokens` that were bought and used as `mode` says. Refused, and
    /// nothing changed, where a tally has no room.
    pub fn record_purchase(&mut self, mode: BuybackMode, tokens: u64) -> (r: Result<
        (),
        LaunchpadError,
    >)
        ensures
            !old(self).has_room(mode, tokens) ==> r == Err::<(), _>(LaunchpadError::MathOverflow),
            old(self).has_room(mode, tokens) ==> r is Ok,
            r is Ok ==> *final(self) == old(self).after_purchase(mode, tokens),
            r is Err ==> *final(self) == *old(self),
    {
        let used_before: u64 = match mode {
            BuybackMode::Burn => self.total_tokens_burned,
            BuybackMode::AddLiquidity => self.total_tokens_lp,
        };
        let used: u64 = match used_before.checked_add(tokens) {
            None => {
                return Err(LaunchpadError::MathOverflow);
            },
            Some(sum) => sum,
        };
        let bought: u64 = match self.total_tokens_bought.checked_add(tokens) {
            None => {
                return Err(LaunchpadError::MathOverflow);
            },
            Some(sum) => sum,
        };
        match mode {
            BuybackMode::Burn => {
                self.total_tokens_burned = used;
            },
            BuybackMode::AddLiquidity => {
                self.total_tokens_lp = used;
            },
        }
        self.total_tokens_bought = bought;
        Ok(())
    }
}

} // verus!
