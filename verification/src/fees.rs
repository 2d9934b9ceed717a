//! Shares of an amount, in basis points (hundredths of a percent).
use vstd::prelude::*;

use crate::errors::LaunchpadError;

verus! {

/// The basis points that make up a whole.
pub const BPS_DENOMINATOR: u64 = 10_000;

/// `bps` basis points of `amount`, rounded down.
pub open spec fn bps_of(amount: int, bps: int) -> int {
    amount * bps / (BPS_DENOMINATOR as int)
}

/// A share is at least zero, less than one short of the exact quotient, and never more
/// than the amount while it is at most the whole.
pub proof fn lemma_bps_bounds(amount: int, bps: int)
    requires
        0 <= amount,
        0 <= bps,
    ensures
        0 <= bps_of(amount, bps),
        bps_of(amount, bps) * 10_000 <= amount * bps < bps_of(amount, bps) * 10_000 + 10_000,
        bps <= 10_000 ==> bps_of(amount, bps) <= amount,
{
    assert(0 <= amount * bps) by (nonlinear_arith)
        requires
            0 <= amount,
            0 <= bps,
    ;
    if bps <= 10_000 {
        assert(amount * bps <= amount * 10_000) by (nonlinear_arith)
            requires
                0 <= amount,
                bps <= 10_000,
        ;
    }
}

/// `bps` basis points of `amount`, rounded down; `CastOverflow` where the share
/// does not fit 64 bits, which takes more than the whole.
pub fn apply_bps(amount: u64, bps: u16) -> (r: Result<u64, LaunchpadError>)
    ensures
        bps_of(amount as int, bps as int) <= u64::MAX ==> r is Ok && r->Ok_0 == bps_of(
            amount as int,
            bps as int,
        ),
        bps_of(amount as int, bps as int) > u64::MAX ==> r == Err::<u64, _>(
            LaunchpadError::CastOverflow,
        ),
        bps <= 10_000 ==> r is Ok,
{
    proof {
        lemma_bps_bounds(amount as int, bps as int);
    }
    assert(amount * bps <= u64::MAX * u16::MAX) by (nonlinear_arith)
        requires
            0 <= amount <= u64::MAX,
            0 <= bps <= u16::MAX,
    ;
    let share: u128 = amount as u128 * bps as u128 / 10_000u128;
    if share > u64::MAX as u128 {
        return Err(LaunchpadError::CastOverflow);
    }
    Ok(share as u64)
}

/// Splits `amount` into a fee of `bps` basis points and the rest; `CastOverflow`
/// where the fee does not fit 64 bits, `MathUnderflow` where it exceeds `amount`.
pub fn calculate_migration_fee(amount: u64, bps: u16) -> (r: Result<(u64, u64), LaunchpadError>)
    ensures
        bps_of(amount as int, bps as int) <= amount ==> r is Ok && r->Ok_0.0 == bps_of(
            amount as int,
            bps as int,
        ) && r->Ok_0.0 + r->Ok_0.1 == amount,
        amount < bps_of(amount as int, bps as int) <= u64::MAX ==> r == Err::<(u64, u64), _>(
            LaunchpadError::MathUnderflow,
        ),
        bps_of(amount as int, bps as int) > u64::MAX ==> r == Err::<(u64, u64), _>(
            LaunchpadError::CastOverflow,
        ),
        bps <= 10_000 ==> r is Ok,
{
    proof {
        lemma_bps_bounds(amount as int, bps as int);
    }
    match apply_bps(amount, bps) {
        Ok(fee) => {
            if fee > amount {
                return Err(LaunchpadError::MathUnderflow);
            }
            Ok((fee, amount - fee))
        },
        Err(error) => Err(error),
    }
}

} // verus!
