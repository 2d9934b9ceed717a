//! The ways an instruction is refused.
use vstd::prelude::*;

verus! {

/// The program's own error codes.
#[derive(Clone, Copy, Debug, PartialEq, Eq, Structural)]
pub enum LaunchpadError {
    /// The platform is paused.
    PlatformPaused,
    /// The signer is not the platform's admin.
    UnauthorizedAdmin,
    /// A fee setting or a fee wallet does not match the configuration.
    InvalidFeeConfig,
    /// An account is not the one that the pool names.
    InvalidPoolParams,
    /// The pool has already been migrated.
    AlreadyMigrated,
    /// The pool has not raised its target yet.
    MigrationTargetNotReached,
    /// The buyback treasury is empty, or too small for one lamport to be spent.
    InsufficientTreasury,
    /// The previous buyback is too recent.
    BuybackTooFrequent,
    /// The pool type of a buyback state is neither bonding nor presale.
    InvalidBuybackMode,
    /// A swap gave fewer tokens than its caller asked for.
    SlippageExceeded,
    /// A sum does not fit its type.
    MathOverflow,
    /// A difference is negative.
    MathUnderflow,
    /// A value does not fit the narrower type it is converted to.
    CastOverflow,
}

/// Everything that can end an instruction early.
#[derive(Clone, Copy, Debug, PartialEq, Eq, Structural)]
pub enum InstructionError {
    /// One of the program's own errors.
    Launchpad(LaunchpadError),
    /// An account does not stand at the address that its seeds and bump give.
    ConstraintSeeds,
    /// A token account is not held by the expected authority.
    ConstraintTokenOwner,
    /// A token account is not of the expected mint.
    ConstraintTokenMint,
    /// No bump from 1 to 255 gives a program address for the seeds. An on-chain
    /// caller aborts here.
    NoProgramAddress,
    /// The event does not answer the action that the previous step asked for.
    OutOfOrder,
}

} // verus!
