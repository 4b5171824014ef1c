use vstd::prelude::*;

verus! {

/// The ways a ledger operation can fail. Every failure leaves the pool
/// configuration and the stake record exactly as they were.
#[derive(Clone, Copy, Debug, PartialEq, Eq, Structural)]
pub enum StakingError {
    /// A pool configuration already exists for this deployment.
    AlreadyInitialized,
    /// A positive amount was required and zero was given.
    InvalidStakeAmount,
    /// An unstake asked for more than the participant has locked.
    InsufficientStake,
    /// An addition or multiplication would exceed the representable range.
    ArithmeticOverflow,
    /// The clock or the stored state is corrupt (e.g. a negative elapsed
    /// duration); the operation is aborted and nothing is auto-corrected.
    InvariantViolation,
}

} // verus!
