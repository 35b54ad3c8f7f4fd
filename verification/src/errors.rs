//! The discrete error signals of the staking program.

use vstd::prelude::*;

verus! {

/// One error per failure cause; every operation aborts with exactly one of
/// these and leaves all persisted state unchanged.
#[derive(Clone, Copy, PartialEq, Eq, Structural, Debug)]
pub enum ErrorCode {
    /// Tokens are already staked under this position.
    IsStaked,
    /// No stake record exists for this position.
    NotStaked,
    /// A stake of zero tokens was requested.
    NoTokens,
    /// The cadence selector is not one of the three known cadences.
    InvalidRoiType,
    /// No rewards are available to claim.
    NoReward,
    /// Less than one full reward cycle has elapsed.
    Wait,
    /// The position auto-compounds, so periodic claims are disabled.
    NoClaim,
    /// The lock period has not elapsed yet.
    StillLocked,
    /// The caller is not the recorded admin.
    Unauthorized,
    /// The claim window is over.
    TimeOver,
    /// Every reward cycle of this position has already been claimed.
    AlreadyClaimed,
    /// The annual-rate denominator must be positive.
    InvalidApyDenominator,
    /// The annual-rate numerator must be positive.
    InvalidApy,
    /// The lock duration must be positive.
    InvalidLockTime,
    /// The pool is already administered by a different identity.
    UnauthorizedAdmin,
    /// The stake nonce is already in use by this position record.
    IsStakeSeed,
    /// The position holds no staked amount.
    InvalidAmount,
    /// Another operation on this position is still in process.
    AlreadyInProcess,
}

} // verus!
