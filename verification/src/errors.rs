//! The error taxonomy of the lifecycle operations.
//!
//! Every error is detected before any mutation or custody action: a failed
//! operation has no observable effect.

use vstd::prelude::*;

verus! {

/// Why a lifecycle operation was refused.
#[derive(Clone, Copy, Debug, PartialEq, Eq, Structural)]
pub enum ErrorCode {
    /// Less than one full collection period has elapsed since the last
    /// reward issuance.
    NotEnoughElapsedSinceLastCollection,
    /// The lock has not expired yet: the current time is before the
    /// receipt's release date.
    TooEarlyToUnstake,
    /// Release was attempted before the full reward was issued.
    FullRewardNotCollected,
    /// The full reward for this escrow has already been issued.
    FullRewardAlreadyCollected,
    /// The duration tier is not one of the three valid tiers.
    InvalidStakingPeriod,
    /// The owner's asset holding does not contain exactly the one unit to be
    /// locked.
    InsufficientBalance,
    /// A caller-supplied account reference does not match the one stored in
    /// the receipt.
    AccountReferenceMismatch,
    /// A caller-supplied asset identity or issuance authority does not match
    /// the receipt or the configured constants.
    AssetIdentityMismatch,
}

} // verus!
