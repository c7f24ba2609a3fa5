//! A time-locked escrow and reward-accrual engine for unique digital assets.
//!
//! An owner locks one unit of an asset for a chosen duration tier and in
//! exchange accrues units of a reward asset at a fixed per-period rate.
//! Rewards can be collected incrementally ([`collect`]), swept in one final
//! collection ([`collect_full`]), and the locked asset is released back once
//! the lock has expired and the full reward has been issued ([`unstake`]).
//!
//! The crate holds the lifecycle state machine and its persistent record (the
//! [`StakeAccount`] receipt), the reward table, and the deterministic custody
//! authority derivation. Moving the actual asset units is the job of an
//! external custody service; the functions here decide, check, and compute,
//! and hand the caller the exact amounts and authorities to act on.

pub mod authority;
pub mod errors;
pub mod ids;
pub mod lifecycle;
pub mod receipt;
pub mod rewards;

pub use authority::{vault_authority, VaultAuthority};
pub use errors::ErrorCode;
pub use ids::AccountId;
pub use lifecycle::{
    collect, collect_full, stake, unstake, Collect, CollectFull, Config, Stake, StakeOutcome,
    Unstake, UnstakeOutcome,
};
pub use receipt::StakeAccount;
pub use rewards::{
    full_amount, lock_duration, reward_rate, FOUR_WEEK_REWARD, FOUR_WEEK_REWARD_OOO,
    MINIMUM_COLLECTION_PERIOD,
    ONE_WEEK_REWARD, ONE_WEEK_REWARD_OOO, STAKING_AMOUNT, STAKING_PERIOD_FOUR_WEEK,
    STAKING_PERIOD_ONE_WEEK, STAKING_PERIOD_TWO_WEEK, TWO_WEEK_REWARD, TWO_WEEK_REWARD_OOO,
};
