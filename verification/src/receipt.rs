//! The persistent per-escrow record (the receipt) and its invariants.

use vstd::prelude::*;

use crate::ids::AccountId;
use crate::rewards::{
    full_amount, lock_duration, spec_full_amount, spec_lock_duration, valid_tier,
};

verus! {

/// The record of one active escrow: who locked which asset, when, for which
/// tier, and how much reward has been issued so far.
///
/// One receipt exists per escrow. It is created by [`crate::lifecycle::stake`],
/// mutated in place by [`crate::lifecycle::collect`] and
/// [`crate::lifecycle::collect_full`], and destroyed together with the release
/// of the escrowed asset after [`crate::lifecycle::unstake`] succeeds.
#[derive(Clone, Copy, Debug)]
pub struct StakeAccount {
    /// The owner who locked the asset.
    pub staking_token_owner: AccountId,
    /// The owner's holding of the staked asset (source at open, destination at release).
    pub owner_staking_token_account: AccountId,
    /// The owner's holding of the reward asset, where rewards are issued.
    pub owner_reward_token_account: AccountId,
    /// The identity of the staked asset.
    pub staking_mint: AccountId,
    /// Timestamp of the opening of the escrow.
    pub created: i64,
    /// Timestamp of the most recent reward issuance.
    pub last_reward_collection: i64,
    /// Cumulative reward issued so far; never exceeds the full amount.
    pub total_reward_collected: u64,
    /// Earliest timestamp at which the escrowed asset may be released.
    pub unstake_date: i64,
    /// The duration tier: 0 (short), 1 (medium) or 2 (long).
    pub staking_period: u16,
    /// Whether the asset is one-of-one, selecting the higher reward table.
    pub is_one_of_one: bool,
    /// True exactly once the cumulative reward has reached the full amount.
    pub full_reward_collected: bool,
}

impl StakeAccount {
    /// The full reward owed for this receipt's tier and uniqueness: its accrual cap.
    pub open spec fn spec_cap(self) -> u64 {
        spec_full_amount(self.staking_period, self.is_one_of_one)
    }

    /// Well-formedness: the invariants that hold of every receipt after every
    /// operation.
    ///
    /// The tier is one of the three valid tiers; timestamps are non-negative;
    /// the cumulative reward never exceeds the cap; the full-collection flag
    /// is set exactly when the cap is reached; and the release date is the
    /// creation date plus the tier's lock duration, fixed at creation.
    pub open spec fn wf(self) -> bool {
        &&& valid_tier(self.staking_period)
        &&& 0 <= self.created
        &&& 0 <= self.last_reward_collection
        &&& self.total_reward_collected <= self.spec_cap()
        &&& self.full_reward_collected <==> self.total_reward_collected == self.spec_cap()
        &&& self.unstake_date == self.created + spec_lock_duration(self.staking_period)
    }

    /// Decides [`Self::wf`] at run time: the executable gate an unverified
    /// caller uses before handing a stored receipt to the operations, proved
    /// to agree with the invariant the operations assume.
    pub fn is_well_formed(&self) -> (b: bool)
        ensures
            b == self.wf(),
    {
        if self.staking_period > 2 || self.created < 0 || self.last_reward_collection < 0 {
            return false;
        }
        let full = full_amount(self.staking_period, self.is_one_of_one);
        let duration = lock_duration(self.staking_period);
        let expected_unstake_date = match self.created.checked_add(duration) {
            Some(d) => d,
            None => {
                // The release date the invariant demands does not fit an
                // i64, so no stored date can equal it.
                return false;
            },
        };
        self.total_reward_collected <= full && (self.full_reward_collected == (
        self.total_reward_collected == full)) && self.unstake_date == expected_unstake_date
    }
}

impl PartialEq for StakeAccount {
    fn eq(&self, other: &StakeAccount) -> (r: bool) {
        self.staking_token_owner == other.staking_token_owner
            && self.owner_staking_token_account == other.owner_staking_token_account
            && self.owner_reward_token_account == other.owner_reward_token_account
            && self.staking_mint == other.staking_mint && self.created == other.created
            && self.last_reward_collection == other.last_reward_collection
            && self.total_reward_collected == other.total_reward_collected
            && self.unstake_date == other.unstake_date
            && self.staking_period == other.staking_period
            && self.is_one_of_one == other.is_one_of_one
            && self.full_reward_collected == other.full_reward_collected
    }
}

impl Eq for StakeAccount {

}

impl vstd::std_specs::cmp::PartialEqSpecImpl for StakeAccount {
    open spec fn obeys_eq_spec() -> bool {
        true
    }

    open spec fn eq_spec(&self, other: &StakeAccount) -> bool {
        &&& self.staking_token_owner@ == other.staking_token_owner@
        &&& self.owner_staking_token_account@ == other.owner_staking_token_account@
        &&& self.owner_reward_token_account@ == other.owner_reward_token_account@
        &&& self.staking_mint@ == other.staking_mint@
        &&& self.created == other.created
        &&& self.last_reward_collection == other.last_reward_collection
        &&& self.total_reward_collected == other.total_reward_collected
        &&& self.unstake_date == other.unstake_date
        &&& self.staking_period == other.staking_period
        &&& self.is_one_of_one == other.is_one_of_one
        &&& self.full_reward_collected == other.full_reward_collected
    }
}

/// The accrual cap: a well-formed receipt never records more collected reward
/// than the full amount for its tier and uniqueness, whatever sequence of
/// collections produced it.
pub proof fn lemma_cap_invariant(receipt: StakeAccount)
    requires
        receipt.wf(),
    ensures
        receipt.total_reward_collected <= spec_full_amount(
            receipt.staking_period,
            receipt.is_one_of_one,
        ),
{
}

/// Once the full-collection flag is set on a well-formed receipt, the
/// cumulative reward equals the full amount exactly: an escrow that is
/// eligible for release has been paid precisely what it was owed, no more
/// and no less.
pub proof fn lemma_full_collection_is_exact(receipt: StakeAccount)
    requires
        receipt.wf(),
        receipt.full_reward_collected,
    ensures
        receipt.total_reward_collected == spec_full_amount(
            receipt.staking_period,
            receipt.is_one_of_one,
        ),
{
}

} // verus!
