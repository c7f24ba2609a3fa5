//! The reward table: full amounts, accrual periods, per-period rates and lock
//! durations for the three staking tiers.

use vstd::prelude::*;

verus! {

/// Number of asset units locked by every escrow: exactly one.
pub const STAKING_AMOUNT: u64 = 1;

/// Minimum interval, in seconds, between successive reward collections;
/// also the unit of accrual (one period).
pub const MINIMUM_COLLECTION_PERIOD: i64 = 86400;

/// Full reward owed over the short tier, standard assets.
pub const ONE_WEEK_REWARD: u64 = 35;

/// Full reward owed over the medium tier, standard assets.
pub const TWO_WEEK_REWARD: u64 = 98;

/// Full reward owed over the long tier, standard assets.
pub const FOUR_WEEK_REWARD: u64 = 280;

/// Full reward owed over the short tier, one-of-one assets.
pub const ONE_WEEK_REWARD_OOO: u64 = 49;

/// Full reward owed over the medium tier, one-of-one assets.
pub const TWO_WEEK_REWARD_OOO: u64 = 140;

/// Full reward owed over the long tier, one-of-one assets.
pub const FOUR_WEEK_REWARD_OOO: u64 = 420;

/// Lock duration of the short tier: one week in seconds, the span of its 7
/// accrual periods.
pub const STAKING_PERIOD_ONE_WEEK: i64 = 604800;

/// Lock duration of the medium tier: two weeks in seconds, the span of its 14
/// accrual periods.
pub const STAKING_PERIOD_TWO_WEEK: i64 = 1209600;

/// Lock duration of the long tier: four weeks in seconds, the span of its 28
/// accrual periods.
pub const STAKING_PERIOD_FOUR_WEEK: i64 = 2419200;

/// The three valid duration tiers are encoded as 0 (short), 1 (medium),
/// 2 (long); every other value is rejected.
pub open spec fn valid_tier(staking_period: u16) -> bool {
    staking_period <= 2
}

/// The full reward owed for one lock, by tier and uniqueness: the accrual cap.
pub open spec fn spec_full_amount(staking_period: u16, is_one_of_one: bool) -> u64
    recommends
        valid_tier(staking_period),
{
    if is_one_of_one {
        if staking_period == 0 {
            ONE_WEEK_REWARD_OOO
        } else if staking_period == 1 {
            TWO_WEEK_REWARD_OOO
        } else {
            FOUR_WEEK_REWARD_OOO
        }
    } else {
        if staking_period == 0 {
            ONE_WEEK_REWARD
        } else if staking_period == 1 {
            TWO_WEEK_REWARD
        } else {
            FOUR_WEEK_REWARD
        }
    }
}

/// The number of accrual periods a lock of the given tier spans.
pub open spec fn spec_periods_in(staking_period: u16) -> u64
    recommends
        valid_tier(staking_period),
{
    if staking_period == 0 {
        7
    } else if staking_period == 1 {
        14
    } else {
        28
    }
}

/// The per-period reward rate: the full amount divided (rounding down) by the
/// number of periods in the tier.
pub open spec fn spec_reward_rate(staking_period: u16, is_one_of_one: bool) -> u64
    recommends
        valid_tier(staking_period),
{
    spec_full_amount(staking_period, is_one_of_one) / spec_periods_in(staking_period)
}

/// The lock duration of the given tier, in seconds.
pub open spec fn spec_lock_duration(staking_period: u16) -> i64
    recommends
        valid_tier(staking_period),
{
    if staking_period == 0 {
        STAKING_PERIOD_ONE_WEEK
    } else if staking_period == 1 {
        STAKING_PERIOD_TWO_WEEK
    } else {
        STAKING_PERIOD_FOUR_WEEK
    }
}

/// Each tier's lock spans exactly its accrual periods: the lock duration is
/// the tier's period count times the length of one collection period. The
/// release date of a receipt therefore stands one whole accrual schedule
/// after its creation.
pub proof fn lemma_lock_duration_spans_periods()
    ensures
        forall|staking_period: u16|
            valid_tier(staking_period) ==> #[trigger] spec_lock_duration(staking_period)
                == spec_periods_in(staking_period) * MINIMUM_COLLECTION_PERIOD,
{
    assert(7 * 86400 == 604800int) by (nonlinear_arith);
    assert(14 * 86400 == 1209600int) by (nonlinear_arith);
    assert(28 * 86400 == 2419200int) by (nonlinear_arith);
}

/// Looks up the lock duration of the given tier, in seconds.
pub fn lock_duration(staking_period: u16) -> (r: i64)
    requires
        valid_tier(staking_period),
    ensures
        r == spec_lock_duration(staking_period),
{
    if staking_period == 0 {
        STAKING_PERIOD_ONE_WEEK
    } else if staking_period == 1 {
        STAKING_PERIOD_TWO_WEEK
    } else {
        STAKING_PERIOD_FOUR_WEEK
    }
}

/// The per-period rates that the table yields: the floor of each full amount
/// over its tier's period count, for every tier and uniqueness flag.
pub proof fn lemma_reward_rate_table()
    ensures
        spec_reward_rate(0, false) == 5,
        spec_reward_rate(1, false) == 7,
        spec_reward_rate(2, false) == 10,
        spec_reward_rate(0, true) == 7,
        spec_reward_rate(1, true) == 10,
        spec_reward_rate(2, true) == 15,
        forall|staking_period: u16, is_one_of_one: bool|
            valid_tier(staking_period) ==> #[trigger] spec_reward_rate(
                staking_period,
                is_one_of_one,
            ) <= 15,
{
    assert(35u64 / 7u64 == 5u64) by (nonlinear_arith);
    assert(98u64 / 14u64 == 7u64) by (nonlinear_arith);
    assert(280u64 / 28u64 == 10u64) by (nonlinear_arith);
    assert(49u64 / 7u64 == 7u64) by (nonlinear_arith);
    assert(140u64 / 14u64 == 10u64) by (nonlinear_arith);
    assert(420u64 / 28u64 == 15u64) by (nonlinear_arith);
}

/// Looks up the full reward owed for one lock: the fixed table value for the
/// tier and uniqueness flag.
pub fn full_amount(staking_period: u16, is_one_of_one: bool) -> (r: u64)
    requires
        valid_tier(staking_period),
    ensures
        r == spec_full_amount(staking_period, is_one_of_one),
{
    if is_one_of_one {
        if staking_period == 0 {
            ONE_WEEK_REWARD_OOO
        } else if staking_period == 1 {
            TWO_WEEK_REWARD_OOO
        } else {
            FOUR_WEEK_REWARD_OOO
        }
    } else {
        if staking_period == 0 {
            ONE_WEEK_REWARD
        } else if staking_period == 1 {
            TWO_WEEK_REWARD
        } else {
            FOUR_WEEK_REWARD
        }
    }
}

/// Computes the per-period reward rate: the floor of the full amount over the
/// number of periods in the tier.
pub fn reward_rate(staking_period: u16, is_one_of_one: bool) -> (r: u64)
    requires
        valid_tier(staking_period),
    ensures
        r == spec_reward_rate(staking_period, is_one_of_one),
        r == spec_full_amount(staking_period, is_one_of_one) / spec_periods_in(staking_period),
{
    let periods: u64 = if staking_period == 0 {
        7
    } else if staking_period == 1 {
        14
    } else {
        28
    };
    full_amount(staking_period, is_one_of_one) / periods
}

} // verus!
