use staking::{
    collect, collect_full, stake, unstake, AccountId, Collect, CollectFull, Config, ErrorCode,
    Stake, StakeAccount, Unstake, MINIMUM_COLLECTION_PERIOD,
};

fn id(tag: u8) -> AccountId {
    AccountId { bytes: [tag; 32] }
}

fn stake_ctx(balance: u64) -> Stake {
    Stake {
        staking_token_owner: id(1),
        staking_mint: id(4),
        vault_account: id(5),
        owner_staking_token_account: id(2),
        owner_staking_token_amount: balance,
        owner_reward_token_account: id(3),
        staking_account_key: id(6),
        program_id: id(7),
    }
}

fn config() -> Config {
    Config {
        reward_mint_authority: id(8),
        reward_mint: id(9),
    }
}

fn collect_ctx() -> Collect {
    Collect {
        reward_mint_authority: id(8),
        staking_token_owner: id(1),
        owner_staking_token_account: id(2),
        staking_mint: id(4),
        reward_mint: id(9),
        owner_reward_token_account: id(3),
    }
}

fn collect_full_ctx() -> CollectFull {
    CollectFull {
        reward_mint_authority: id(8),
        staking_token_owner: id(1),
        owner_staking_token_account: id(2),
        staking_mint: id(4),
        reward_mint: id(9),
        owner_reward_token_account: id(3),
    }
}

fn unstake_ctx() -> Unstake {
    Unstake {
        staking_token_owner: id(1),
        staking_mint: id(4),
        vault_account: id(5),
        vault_authority: id(10),
        owner_staking_token_account: id(2),
        staking_account_key: id(6),
        program_id: id(7),
    }
}

fn open(staking_period: u16, is_one_of_one: bool, now: i64) -> StakeAccount {
    stake(&stake_ctx(1), staking_period, is_one_of_one, now)
        .unwrap()
        .receipt
}

#[test]
fn stake_initializes_receipt() {
    let now = 1_000_000;
    let outcome = stake(&stake_ctx(1), 0, false, now).unwrap();
    let r = outcome.receipt;
    assert_eq!(r.staking_token_owner, id(1));
    assert_eq!(r.owner_staking_token_account, id(2));
    assert_eq!(r.owner_reward_token_account, id(3));
    assert_eq!(r.staking_mint, id(4));
    assert_eq!(r.created, now);
    assert_eq!(r.last_reward_collection, now);
    assert_eq!(r.total_reward_collected, 0);
    assert_eq!(r.unstake_date, now + 604800);
    assert_eq!(r.staking_period, 0);
    assert!(!r.is_one_of_one);
    assert!(!r.full_reward_collected);
    assert_eq!(outcome.transfer_amount, 1);
    assert!(outcome.vault_authority.is_some());
}

#[test]
fn stake_lock_durations_by_tier() {
    assert_eq!(open(0, false, 500).unstake_date, 500 + 604800);
    assert_eq!(open(1, false, 500).unstake_date, 500 + 1209600);
    assert_eq!(open(2, false, 500).unstake_date, 500 + 2419200);
}

#[test]
fn lock_spans_exactly_the_accrual_periods() {
    // the lock of each tier lasts its period count times one period
    for (tier, periods) in [(0u16, 7i64), (1, 14), (2, 28)] {
        let receipt = open(tier, false, 42);
        assert_eq!(
            receipt.unstake_date - receipt.created,
            periods * MINIMUM_COLLECTION_PERIOD
        );
    }
}

#[test]
fn well_formedness_gate_agrees_with_the_operations() {
    let receipt = open(1, true, 4_000);
    assert!(receipt.is_well_formed());

    // a cumulative total past the cap is malformed
    let overfull = StakeAccount {
        total_reward_collected: 141,
        ..receipt
    };
    assert!(!overfull.is_well_formed());

    // a completion flag that disagrees with the total is malformed
    let lying_flag = StakeAccount {
        full_reward_collected: true,
        ..receipt
    };
    assert!(!lying_flag.is_well_formed());

    // a release date away from creation plus the tier's duration is malformed
    let shifted_date = StakeAccount {
        unstake_date: receipt.unstake_date + 1,
        ..receipt
    };
    assert!(!shifted_date.is_well_formed());
}

#[test]
fn stake_rejects_invalid_tier() {
    assert_eq!(
        stake(&stake_ctx(1), 3, false, 1000).unwrap_err(),
        ErrorCode::InvalidStakingPeriod
    );
    assert_eq!(
        stake(&stake_ctx(1), u16::MAX, true, 1000).unwrap_err(),
        ErrorCode::InvalidStakingPeriod
    );
}

#[test]
fn stake_rejects_wrong_balance() {
    assert_eq!(
        stake(&stake_ctx(0), 0, false, 1000).unwrap_err(),
        ErrorCode::InsufficientBalance
    );
    assert_eq!(
        stake(&stake_ctx(2), 0, false, 1000).unwrap_err(),
        ErrorCode::InsufficientBalance
    );
}

#[test]
fn scenario_short_standard_partial_collections() {
    // short tier, standard table: full 35, 7 periods, rate 5
    let t0 = 1_000;
    let mut receipt = open(0, false, t0);
    let cfg = config();
    let ctx = collect_ctx();

    // after exactly 3 full periods: 3 * 5 = 15
    let t1 = t0 + 3 * MINIMUM_COLLECTION_PERIOD;
    assert_eq!(collect(&ctx, &mut receipt, &cfg, t1), Ok(15));
    assert_eq!(receipt.total_reward_collected, 15);
    assert_eq!(receipt.last_reward_collection, t1);
    assert!(!receipt.full_reward_collected);

    // after 7 periods in total: the remaining 20, cumulative 35, flag set
    let t2 = t0 + 7 * MINIMUM_COLLECTION_PERIOD;
    assert_eq!(collect(&ctx, &mut receipt, &cfg, t2), Ok(20));
    assert_eq!(receipt.total_reward_collected, 35);
    assert!(receipt.full_reward_collected);

    // any further collection fails
    let t3 = t2 + MINIMUM_COLLECTION_PERIOD;
    assert_eq!(
        collect(&ctx, &mut receipt, &cfg, t3),
        Err(ErrorCode::FullRewardAlreadyCollected)
    );
    assert_eq!(receipt.total_reward_collected, 35);
    assert_eq!(receipt.last_reward_collection, t2);
}

#[test]
fn scenario_long_one_of_one_final_collect() {
    // long tier, one-of-one table: full 420, 28 periods, rate 15
    let t0 = 5_000;
    let mut receipt = open(2, true, t0);
    let cfg = config();
    let before = receipt;

    // immediately after lock expiry, with zero prior collections: exactly 420
    let expiry = receipt.unstake_date;
    assert_eq!(
        collect_full(&collect_full_ctx(), &mut receipt, &cfg, expiry),
        Ok(420)
    );
    assert_eq!(receipt.total_reward_collected, 420);
    assert!(receipt.full_reward_collected);
    assert_eq!(receipt.last_reward_collection, expiry);
    assert_eq!(receipt.created, before.created);
    assert_eq!(receipt.unstake_date, before.unstake_date);
}

#[test]
fn scenario_release_before_expiry_changes_nothing() {
    let t0 = 9_000;
    let receipt = open(0, false, t0);
    let before = receipt;

    // lock not expired: release refused whatever the collection state
    let r = unstake(&unstake_ctx(), &receipt, receipt.unstake_date - 1);
    assert_eq!(r.unwrap_err(), ErrorCode::TooEarlyToUnstake);
    assert_eq!(receipt, before);

    // the same holds on a receipt whose full reward was already collected
    let full = StakeAccount {
        total_reward_collected: 35,
        full_reward_collected: true,
        ..receipt
    };
    let r = unstake(&unstake_ctx(), &full, full.unstake_date - 1);
    assert_eq!(r.unwrap_err(), ErrorCode::TooEarlyToUnstake);
}

#[test]
fn release_requires_full_collection_even_after_expiry() {
    let t0 = 9_000;
    let receipt = open(0, false, t0);
    // lock expired, but the reward was never fully collected
    let r = unstake(&unstake_ctx(), &receipt, receipt.unstake_date);
    assert_eq!(r.unwrap_err(), ErrorCode::FullRewardNotCollected);
}

#[test]
fn release_succeeds_after_final_collection() {
    let t0 = 9_000;
    let mut receipt = open(1, false, t0);
    let cfg = config();
    let expiry = receipt.unstake_date;
    collect_full(&collect_full_ctx(), &mut receipt, &cfg, expiry).unwrap();
    let outcome = unstake(&unstake_ctx(), &receipt, expiry).unwrap();
    assert_eq!(outcome.transfer_amount, 1);
    assert!(outcome.vault_authority.is_some());
}

#[test]
fn collect_too_soon_fails() {
    let t0 = 2_000;
    let mut receipt = open(0, false, t0);
    let cfg = config();
    let r = collect(
        &collect_ctx(),
        &mut receipt,
        &cfg,
        t0 + MINIMUM_COLLECTION_PERIOD - 1,
    );
    assert_eq!(r.unwrap_err(), ErrorCode::NotEnoughElapsedSinceLastCollection);
    assert_eq!(receipt, open(0, false, t0));
}

#[test]
fn collect_counts_only_whole_periods() {
    let t0 = 10_000;
    let cfg = config();

    // two and a half periods accrue exactly two periods' worth
    let mut receipt = open(0, false, t0);
    let halfway = t0 + 2 * MINIMUM_COLLECTION_PERIOD + MINIMUM_COLLECTION_PERIOD / 2;
    assert_eq!(collect(&collect_ctx(), &mut receipt, &cfg, halfway), Ok(10));

    // exactly one period is the earliest a collection succeeds
    let mut receipt = open(0, false, t0);
    let boundary = t0 + MINIMUM_COLLECTION_PERIOD;
    assert_eq!(collect(&collect_ctx(), &mut receipt, &cfg, boundary), Ok(5));
}

#[test]
fn collect_clamps_to_cap() {
    // 100 periods elapsed would accrue 500, but only the cap of 35 is owed
    let t0 = 3_000;
    let mut receipt = open(0, false, t0);
    let cfg = config();
    let r = collect(
        &collect_ctx(),
        &mut receipt,
        &cfg,
        t0 + 100 * MINIMUM_COLLECTION_PERIOD,
    );
    assert_eq!(r, Ok(35));
    assert_eq!(receipt.total_reward_collected, 35);
    assert!(receipt.full_reward_collected);
}

#[test]
fn partial_then_final_collection_adds_up() {
    // medium tier, one-of-one: full 140, rate 10
    let t0 = 4_000;
    let mut receipt = open(1, true, t0);
    let cfg = config();
    let t1 = t0 + 2 * MINIMUM_COLLECTION_PERIOD;
    assert_eq!(collect(&collect_ctx(), &mut receipt, &cfg, t1), Ok(20));
    let expiry = receipt.unstake_date;
    assert_eq!(
        collect_full(&collect_full_ctx(), &mut receipt, &cfg, expiry),
        Ok(120)
    );
    assert_eq!(receipt.total_reward_collected, 140);
    assert!(receipt.full_reward_collected);
}

#[test]
fn collect_full_too_early_fails() {
    let t0 = 6_000;
    let mut receipt = open(2, false, t0);
    let cfg = config();
    let too_early = receipt.unstake_date - 1;
    let r = collect_full(&collect_full_ctx(), &mut receipt, &cfg, too_early);
    assert_eq!(r.unwrap_err(), ErrorCode::TooEarlyToUnstake);
    assert_eq!(receipt, open(2, false, t0));
}

#[test]
fn collect_full_twice_fails() {
    let t0 = 6_000;
    let mut receipt = open(2, false, t0);
    let cfg = config();
    let expiry = receipt.unstake_date;
    collect_full(&collect_full_ctx(), &mut receipt, &cfg, expiry).unwrap();
    let r = collect_full(&collect_full_ctx(), &mut receipt, &cfg, expiry + 1);
    assert_eq!(r.unwrap_err(), ErrorCode::FullRewardAlreadyCollected);
}

#[test]
fn collect_rejects_account_reference_mismatch() {
    let t0 = 7_000;
    let mut receipt = open(0, false, t0);
    let cfg = config();
    let mut ctx = collect_ctx();
    ctx.staking_token_owner = id(42);
    let r = collect(&ctx, &mut receipt, &cfg, t0 + MINIMUM_COLLECTION_PERIOD);
    assert_eq!(r.unwrap_err(), ErrorCode::AccountReferenceMismatch);
    assert_eq!(receipt, open(0, false, t0));
}

#[test]
fn collect_rejects_asset_identity_mismatch() {
    let t0 = 7_000;
    let mut receipt = open(0, false, t0);
    let cfg = config();
    let mut ctx = collect_ctx();
    ctx.reward_mint = id(42);
    let r = collect(&ctx, &mut receipt, &cfg, t0 + MINIMUM_COLLECTION_PERIOD);
    assert_eq!(r.unwrap_err(), ErrorCode::AssetIdentityMismatch);
}

#[test]
fn account_checks_precede_asset_checks() {
    let t0 = 7_000;
    let mut receipt = open(0, false, t0);
    let cfg = config();
    let mut ctx = collect_ctx();
    ctx.staking_token_owner = id(42);
    ctx.reward_mint = id(43);
    let r = collect(&ctx, &mut receipt, &cfg, t0 + MINIMUM_COLLECTION_PERIOD);
    assert_eq!(r.unwrap_err(), ErrorCode::AccountReferenceMismatch);
}

#[test]
fn unstake_rejects_reference_and_asset_mismatch() {
    let t0 = 8_000;
    let receipt = open(0, false, t0);
    let expiry = receipt.unstake_date;
    let mut ctx = unstake_ctx();
    ctx.owner_staking_token_account = id(42);
    assert_eq!(
        unstake(&ctx, &receipt, expiry).unwrap_err(),
        ErrorCode::AccountReferenceMismatch
    );
    let mut ctx = unstake_ctx();
    ctx.staking_mint = id(42);
    assert_eq!(
        unstake(&ctx, &receipt, expiry).unwrap_err(),
        ErrorCode::AssetIdentityMismatch
    );
}
