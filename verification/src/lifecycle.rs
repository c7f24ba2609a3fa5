//! The lifecycle state machine: the four public operations on an escrow.
//!
//! `stake` opens an escrow, `collect` issues the rewards accrued since the
//! last collection, `collect_full` issues the whole remainder once the lock
//! has expired, and `unstake` gates the release of the escrowed asset.
//!
//! Every operation validates the caller-supplied account references against
//! the receipt and the configured identities before anything else, reads the
//! current time once (the `now` argument), and either passes every check and
//! commits its whole effect, or fails with a specific error and changes
//! nothing. The actual movement of units — transfers, minting, account
//! closure — is carried out by the caller from the amounts and authorities
//! these functions return.

use vstd::prelude::*;

use crate::authority::{vault_authority, vault_authority_of, VaultAuthority};
use crate::errors::ErrorCode;
use crate::ids::AccountId;
use crate::receipt::StakeAccount;
use crate::rewards::{
    full_amount, reward_rate, spec_lock_duration, spec_reward_rate, valid_tier,
    MINIMUM_COLLECTION_PERIOD, STAKING_AMOUNT, STAKING_PERIOD_FOUR_WEEK, STAKING_PERIOD_ONE_WEEK,
    STAKING_PERIOD_TWO_WEEK,
};

verus! {

/// The configured identities privileged to issue rewards: the reward asset
/// and its issuance authority. Injected by the caller at each operation
/// rather than baked into the logic.
#[derive(Clone, Copy, Debug)]
pub struct Config {
    /// The identity that alone may authorize reward issuance.
    pub reward_mint_authority: AccountId,
    /// The identity of the reward asset.
    pub reward_mint: AccountId,
}

/// The accounts named by a `stake` operation, as plain identities and values.
#[derive(Clone, Copy, Debug)]
pub struct Stake {
    /// The owner opening the escrow.
    pub staking_token_owner: AccountId,
    /// The identity of the asset being locked.
    pub staking_mint: AccountId,
    /// The new escrow vault that will hold the locked unit.
    pub vault_account: AccountId,
    /// The owner's holding of the asset, the source of the locked unit.
    pub owner_staking_token_account: AccountId,
    /// How many units that holding contains; must be exactly one.
    pub owner_staking_token_amount: u64,
    /// The owner's holding of the reward asset.
    pub owner_reward_token_account: AccountId,
    /// The address of the new receipt record.
    pub staking_account_key: AccountId,
    /// The id of the program deriving the custody authority.
    pub program_id: AccountId,
}

/// The accounts named by a `collect` operation.
#[derive(Clone, Copy, Debug)]
pub struct Collect {
    /// The privileged reward-issuance authority presented by the caller.
    pub reward_mint_authority: AccountId,
    /// The owner collecting rewards.
    pub staking_token_owner: AccountId,
    /// The owner's holding of the staked asset.
    pub owner_staking_token_account: AccountId,
    /// The identity of the staked asset.
    pub staking_mint: AccountId,
    /// The reward asset presented by the caller.
    pub reward_mint: AccountId,
    /// The owner's holding of the reward asset, where rewards are issued.
    pub owner_reward_token_account: AccountId,
}

/// The accounts named by a `collect_full` operation; the same shape as
/// [`Collect`].
#[derive(Clone, Copy, Debug)]
pub struct CollectFull {
    /// The privileged reward-issuance authority presented by the caller.
    pub reward_mint_authority: AccountId,
    /// The owner collecting the remainder of the reward.
    pub staking_token_owner: AccountId,
    /// The owner's holding of the staked asset.
    pub owner_staking_token_account: AccountId,
    /// The identity of the staked asset.
    pub staking_mint: AccountId,
    /// The reward asset presented by the caller.
    pub reward_mint: AccountId,
    /// The owner's holding of the reward asset, where rewards are issued.
    pub owner_reward_token_account: AccountId,
}

/// The accounts named by an `unstake` operation.
#[derive(Clone, Copy, Debug)]
pub struct Unstake {
    /// The owner taking the asset back.
    pub staking_token_owner: AccountId,
    /// The identity of the staked asset.
    pub staking_mint: AccountId,
    /// The escrow vault holding the locked unit; closed on success.
    pub vault_account: AccountId,
    /// The custody authority as computed by the caller; the operation
    /// reconstructs its own and returns it.
    pub vault_authority: AccountId,
    /// The owner's holding of the staked asset, the destination of the
    /// released unit.
    pub owner_staking_token_account: AccountId,
    /// The address of the receipt record, a seed of the custody derivation.
    pub staking_account_key: AccountId,
    /// The id of the program deriving the custody authority.
    pub program_id: AccountId,
}

/// Everything `stake` commits on success: the new receipt, the custody
/// authority the vault must be reassigned to, and the number of units to
/// move into the vault.
#[derive(Clone, Copy, Debug)]
pub struct StakeOutcome {
    /// The new receipt, fully initialized.
    pub receipt: StakeAccount,
    /// The derived custody authority for the new vault, if the derivation
    /// found a bump seed.
    pub vault_authority: Option<VaultAuthority>,
    /// The number of units to move from the owner's holding into the vault.
    pub transfer_amount: u64,
}

/// Everything `unstake` authorizes on success: the custody authority that
/// signs the release, and the number of units to move back to the owner.
#[derive(Clone, Copy, Debug)]
pub struct UnstakeOutcome {
    /// The reconstructed custody authority of the vault, if the derivation
    /// found a bump seed.
    pub vault_authority: Option<VaultAuthority>,
    /// The number of units to move from the vault back to the owner.
    pub transfer_amount: u64,
}

/// The caller-supplied account references of a collection match the ones
/// stored in the receipt.
pub open spec fn collect_refs_ok(ctx: Collect, receipt: StakeAccount) -> bool {
    &&& ctx.staking_token_owner@ == receipt.staking_token_owner@
    &&& ctx.owner_staking_token_account@ == receipt.owner_staking_token_account@
    &&& ctx.owner_reward_token_account@ == receipt.owner_reward_token_account@
}

/// The caller-supplied asset identities of a collection match the receipt's
/// staked asset and the configured reward asset and issuance authority.
pub open spec fn collect_assets_ok(ctx: Collect, receipt: StakeAccount, config: Config) -> bool {
    &&& ctx.staking_mint@ == receipt.staking_mint@
    &&& ctx.reward_mint@ == config.reward_mint@
    &&& ctx.reward_mint_authority@ == config.reward_mint_authority@
}

/// Every cross-cutting reference check of a collection.
pub open spec fn collect_accounts_ok(ctx: Collect, receipt: StakeAccount, config: Config) -> bool {
    collect_refs_ok(ctx, receipt) && collect_assets_ok(ctx, receipt, config)
}

/// The caller-supplied account references of a release match the receipt.
pub open spec fn unstake_refs_ok(ctx: Unstake, receipt: StakeAccount) -> bool {
    &&& ctx.staking_token_owner@ == receipt.staking_token_owner@
    &&& ctx.owner_staking_token_account@ == receipt.owner_staking_token_account@
}

/// The caller-supplied asset identity of a release matches the receipt.
pub open spec fn unstake_assets_ok(ctx: Unstake, receipt: StakeAccount) -> bool {
    ctx.staking_mint@ == receipt.staking_mint@
}

/// The number of whole collection periods contained in `elapsed` seconds.
pub open spec fn spec_whole_periods(elapsed: int) -> int {
    elapsed / (MINIMUM_COLLECTION_PERIOD as int)
}

/// The reward accrued over `elapsed` seconds, before clamping: the per-period
/// rate times the number of whole periods elapsed.
pub open spec fn spec_accrued_amount(
    staking_period: u16,
    is_one_of_one: bool,
    elapsed: int,
) -> int {
    spec_reward_rate(staking_period, is_one_of_one) * spec_whole_periods(elapsed)
}

/// The amount a `collect` at time `now` issues: the accrued reward, clamped
/// so that the cumulative total never exceeds the receipt's cap.
pub open spec fn spec_collect_amount(receipt: StakeAccount, now: int) -> int {
    let accrued = spec_accrued_amount(
        receipt.staking_period,
        receipt.is_one_of_one,
        now - receipt.last_reward_collection,
    );
    let remaining = receipt.spec_cap() - receipt.total_reward_collected;
    if accrued > remaining {
        remaining
    } else {
        accrued
    }
}

/// A `collect` at time `now` passes every precondition.
pub open spec fn collect_allowed(
    ctx: Collect,
    receipt: StakeAccount,
    config: Config,
    now: int,
) -> bool {
    &&& collect_accounts_ok(ctx, receipt, config)
    &&& now - receipt.last_reward_collection >= MINIMUM_COLLECTION_PERIOD
    &&& !receipt.full_reward_collected
    &&& valid_tier(receipt.staking_period)
}

/// A `collect_full` at time `now` passes every precondition.
pub open spec fn collect_full_allowed(
    ctx: CollectFull,
    receipt: StakeAccount,
    config: Config,
    now: int,
) -> bool {
    &&& collect_accounts_ok(ctx.spec_as_collect(), receipt, config)
    &&& now >= receipt.unstake_date
    &&& !receipt.full_reward_collected
    &&& valid_tier(receipt.staking_period)
}

/// An `unstake` at time `now` passes every precondition.
pub open spec fn unstake_allowed(ctx: Unstake, receipt: StakeAccount, now: int) -> bool {
    &&& unstake_refs_ok(ctx, receipt)
    &&& unstake_assets_ok(ctx, receipt)
    &&& now >= receipt.unstake_date
    &&& receipt.full_reward_collected
}

/// Once the full reward has been issued, no further collection is ever
/// allowed, whatever accounts are presented and however much time passes:
/// together with [`collect`]'s contract, a collection on a fully collected
/// receipt with matching references fails with the full reward already
/// collected, and the receipt stays as it is.
pub proof fn lemma_collect_blocked_once_full(
    ctx: Collect,
    receipt: StakeAccount,
    config: Config,
    now: int,
)
    requires
        receipt.full_reward_collected,
    ensures
        !collect_allowed(ctx, receipt, config, now),
{
}

/// Before the release date, no release is ever allowed, whatever the
/// collection state: together with [`unstake`]'s contract, an early release
/// with matching references fails as too early, and nothing moves.
pub proof fn lemma_release_blocked_before_expiry(ctx: Unstake, receipt: StakeAccount, now: int)
    requires
        now < receipt.unstake_date,
    ensures
        !unstake_allowed(ctx, receipt, now),
{
}

/// Release gating: an `unstake` can only be allowed at or after the
/// receipt's release date and with the full-collection flag set — and on a
/// well-formed receipt that flag in turn means the cumulative reward equals
/// the cap exactly. Release therefore never precedes a completed final
/// collection.
pub proof fn lemma_release_requires_full_collection(
    ctx: Unstake,
    receipt: StakeAccount,
    now: int,
)
    requires
        receipt.wf(),
        unstake_allowed(ctx, receipt, now),
    ensures
        now >= receipt.unstake_date,
        receipt.full_reward_collected,
        receipt.total_reward_collected == receipt.spec_cap(),
{
}

impl CollectFull {
    /// The same account set, seen as a [`Collect`]: the two collection
    /// operations share one validation step.
    pub open spec fn spec_as_collect(self) -> Collect {
        Collect {
            reward_mint_authority: self.reward_mint_authority,
            staking_token_owner: self.staking_token_owner,
            owner_staking_token_account: self.owner_staking_token_account,
            staking_mint: self.staking_mint,
            reward_mint: self.reward_mint,
            owner_reward_token_account: self.owner_reward_token_account,
        }
    }

    /// Repacks the account set as a [`Collect`] for the shared validation.
    pub fn as_collect(&self) -> (r: Collect)
        ensures
            r == self.spec_as_collect(),
    {
        Collect {
            reward_mint_authority: self.reward_mint_authority,
            staking_token_owner: self.staking_token_owner,
            owner_staking_token_account: self.owner_staking_token_account,
            staking_mint: self.staking_mint,
            reward_mint: self.reward_mint,
            owner_reward_token_account: self.owner_reward_token_account,
        }
    }
}

/// The single reusable validation step of the collection operations: checks
/// every caller-supplied reference against the receipt and the configured
/// identities, account references first, asset identities second.
pub fn validate_collect(ctx: &Collect, receipt: &StakeAccount, config: &Config) -> (r: Result<
    (),
    ErrorCode,
>)
    ensures
        r is Ok <==> collect_accounts_ok(*ctx, *receipt, *config),
        (r matches Err(e) && e == ErrorCode::AccountReferenceMismatch) <==> !collect_refs_ok(
            *ctx,
            *receipt,
        ),
        (r matches Err(e) && e == ErrorCode::AssetIdentityMismatch) <==> (collect_refs_ok(
            *ctx,
            *receipt,
        ) && !collect_assets_ok(*ctx, *receipt, *config)),
{
    if !(ctx.staking_token_owner == receipt.staking_token_owner
        && ctx.owner_staking_token_account == receipt.owner_staking_token_account
        && ctx.owner_reward_token_account == receipt.owner_reward_token_account) {
        return Err(ErrorCode::AccountReferenceMismatch);
    }
    if !(ctx.staking_mint == receipt.staking_mint && ctx.reward_mint == config.reward_mint
        && ctx.reward_mint_authority == config.reward_mint_authority) {
        return Err(ErrorCode::AssetIdentityMismatch);
    }
    Ok(())
}

/// The validation step of the release operation: checks the caller-supplied
/// owner and holding against the receipt, then the asset identity.
pub fn validate_unstake(ctx: &Unstake, receipt: &StakeAccount) -> (r: Result<(), ErrorCode>)
    ensures
        r is Ok <==> unstake_refs_ok(*ctx, *receipt) && unstake_assets_ok(*ctx, *receipt),
        (r matches Err(e) && e == ErrorCode::AccountReferenceMismatch) <==> !unstake_refs_ok(
            *ctx,
            *receipt,
        ),
        (r matches Err(e) && e == ErrorCode::AssetIdentityMismatch) <==> (unstake_refs_ok(
            *ctx,
            *receipt,
        ) && !unstake_assets_ok(*ctx, *receipt)),
{
    if !(ctx.staking_token_owner == receipt.staking_token_owner
        && ctx.owner_staking_token_account == receipt.owner_staking_token_account) {
        return Err(ErrorCode::AccountReferenceMismatch);
    }
    if !(ctx.staking_mint == receipt.staking_mint) {
        return Err(ErrorCode::AssetIdentityMismatch);
    }
    Ok(())
}

/// Opens an escrow: locks one unit of the asset for the chosen duration tier.
///
/// Rejects a tier outside the three valid tiers, and an owner holding that
/// does not contain exactly one unit. On success, returns the fully
/// initialized receipt — created and last-collection timestamps set to
/// `now`, nothing collected yet, release date `now` plus the tier's lock
/// duration — together with the derived custody authority the vault must be
/// reassigned to, and the single unit to transfer into it. On failure,
/// nothing is to be committed.
pub fn stake(ctx: &Stake, staking_period: u16, is_one_of_one: bool, now: i64) -> (r: Result<
    StakeOutcome,
    ErrorCode,
>)
    requires
        0 <= now,
        now + spec_lock_duration(staking_period) <= i64::MAX,
    ensures
        r is Ok <==> valid_tier(staking_period) && ctx.owner_staking_token_amount
            == STAKING_AMOUNT,
        (r matches Err(e) && e == ErrorCode::InvalidStakingPeriod) <==> !valid_tier(
            staking_period,
        ),
        (r matches Err(e) && e == ErrorCode::InsufficientBalance) <==> (valid_tier(staking_period)
            && ctx.owner_staking_token_amount != STAKING_AMOUNT),
        r matches Ok(o) ==> ({
            &&& o.receipt == (StakeAccount {
                staking_token_owner: ctx.staking_token_owner,
                owner_staking_token_account: ctx.owner_staking_token_account,
                owner_reward_token_account: ctx.owner_reward_token_account,
                staking_mint: ctx.staking_mint,
                created: now,
                last_reward_collection: now,
                total_reward_collected: 0u64,
                unstake_date: (now + spec_lock_duration(staking_period)) as i64,
                staking_period: staking_period,
                is_one_of_one: is_one_of_one,
                full_reward_collected: false,
            })
            &&& o.receipt.wf()
            &&& o.transfer_amount == STAKING_AMOUNT
            &&& (o.vault_authority matches Some(v) ==> vault_authority_of(
                ctx.staking_account_key@,
                ctx.staking_mint@,
                ctx.program_id@,
            ) == Some((v.key@, v.bump)))
            &&& (o.vault_authority is None ==> vault_authority_of(
                ctx.staking_account_key@,
                ctx.staking_mint@,
                ctx.program_id@,
            ) is None)
        }),
{
    if staking_period > 2 {
        return Err(ErrorCode::InvalidStakingPeriod);
    }
    if ctx.owner_staking_token_amount != STAKING_AMOUNT {
        return Err(ErrorCode::InsufficientBalance);
    }
    let duration: i64 = if staking_period == 0 {
        STAKING_PERIOD_ONE_WEEK
    } else if staking_period == 1 {
        STAKING_PERIOD_TWO_WEEK
    } else {
        STAKING_PERIOD_FOUR_WEEK
    };
    let receipt = StakeAccount {
        staking_token_owner: ctx.staking_token_owner,
        owner_staking_token_account: ctx.owner_staking_token_account,
        owner_reward_token_account: ctx.owner_reward_token_account,
        staking_mint: ctx.staking_mint,
        created: now,
        last_reward_collection: now,
        total_reward_collected: 0,
        unstake_date: now + duration,
        staking_period,
        is_one_of_one,
        full_reward_collected: false,
    };
    let authority = vault_authority(&ctx.staking_account_key, &ctx.staking_mint, &ctx.program_id);
    Ok(StakeOutcome { receipt, vault_authority: authority, transfer_amount: STAKING_AMOUNT })
}

/// Issues the rewards accrued since the last collection.
///
/// After validating every account reference, requires at least one whole
/// collection period to have elapsed, the full reward not to have been
/// issued yet, and a valid tier. The amount issued is the per-period rate
/// times the number of whole periods elapsed, clamped so the cumulative
/// total never exceeds the cap; the receipt's total and last-collection
/// timestamp advance accordingly, and the full-collection flag is set
/// exactly when the cap is reached. On failure the receipt is unchanged.
pub fn collect(ctx: &Collect, receipt: &mut StakeAccount, config: &Config, now: i64) -> (r: Result<
    u64,
    ErrorCode,
>)
    requires
        old(receipt).wf(),
        0 <= now,
    ensures
        r is Err ==> *final(receipt) == *old(receipt),
        r is Ok <==> collect_allowed(*ctx, *old(receipt), *config, now as int),
        (r matches Err(e) && e == ErrorCode::AccountReferenceMismatch) <==> !collect_refs_ok(
            *ctx,
            *old(receipt),
        ),
        (r matches Err(e) && e == ErrorCode::AssetIdentityMismatch) <==> (collect_refs_ok(
            *ctx,
            *old(receipt),
        ) && !collect_assets_ok(*ctx, *old(receipt), *config)),
        (r matches Err(e) && e == ErrorCode::NotEnoughElapsedSinceLastCollection) <==> (
        collect_accounts_ok(*ctx, *old(receipt), *config) && now - old(
            receipt,
        ).last_reward_collection < MINIMUM_COLLECTION_PERIOD),
        (r matches Err(e) && e == ErrorCode::FullRewardAlreadyCollected) <==> (collect_accounts_ok(
            *ctx,
            *old(receipt),
            *config,
        ) && now - old(receipt).last_reward_collection >= MINIMUM_COLLECTION_PERIOD && old(
            receipt,
        ).full_reward_collected),
        (r matches Err(e) && e == ErrorCode::InvalidStakingPeriod) <==> (collect_accounts_ok(
            *ctx,
            *old(receipt),
            *config,
        ) && now - old(receipt).last_reward_collection >= MINIMUM_COLLECTION_PERIOD && !old(
            receipt,
        ).full_reward_collected && !valid_tier(old(receipt).staking_period)),
        r matches Ok(amount) ==> ({
            &&& amount == spec_collect_amount(*old(receipt), now as int)
            &&& *final(receipt) == (StakeAccount {
                last_reward_collection: now,
                total_reward_collected: (old(receipt).total_reward_collected + amount) as u64,
                full_reward_collected: old(receipt).total_reward_collected + amount == old(
                    receipt,
                ).spec_cap(),
                ..*old(receipt)
            })
            &&& final(receipt).wf()
            &&& old(receipt).total_reward_collected <= final(receipt).total_reward_collected
                <= old(receipt).spec_cap()
        }),
{
    match validate_collect(ctx, receipt, config) {
        Err(e) => {
            return Err(e);
        },
        Ok(()) => {},
    }
    let elapsed: i64 = now - receipt.last_reward_collection;
    if elapsed < MINIMUM_COLLECTION_PERIOD {
        return Err(ErrorCode::NotEnoughElapsedSinceLastCollection);
    }
    if receipt.full_reward_collected {
        return Err(ErrorCode::FullRewardAlreadyCollected);
    }
    if receipt.staking_period > 2 {
        return Err(ErrorCode::InvalidStakingPeriod);
    }
    let days: u64 = (elapsed as u64) / (MINIMUM_COLLECTION_PERIOD as u64);
    let rate: u64 = reward_rate(receipt.staking_period, receipt.is_one_of_one);
    let full: u64 = full_amount(receipt.staking_period, receipt.is_one_of_one);
    proof {
        vstd::arithmetic::div_mod::lemma_div_is_ordered(
            elapsed as int,
            i64::MAX as int,
            MINIMUM_COLLECTION_PERIOD as int,
        );
        assert(days <= i64::MAX as int / MINIMUM_COLLECTION_PERIOD as int);
        crate::rewards::lemma_reward_rate_table();
        assert(rate <= 15);
        assert(rate * days <= 15 * (i64::MAX as int / MINIMUM_COLLECTION_PERIOD as int))
            by (nonlinear_arith)
            requires
                rate <= 15,
                days <= i64::MAX as int / MINIMUM_COLLECTION_PERIOD as int,
                0 <= days,
        ;
    }
    let accrued: u64 = rate * days;
    let remaining: u64 = full - receipt.total_reward_collected;
    let amount: u64 = if accrued > remaining {
        remaining
    } else {
        accrued
    };
    receipt.total_reward_collected = receipt.total_reward_collected + amount;
    receipt.last_reward_collection = now;
    if receipt.total_reward_collected >= full {
        receipt.full_reward_collected = true;
    }
    Ok(amount)
}

/// Issues the whole remainder of the reward, once the lock has expired.
///
/// Callable at any time at or after the receipt's release date, whatever
/// rewards were collected along the way, and exactly once: a second call
/// fails with the full reward already collected. The amount issued is the
/// cap minus the total collected so far; afterwards the total equals the cap
/// exactly and the full-collection flag is set. On failure the receipt is
/// unchanged.
pub fn collect_full(
    ctx: &CollectFull,
    receipt: &mut StakeAccount,
    config: &Config,
    now: i64,
) -> (r: Result<u64, ErrorCode>)
    requires
        old(receipt).wf(),
        0 <= now,
    ensures
        r is Err ==> *final(receipt) == *old(receipt),
        r is Ok <==> collect_full_allowed(*ctx, *old(receipt), *config, now as int),
        (r matches Err(e) && e == ErrorCode::AccountReferenceMismatch) <==> !collect_refs_ok(
            ctx.spec_as_collect(),
            *old(receipt),
        ),
        (r matches Err(e) && e == ErrorCode::AssetIdentityMismatch) <==> (collect_refs_ok(
            ctx.spec_as_collect(),
            *old(receipt),
        ) && !collect_assets_ok(ctx.spec_as_collect(), *old(receipt), *config)),
        (r matches Err(e) && e == ErrorCode::TooEarlyToUnstake) <==> (collect_accounts_ok(
            ctx.spec_as_collect(),
            *old(receipt),
            *config,
        ) && now < old(receipt).unstake_date),
        (r matches Err(e) && e == ErrorCode::FullRewardAlreadyCollected) <==> (collect_accounts_ok(
            ctx.spec_as_collect(),
            *old(receipt),
            *config,
        ) && now >= old(receipt).unstake_date && old(receipt).full_reward_collected),
        (r matches Err(e) && e == ErrorCode::InvalidStakingPeriod) <==> (collect_accounts_ok(
            ctx.spec_as_collect(),
            *old(receipt),
            *config,
        ) && now >= old(receipt).unstake_date && !old(receipt).full_reward_collected
            && !valid_tier(old(receipt).staking_period)),
        r matches Ok(amount) ==> ({
            &&& amount == old(receipt).spec_cap() - old(receipt).total_reward_collected
            &&& *final(receipt) == (StakeAccount {
                last_reward_collection: now,
                total_reward_collected: old(receipt).spec_cap(),
                full_reward_collected: true,
                ..*old(receipt)
            })
            &&& final(receipt).wf()
        }),
{
    let collect_ctx = ctx.as_collect();
    match validate_collect(&collect_ctx, receipt, config) {
        Err(e) => {
            return Err(e);
        },
        Ok(()) => {},
    }
    if receipt.unstake_date > now {
        return Err(ErrorCode::TooEarlyToUnstake);
    }
    if receipt.full_reward_collected {
        return Err(ErrorCode::FullRewardAlreadyCollected);
    }
    if receipt.staking_period > 2 {
        return Err(ErrorCode::InvalidStakingPeriod);
    }
    let full: u64 = full_amount(receipt.staking_period, receipt.is_one_of_one);
    if receipt.total_reward_collected >= full {
        return Err(ErrorCode::FullRewardAlreadyCollected);
    }
    let amount: u64 = full - receipt.total_reward_collected;
    receipt.total_reward_collected = receipt.total_reward_collected + amount;
    receipt.full_reward_collected = true;
    receipt.last_reward_collection = now;
    Ok(amount)
}

/// Gates the release of the escrowed asset back to its owner.
///
/// Succeeds only at or after the receipt's release date, and only once the
/// full reward has been issued — release never precedes full collection. On
/// success, returns the reconstructed custody authority under which the
/// caller moves the one escrowed unit back to the owner and closes the
/// vault, destroying the receipt with it. On failure nothing moves and the
/// receipt is untouched.
pub fn unstake(ctx: &Unstake, receipt: &StakeAccount, now: i64) -> (r: Result<
    UnstakeOutcome,
    ErrorCode,
>)
    requires
        receipt.wf(),
        0 <= now,
    ensures
        r is Ok <==> unstake_allowed(*ctx, *receipt, now as int),
        (r matches Err(e) && e == ErrorCode::AccountReferenceMismatch) <==> !unstake_refs_ok(
            *ctx,
            *receipt,
        ),
        (r matches Err(e) && e == ErrorCode::AssetIdentityMismatch) <==> (unstake_refs_ok(
            *ctx,
            *receipt,
        ) && !unstake_assets_ok(*ctx, *receipt)),
        (r matches Err(e) && e == ErrorCode::TooEarlyToUnstake) <==> (unstake_refs_ok(
            *ctx,
            *receipt,
        ) && unstake_assets_ok(*ctx, *receipt) && now < receipt.unstake_date),
        (r matches Err(e) && e == ErrorCode::FullRewardNotCollected) <==> (unstake_refs_ok(
            *ctx,
            *receipt,
        ) && unstake_assets_ok(*ctx, *receipt) && now >= receipt.unstake_date
            && !receipt.full_reward_collected),
        r matches Ok(o) ==> ({
            &&& o.transfer_amount == STAKING_AMOUNT
            &&& (o.vault_authority matches Some(v) ==> vault_authority_of(
                ctx.staking_account_key@,
                ctx.staking_mint@,
                ctx.program_id@,
            ) == Some((v.key@, v.bump)))
            &&& (o.vault_authority is None ==> vault_authority_of(
                ctx.staking_account_key@,
                ctx.staking_mint@,
                ctx.program_id@,
            ) is None)
        }),
{
    match validate_unstake(ctx, receipt) {
        Err(e) => {
            return Err(e);
        },
        Ok(()) => {},
    }
    if receipt.unstake_date > now {
        return Err(ErrorCode::TooEarlyToUnstake);
    }
    if !receipt.full_reward_collected {
        return Err(ErrorCode::FullRewardNotCollected);
    }
    let authority = vault_authority(&ctx.staking_account_key, &ctx.staking_mint, &ctx.program_id);
    Ok(UnstakeOutcome { vault_authority: authority, transfer_amount: STAKING_AMOUNT })
}

} // verus!
