//! What each step of an instruction does to the accounts, stated by
//! arithmetic on the accounts it is given, and how the steps of different
//! instructions combine.
use vstd::prelude::*;

use crate::error::StakeError;
use crate::instructions::claim::{claim_mint_spec, claim_settle_spec, claim_spec};
use crate::instructions::stake::{stake_count_spec, stake_record_spec, stake_spec};
use crate::instructions::unstake::{unstake_count_spec, unstake_release_spec, unstake_spec};
use crate::instructions::{pow10, settle_spec};
use crate::state::{Pubkey, StakeAccount, StakeConfig, UserAccount};

verus! {

/// Settling at `now`, no earlier than the last settlement and at most
/// `i64::MAX` seconds after it, pays
/// `(now - last_update) * points_per_stake` points and moves the last
/// settlement to `now`; when the balance cannot hold them it is an overflow.
/// Settling at a time before the last settlement changes nothing.
pub proof fn settle_pays_the_time_since_last_update(
    user: UserAccount,
    stake: StakeAccount,
    points_per_stake: u8,
    now: i64,
)
    ensures
        stake.last_update <= now && now - stake.last_update <= i64::MAX && user.points + (now
            - stake.last_update) * points_per_stake <= u64::MAX ==> settle_spec(user, stake, points_per_stake, now) == Ok::<
            (UserAccount, StakeAccount),
            StakeError,
        >(
            (
                UserAccount {
                    points: (user.points + (now - stake.last_update) * points_per_stake) as u64,
                    ..user
                },
                StakeAccount { last_update: now, ..stake },
            ),
        ),
        stake.last_update <= now && now - stake.last_update <= i64::MAX && user.points + (now
            - stake.last_update) * points_per_stake > u64::MAX ==> settle_spec(
            user,
            stake,
            points_per_stake,
            now,
        ) == Err::<(UserAccount, StakeAccount), StakeError>(StakeError::Overflow),
        now < stake.last_update ==> settle_spec(user, stake, points_per_stake, now) == Ok::<
            (UserAccount, StakeAccount),
            StakeError,
        >((user, stake)),
{
    let d = now - stake.last_update;
    let p = points_per_stake as int;
    assert(d == 0 ==> d * p == 0) by (nonlinear_arith);
    assert(d >= 0 ==> d * p >= 0) by (nonlinear_arith)
        requires
            p >= 0,
    ;
}

/// The first step of an unstake settles the asset's rewards since the last
/// settlement (a claim included) and lets the asset go exactly when the time
/// since it was staked, whatever was claimed meanwhile, reaches the freeze
/// period.
pub proof fn unstake_release_measures_the_freeze_from_staking(
    config: StakeConfig,
    user: UserAccount,
    stake: StakeAccount,
    now: i64,
)
    requires
        stake.last_update <= now,
        now - stake.last_update <= i64::MAX,
        i64::MIN <= now - stake.staked_at <= i64::MAX,
        user.points + (now - stake.last_update) * config.points_per_stake <= u64::MAX,
    ensures
        unstake_release_spec(config, user, stake, now) == if now - stake.staked_at
            >= config.freeze_period {
            Ok::<(UserAccount, StakeAccount), StakeError>(
                (
                    UserAccount {
                        points: (user.points + (now - stake.last_update)
                            * config.points_per_stake) as u64,
                        ..user
                    },
                    StakeAccount { last_update: now, ..stake },
                ),
            )
        } else {
            Err(StakeError::FreezePeriodNotElapsed)
        },
{
    settle_pays_the_time_since_last_update(user, stake, config.points_per_stake, now);
}

/// A claim between a stake and an unstake neither delays the unstake nor lets
/// any second be paid twice. For an asset staked at `t1`, claimed at `tc`,
/// and unstaked at `t2` at least the freeze period after `t1`: the unstake
/// succeeds, restores the config, pays `(t2 - tc) * points_per_stake` points,
/// and with the points minted by the claim this makes the balance the user had
/// plus `(t2 - t1) * points_per_stake`.
pub proof fn claim_between_stake_and_unstake(
    config: StakeConfig,
    user: UserAccount,
    owner: Pubkey,
    asset: Pubkey,
    t1: i64,
    bump: u8,
    decimals: u8,
    tc: i64,
    t2: i64,
)
    requires
        stake_spec(config, user, owner, asset, t1, bump) is Ok,
        claim_spec(
            stake_spec(config, user, owner, asset, t1, bump)->Ok_0.0,
            stake_spec(config, user, owner, asset, t1, bump)->Ok_0.1,
            stake_spec(config, user, owner, asset, t1, bump)->Ok_0.2,
            decimals,
            tc,
        ) is Ok,
        t1 <= tc <= t2,
        t2 - t1 <= i64::MAX,
        t2 - t1 >= config.freeze_period,
        (t2 - tc) * config.points_per_stake <= u64::MAX,
    ensures
        stake_spec(config, user, owner, asset, t1, bump) matches Ok((c1, u1, s1)) && claim_spec(
            c1,
            u1,
            s1,
            decimals,
            tc,
        ) matches Ok((uc, sc, minted)) && unstake_spec(c1, uc, sc, t2) matches Ok((c2, u2, s2))
            && c2 == config && u2.points == (t2 - tc) * config.points_per_stake && minted == (
        user.points + (tc - t1) * config.points_per_stake) * pow10(decimals as nat) && (user.points
            + (tc - t1) * config.points_per_stake) + u2.points == user.points + (t2 - t1)
            * config.points_per_stake,
{
    let p = config.points_per_stake as int;
    let (c1, u1, s1) = stake_spec(config, user, owner, asset, t1, bump)->Ok_0;
    assert(s1.last_update == t1 && s1.staked_at == t1);
    assert(0 <= (tc - t1) * p && 0 <= (t2 - tc) * p && (tc - t1) * p + (t2 - tc) * p == (t2
        - t1) * p) by (nonlinear_arith)
        requires
            t1 <= tc <= t2,
            0 <= p,
    ;
    // The claim settles from `t1` to `tc`.
    let (us, ss) = settle_spec(u1, s1, c1.points_per_stake, tc)->Ok_0;
    if user.points + (tc - t1) * p > u64::MAX {
        settle_pays_the_time_since_last_update(u1, s1, c1.points_per_stake, tc);
        assert(false);
    }
    settle_pays_the_time_since_last_update(u1, s1, c1.points_per_stake, tc);
    assert(us.points == user.points + (tc - t1) * p);
    let (uc, sc, minted) = claim_spec(c1, u1, s1, decimals, tc)->Ok_0;
    assert(uc.points == 0 && sc.last_update == tc && sc.staked_at == t1);
    // The unstake settles from `tc` to `t2` and checks `t2 - t1`.
    unstake_release_measures_the_freeze_from_staking(c1, uc, sc, t2);
    let (ur, sr) = unstake_release_spec(c1, uc, sc, t2)->Ok_0;
    assert(ur.amount_staked == u1.amount_staked);
    let (c2, u2, s2) = unstake_spec(c1, uc, sc, t2)->Ok_0;
    assert(c2 == config);
}

/// The first step of a stake writes the record of `asset` for `owner`,
/// staked and last settled at `now`, exactly when the user is below the
/// maximum.
pub proof fn stake_record_is_the_new_asset(
    config: StakeConfig,
    user: UserAccount,
    owner: Pubkey,
    asset: Pubkey,
    now: i64,
    bump: u8,
)
    ensures
        stake_record_spec(config, user, owner, asset, now, bump) is Ok <==> user.amount_staked
            < config.max_stake,
        stake_record_spec(config, user, owner, asset, now, bump) matches Ok(s) ==> s.owner == owner
            && s.asset == asset && s.staked_at == now && s.last_update == now && s.bump == bump,
{
}

/// Counting an asset in and counting it out undo each other: after the count
/// step of a stake, the count step of an unstake gives back the config and the
/// user's record; and the other way round.
pub proof fn counting_in_and_out_undo_each_other(config: StakeConfig, user: UserAccount)
    ensures
        stake_count_spec(config, user) matches Ok((c, u)) ==> unstake_count_spec(c, u) == Ok::<
            (StakeConfig, UserAccount),
            StakeError,
        >((config, user)),
        unstake_count_spec(config, user) matches Ok((c, u)) ==> stake_count_spec(c, u) == Ok::<
            (StakeConfig, UserAccount),
            StakeError,
        >((config, user)),
        stake_count_spec(config, user) matches Ok((c, u)) ==> c.staked_count == config.staked_count
            + 1 && u.amount_staked == user.amount_staked + 1,
        unstake_count_spec(config, user) matches Ok((c, u)) ==> c.staked_count
            == config.staked_count - 1 && u.amount_staked == user.amount_staked - 1,
        stake_count_spec(config, user) is Err ==> config.staked_count == u32::MAX
            || user.amount_staked == u8::MAX,
        unstake_count_spec(config, user) is Err ==> config.staked_count == 0
            || user.amount_staked == 0,
{
}

/// A claim's first step settles the rewards and refuses exactly when the
/// settled balance is empty; its second step mints the whole balance, one
/// token of `10^decimals` base units per point, and leaves the balance empty.
pub proof fn claim_mints_the_settled_balance(
    config: StakeConfig,
    user: UserAccount,
    stake: StakeAccount,
    decimals: u8,
    now: i64,
)
    ensures
        settle_spec(user, stake, config.points_per_stake, now) matches Ok((u, s)) ==> (
        claim_settle_spec(config, user, stake, now) == if u.points == 0 {
            Err::<(UserAccount, StakeAccount), StakeError>(StakeError::NothingToClaim)
        } else {
            Ok((u, s))
        }),
        claim_mint_spec(user, decimals) matches Ok((u, amount)) ==> u.points == 0 && amount
            == user.points * pow10(decimals as nat) && u.amount_staked == user.amount_staked
            && u.bump == user.bump,
        claim_mint_spec(user, decimals) is Err ==> user.points * pow10(decimals as nat)
            > u64::MAX,
{
}

/// The first steps of an unstake and of a claim report a failed settlement as
/// it is: an overflow of the balance stops them before any other check.
pub proof fn settlement_errors_pass_through(
    config: StakeConfig,
    user: UserAccount,
    stake: StakeAccount,
    now: i64,
)
    ensures
        settle_spec(user, stake, config.points_per_stake, now) matches Err(e) ==> (
        unstake_release_spec(config, user, stake, now) == Err::<
            (UserAccount, StakeAccount),
            StakeError,
        >(e) && claim_settle_spec(config, user, stake, now) == Err::<
            (UserAccount, StakeAccount),
            StakeError,
        >(e)),
        settle_spec(user, stake, config.points_per_stake, now) is Err ==> settle_spec(
            user,
            stake,
            config.points_per_stake,
            now,
        ) == Err::<(UserAccount, StakeAccount), StakeError>(StakeError::Overflow),
{
}

} // verus!
