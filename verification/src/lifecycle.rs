//! What holds across instructions: an asset staked can be unstaked once its
//! freeze period is over, with its rewards and with every count restored; it
//! cannot be unstaked earlier; points cannot be claimed twice; the staked
//! counts stay equal to the number of open stake records.
use vstd::prelude::*;

use crate::error::StakeError;
use crate::instructions::claim::claim_spec;
use crate::instructions::{elapsed_since, pow10, settle_spec};
use crate::instructions::stake::stake_spec;
use crate::instructions::unstake::{unstake_count_spec, unstake_release_spec, unstake_spec};
use crate::state::{Pubkey, StakeAccount, StakeConfig, UserAccount};

verus! {

/// A successful stake never takes a user past the config's maximum, and a user
/// at the maximum is refused with `MaxStakeReached`.
pub proof fn stake_respects_max_stake(
    config: StakeConfig,
    user: UserAccount,
    owner: Pubkey,
    asset: Pubkey,
    now: i64,
    bump: u8,
)
    ensures
        stake_spec(config, user, owner, asset, now, bump) matches Ok((c, u, s)) ==> u.amount_staked
            <= c.max_stake,
        user.amount_staked >= config.max_stake ==> stake_spec(config, user, owner, asset, now, bump)
            == Err::<(StakeConfig, UserAccount, StakeAccount), StakeError>(
            StakeError::MaxStakeReached,
        ),
{
}

/// An asset staked at `t1` can be unstaked at any `t2` at least the freeze
/// period later, as long as the points it earned fit the user's balance. The
/// unstake hands the user `(t2 - t1) * points_per_stake` points and restores
/// the user's staked count and the whole config as they were before the stake.
pub proof fn unstake_after_freeze_period(
    config: StakeConfig,
    user: UserAccount,
    owner: Pubkey,
    asset: Pubkey,
    t1: i64,
    bump: u8,
    t2: i64,
)
    requires
        stake_spec(config, user, owner, asset, t1, bump) is Ok,
        t1 <= t2,
        t2 - t1 <= i64::MAX,
        t2 - t1 >= config.freeze_period,
        user.points + (t2 - t1) * config.points_per_stake <= u64::MAX,
    ensures
        stake_spec(config, user, owner, asset, t1, bump) matches Ok((c1, u1, s1))
            && unstake_spec(c1, u1, s1, t2) matches Ok((c2, u2, s2)) && c2 == config && u2 == (
        UserAccount {
            points: (user.points + (t2 - t1) * config.points_per_stake) as u64,
            ..user
        }) && s2.last_update == (if t1 < t2 {
            t2
        } else {
            t1
        }),
{
    let p = config.points_per_stake as int;
    assert(0 <= (t2 - t1) * p) by (nonlinear_arith)
        requires
            t1 <= t2,
            0 <= p,
    ;
    let (c1, u1, s1) = stake_spec(config, user, owner, asset, t1, bump)->Ok_0;
    assert(elapsed_since(t2, s1.last_update) == t2 - t1);
    let (u, s) = settle_spec(u1, s1, c1.points_per_stake, t2)->Ok_0;
    if t1 == t2 {
        assert((t2 - t1) * p == 0) by (nonlinear_arith)
            requires
                t2 - t1 == 0,
        ;
        assert(u.points == user.points);
    } else {
        assert(u.points == user.points + (t2 - t1) * p);
    }
    assert(elapsed_since(t2, s.staked_at) == t2 - t1);
    let (c2, u2, s2) = unstake_spec(c1, u1, s1, t2)->Ok_0;
    assert(c2 == config);
}

/// An asset staked at `t1` cannot be unstaked at a `t2` before its freeze
/// period is over: the unstake is refused, with `FreezePeriodNotElapsed` when
/// the points it earned fit the user's balance.
pub proof fn unstake_before_freeze_period_is_refused(
    config: StakeConfig,
    user: UserAccount,
    owner: Pubkey,
    asset: Pubkey,
    t1: i64,
    bump: u8,
    t2: i64,
)
    requires
        stake_spec(config, user, owner, asset, t1, bump) is Ok,
        t1 <= t2,
        t2 - t1 < config.freeze_period,
    ensures
        stake_spec(config, user, owner, asset, t1, bump) matches Ok((c1, u1, s1))
            && unstake_spec(c1, u1, s1, t2) is Err,
        user.points + (t2 - t1) * config.points_per_stake <= u64::MAX ==> (stake_spec(
            config,
            user,
            owner,
            asset,
            t1,
            bump,
        ) matches Ok((c1, u1, s1)) && unstake_spec(c1, u1, s1, t2) == Err::<
            (StakeConfig, UserAccount, StakeAccount),
            StakeError,
        >(StakeError::FreezePeriodNotElapsed)),
{
    let p = config.points_per_stake as int;
    assert(0 <= (t2 - t1) * p) by (nonlinear_arith)
        requires
            t1 <= t2,
            0 <= p,
    ;
}

/// Points cannot be claimed twice: right after a successful claim, a second
/// claim at the same time finds nothing to claim.
pub proof fn claim_twice_finds_nothing(
    config: StakeConfig,
    user: UserAccount,
    stake: StakeAccount,
    decimals: u8,
    now: i64,
)
    ensures
        claim_spec(config, user, stake, decimals, now) matches Ok((u, s, amount)) ==> claim_spec(
            config,
            u,
            s,
            decimals,
            now,
        ) == Err::<(UserAccount, StakeAccount, u64), StakeError>(StakeError::NothingToClaim),
{
}

/// A user's staked count stays within the config's maximum: starting from a
/// count within it, every stake, unstake and claim leaves it within.
pub proof fn amount_staked_stays_within_max(
    config: StakeConfig,
    user: UserAccount,
    stake: StakeAccount,
    owner: Pubkey,
    asset: Pubkey,
    bump: u8,
    decimals: u8,
    now: i64,
)
    requires
        user.amount_staked <= config.max_stake,
    ensures
        stake_spec(config, user, owner, asset, now, bump) matches Ok((c, u, s))
            ==> u.amount_staked <= c.max_stake,
        unstake_spec(config, user, stake, now) matches Ok((c, u, s)) ==> u.amount_staked
            <= c.max_stake,
        claim_spec(config, user, stake, decimals, now) matches Ok((u, s, amount))
            ==> u.amount_staked <= config.max_stake,
{
}

/// How often a user claims does not change what the claims add up to: two
/// claims, at `t1` and then at `t2`, mint together what one claim at `t2`
/// mints, when all three succeed, the asset was last settled no later than
/// `t1`, `t1 <= t2`, and `t2 - last_update` fits an `i64`.
pub proof fn claiming_twice_mints_what_claiming_once_mints(
    config: StakeConfig,
    user: UserAccount,
    stake: StakeAccount,
    decimals: u8,
    t1: i64,
    t2: i64,
)
    requires
        stake.last_update <= t1 <= t2,
        t2 - stake.last_update <= i64::MAX,
        claim_spec(config, user, stake, decimals, t1) is Ok,
        claim_spec(config, user, stake, decimals, t2) is Ok,
        claim_spec(
            config,
            claim_spec(config, user, stake, decimals, t1)->Ok_0.0,
            claim_spec(config, user, stake, decimals, t1)->Ok_0.1,
            decimals,
            t2,
        ) is Ok,
    ensures
        claim_spec(config, user, stake, decimals, t1) matches Ok((u1, s1, a1)) && claim_spec(
            config,
            u1,
            s1,
            decimals,
            t2,
        ) matches Ok((u2, s2, a2)) && claim_spec(config, user, stake, decimals, t2) matches Ok(
            (u, s, a),
        ) && a1 + a2 == a && u2 == u && s2 == s,
{
    let p = config.points_per_stake as int;
    let d = pow10(decimals as nat);
    let e1 = t1 - stake.last_update;
    let e2 = t2 - t1;
    let q = user.points as int;
    assert(0 <= e1 * p && 0 <= e2 * p && e1 * p + e2 * p == (e1 + e2) * p) by (nonlinear_arith)
        requires
            0 <= e1,
            0 <= e2,
            0 <= p,
    ;
    assert((q + e1 * p) * d + (e2 * p) * d == (q + (e1 + e2) * p) * d) by (nonlinear_arith);
    assert(e1 == 0 ==> e1 * p == 0) by (nonlinear_arith);
    assert(e2 == 0 ==> e2 * p == 0) by (nonlinear_arith);
    assert(0 * d == 0) by (nonlinear_arith);
}

/// The stake records open under a config, each as its (owner, asset) pair.
pub type StakeRecords = Set<(Pubkey, Pubkey)>;

/// The open records that belong to `owner`.
pub open spec fn owned_by(records: StakeRecords, owner: Pubkey) -> StakeRecords {
    records.filter(|r: (Pubkey, Pubkey)| r.0 == owner)
}

/// The counts say what the records hold: the config counts every open record
/// and the user's record counts the open records of `owner`.
pub open spec fn counts_match(
    records: StakeRecords,
    config: StakeConfig,
    owner: Pubkey,
    user: UserAccount,
) -> bool {
    &&& records.finite()
    &&& config.staked_count == records.len()
    &&& user.amount_staked == owned_by(records, owner).len()
}

/// A stake keeps the counts equal to the number of open records: when the
/// counts match the records before, and the asset has no open record (its
/// record's address is derived from the asset), then after a successful stake
/// they match the records with the new one added. Other owners' records are
/// unchanged.
pub proof fn stake_counts_the_new_record(
    config: StakeConfig,
    user: UserAccount,
    owner: Pubkey,
    asset: Pubkey,
    now: i64,
    bump: u8,
    records: StakeRecords,
)
    requires
        counts_match(records, config, owner, user),
        !records.contains((owner, asset)),
    ensures
        stake_spec(config, user, owner, asset, now, bump) matches Ok((c, u, s)) ==> counts_match(
            records.insert((s.owner, s.asset)),
            c,
            owner,
            u,
        ),
        forall|other: Pubkey|
            other != owner ==> #[trigger] owned_by(records.insert((owner, asset)), other)
                == owned_by(records, other),
{
    let added = records.insert((owner, asset));
    let pred = |r: (Pubkey, Pubkey)| r.0 == owner;
    assert(owned_by(added, owner) =~= owned_by(records, owner).insert((owner, asset)));
    records.lemma_len_filter(pred);
    assert(!owned_by(records, owner).contains((owner, asset)));
    assert forall|other: Pubkey| other != owner implies #[trigger] owned_by(added, other)
        == owned_by(records, other) by {
        assert(owned_by(added, other) =~= owned_by(records, other));
    }
}

/// An unstake keeps the counts equal to the number of open records: when the
/// counts match the records before and the asset's record is open, the counts
/// cannot underflow once the asset is released, and after a successful unstake
/// they match the records with that one closed.
pub proof fn unstake_uncounts_the_record(
    config: StakeConfig,
    user: UserAccount,
    stake: StakeAccount,
    now: i64,
    records: StakeRecords,
)
    requires
        counts_match(records, config, stake.owner, user),
        records.contains((stake.owner, stake.asset)),
    ensures
        unstake_release_spec(config, user, stake, now) matches Ok((u, s)) ==> unstake_count_spec(
            config,
            u,
        ) is Ok,
        unstake_spec(config, user, stake, now) matches Ok((c, u, s)) ==> counts_match(
            records.remove((s.owner, s.asset)),
            c,
            stake.owner,
            u,
        ),
{
    let key = (stake.owner, stake.asset);
    let removed = records.remove(key);
    let pred = |r: (Pubkey, Pubkey)| r.0 == stake.owner;
    records.lemma_len_filter(pred);
    assert(owned_by(records, stake.owner).contains(key));
    assert(owned_by(removed, stake.owner) =~= owned_by(records, stake.owner).remove(key));
    assert(records.len() >= 1);
    assert(owned_by(records, stake.owner).len() >= 1);
}

} // verus!
