//! Unstake an asset: thaw it, release the freeze, and close the record.
use vstd::prelude::*;
use vstd::slice::slice_to_vec;
use vstd::utf8::encode_utf8;

use crate::error::StakeError;
use crate::instructions::{
    config_seeds, config_signer_seeds, elapsed_since, saturating_elapsed, settle_rewards,
    settle_spec, staked_attribute, staked_attribute_text,
};
use crate::mpl_core::{
    calls_view, remove_freeze, remove_freeze_instruction, seeds_view, set_frozen,
    set_frozen_instruction, update_collection_attributes, update_collection_attributes_instruction,
    CoreCall, CoreCallView,
};
use crate::state::{Pubkey, StakeAccount, StakeConfig, UserAccount};

verus! {

/// The accounts of an unstake: the addresses the instruction uses and the
/// data of the accounts it changes. The stake record is closed afterwards.
#[derive(Clone, Copy, Debug)]
pub struct Unstake {
    /// The owner of the asset, who signs and receives the record's rent.
    pub owner: Pubkey,
    /// The config, tied to the collection.
    pub config: StakeConfig,
    /// The address of the config.
    pub config_key: Pubkey,
    /// The owner's staking record.
    pub user_account: UserAccount,
    /// The stake record of the asset.
    pub stake_account: StakeAccount,
    /// The address of the stake record.
    pub stake_account_key: Pubkey,
    /// The Core asset.
    pub asset: Pubkey,
    /// The Core collection.
    pub collection: Pubkey,
    /// The Core program.
    pub mpl_core_program: Pubkey,
    /// The system program.
    pub system_program: Pubkey,
}

/// The seeds of a stake record's program address, with its bump.
pub open spec fn stake_seeds(asset: Pubkey, config_key: Pubkey, bump: u8) -> Seq<Seq<u8>> {
    seq![encode_utf8("stake"@), asset.bytes@, config_key.bytes@, seq![bump]]
}

/// The seeds with which a stake record's program address signs.
pub fn stake_signer_seeds(asset: &Pubkey, config_key: &Pubkey, bump: u8) -> (seeds: Vec<
    Vec<u8>,
>)
    ensures
        seeds_view(seeds@) == stake_seeds(*asset, *config_key, bump),
{
    let mut bump_seed = Vec::new();
    bump_seed.push(bump);
    let mut seeds = Vec::new();
    seeds.push("stake".as_bytes_vec());
    seeds.push(slice_to_vec(asset.bytes.as_slice()));
    seeds.push(slice_to_vec(config_key.bytes.as_slice()));
    seeds.push(bump_seed);
    assert(seeds_view(seeds@) =~= stake_seeds(*asset, *config_key, bump));
    seeds
}

/// The user's record and the stake record once the asset's rewards are
/// settled at time `now` and its freeze period is checked; an error when the
/// points overflow or the freeze period is not over.
pub open spec fn unstake_release_spec(
    config: StakeConfig,
    user: UserAccount,
    stake: StakeAccount,
    now: i64,
) -> Result<(UserAccount, StakeAccount), StakeError> {
    match settle_spec(user, stake, config.points_per_stake, now) {
        Err(e) => Err(e),
        Ok((u, s)) => {
            if elapsed_since(now, s.staked_at) < config.freeze_period {
                Err(StakeError::FreezePeriodNotElapsed)
            } else {
                Ok((u, s))
            }
        },
    }
}

/// The config and the user's record once the asset is released: both counts
/// go down by one; an error when a count is already zero.
pub open spec fn unstake_count_spec(config: StakeConfig, user: UserAccount) -> Result<
    (StakeConfig, UserAccount),
    StakeError,
> {
    if user.amount_staked < 1 || config.staked_count < 1 {
        Err(StakeError::Overflow)
    } else {
        Ok(
            (
                StakeConfig { staked_count: (config.staked_count - 1) as u32, ..config },
                UserAccount { amount_staked: (user.amount_staked - 1) as u8, ..user },
            ),
        )
    }
}

/// The config, the user's record and the stake record after a whole unstake
/// at time `now` whose calls succeed: rewards settled, freeze period checked,
/// both counts down by one.
pub open spec fn unstake_spec(
    config: StakeConfig,
    user: UserAccount,
    stake: StakeAccount,
    now: i64,
) -> Result<(StakeConfig, UserAccount, StakeAccount), StakeError> {
    match unstake_release_spec(config, user, stake, now) {
        Err(e) => Err(e),
        Ok((u, s)) => match unstake_count_spec(config, u) {
            Err(e) => Err(e),
            Ok((c, u2)) => Ok((c, u2, s)),
        },
    }
}

/// The calls that release the asset, in order: thaw it, signed by the stake
/// record; remove the freeze plugin, signed by the owner.
pub open spec fn unstake_release_calls(ctx: Unstake) -> Seq<CoreCallView> {
    seq![
        CoreCallView {
            instruction: set_frozen_instruction(
                ctx.asset,
                ctx.collection,
                ctx.owner,
                ctx.stake_account_key,
                ctx.system_program,
                false,
            ),
            signer_seeds: stake_seeds(ctx.asset, ctx.config_key, ctx.stake_account.bump),
        },
        CoreCallView {
            instruction: remove_freeze_instruction(
                ctx.asset,
                ctx.collection,
                ctx.owner,
                ctx.owner,
                ctx.system_program,
            ),
            signer_seeds: seq![],
        },
    ]
}

/// The call that writes the staked count into the collection, signed by the
/// config.
pub open spec fn unstake_sync_call(ctx: Unstake, staked_count: u32) -> CoreCallView {
    CoreCallView {
        instruction: update_collection_attributes_instruction(
            ctx.collection,
            ctx.owner,
            ctx.config_key,
            ctx.system_program,
            staked_attribute_text(staked_count as nat),
        ),
        signer_seeds: config_seeds(ctx.config.bump),
    }
}

/// Unstake an asset at time `now`: the first step, up to the release. It
/// settles the asset's rewards, checks the freeze period, and returns the
/// calls that thaw the asset and remove the freeze plugin, to be made in
/// order; once they succeed, [`finish`] completes the unstake. On an error
/// nothing changes.
pub fn handler(ctx: &mut Unstake, now: i64) -> (r: Result<Vec<CoreCall>, StakeError>)
    ensures
        match unstake_release_spec(
            old(ctx).config,
            old(ctx).user_account,
            old(ctx).stake_account,
            now,
        ) {
            Ok((u, s)) => {
                &&& *final(ctx) == (Unstake { user_account: u, stake_account: s, ..*old(ctx) })
                &&& r matches Ok(calls) && calls_view(calls@) == unstake_release_calls(*old(ctx))
            },
            Err(e) => *final(ctx) == *old(ctx) && r == Err::<Vec<CoreCall>, StakeError>(e),
        },
{
    // Settle any rewards earned since the last claim so they survive unstaking.
    let mut user = ctx.user_account;
    let mut stake = ctx.stake_account;
    match settle_rewards(&mut user, &mut stake, ctx.config.points_per_stake, now) {
        Ok(()) => {},
        Err(e) => {
            return Err(e);
        },
    }

    let staked_duration = saturating_elapsed(now, stake.staked_at);
    if staked_duration < ctx.config.freeze_period {
        return Err(StakeError::FreezePeriodNotElapsed);
    }
    ctx.user_account = user;
    ctx.stake_account = stake;

    // Thaw then remove the freeze plugin, signed by the stake PDA.
    let thaw = set_frozen(
        ctx.asset,
        ctx.collection,
        ctx.owner,
        ctx.stake_account_key,
        ctx.system_program,
        false,
    );
    let thaw_seeds = stake_signer_seeds(&ctx.asset, &ctx.config_key, ctx.stake_account.bump);
    // Once thawed, the owner-managed freeze plugin is removed by the asset owner.
    let remove = remove_freeze(
        ctx.asset,
        ctx.collection,
        ctx.owner,
        ctx.owner,
        ctx.system_program,
    );
    let no_seeds: Vec<Vec<u8>> = Vec::new();
    assert(seeds_view(no_seeds@) =~= Seq::<Seq<u8>>::empty());

    let mut calls = Vec::new();
    calls.push(CoreCall { instruction: thaw, signer_seeds: thaw_seeds });
    calls.push(CoreCall { instruction: remove, signer_seeds: no_seeds });
    assert(calls_view(calls@) =~= unstake_release_calls(*old(ctx)));
    Ok(calls)
}

/// The second step of an unstake, after the asset is released: uncount the
/// asset for the user and for the collection, and return the call that writes
/// the new count into the collection. On an error nothing changes.
pub fn finish(ctx: &mut Unstake) -> (r: Result<CoreCall, StakeError>)
    ensures
        match unstake_count_spec(old(ctx).config, old(ctx).user_account) {
            Ok((c, u)) => {
                &&& *final(ctx) == (Unstake { config: c, user_account: u, ..*old(ctx) })
                &&& r matches Ok(call) && call@ == unstake_sync_call(*old(ctx), c.staked_count)
            },
            Err(e) => *final(ctx) == *old(ctx) && r == Err::<CoreCall, StakeError>(e),
        },
{
    let amount_staked = match ctx.user_account.amount_staked.checked_sub(1) {
        Some(a) => a,
        None => {
            return Err(StakeError::Overflow);
        },
    };
    let staked_count = match ctx.config.staked_count.checked_sub(1) {
        Some(c) => c,
        None => {
            return Err(StakeError::Overflow);
        },
    };
    ctx.user_account.amount_staked = amount_staked;
    ctx.config.staked_count = staked_count;

    // Mirror the new count into the collection's Attributes plugin.
    let instruction = update_collection_attributes(
        ctx.collection,
        ctx.owner,
        ctx.config_key,
        ctx.system_program,
        staked_attribute(staked_count),
    );
    Ok(CoreCall { instruction, signer_seeds: config_signer_seeds(ctx.config.bump) })
}

} // verus!
