//! Stake an asset: freeze it and start accruing reward points.
use vstd::prelude::*;

use crate::error::StakeError;
use crate::instructions::{config_seeds, config_signer_seeds, staked_attribute, staked_attribute_text};
use crate::mpl_core::{
    freeze_asset, freeze_asset_instruction, seeds_view, update_collection_attributes,
    update_collection_attributes_instruction, CoreCall, CoreCallView,
};
use crate::state::{Pubkey, StakeAccount, StakeConfig, UserAccount};

verus! {

/// The accounts of a stake: the addresses the instruction uses and the data
/// of the accounts it changes.
#[derive(Clone, Copy, Debug)]
pub struct Stake {
    /// The owner of the asset, who signs and pays.
    pub owner: Pubkey,
    /// The config, tied to the collection.
    pub config: StakeConfig,
    /// The address of the config.
    pub config_key: Pubkey,
    /// The owner's staking record.
    pub user_account: UserAccount,
    /// The stake record of the asset, created by this instruction.
    pub stake_account: StakeAccount,
    /// The address of the stake record.
    pub stake_account_key: Pubkey,
    /// The Core asset.
    pub asset: Pubkey,
    /// The Core collection.
    pub collection: Pubkey,
    /// The Core program.
    pub mpl_core_program: Pubkey,
    /// The system program.
    pub system_program: Pubkey,
}

/// The stake record written when `owner` stakes `asset` at time `now`; an
/// error when the user has reached the maximum.
pub open spec fn stake_record_spec(
    config: StakeConfig,
    user: UserAccount,
    owner: Pubkey,
    asset: Pubkey,
    now: i64,
    bump: u8,
) -> Result<StakeAccount, StakeError> {
    if user.amount_staked >= config.max_stake {
        Err(StakeError::MaxStakeReached)
    } else {
        Ok(StakeAccount { owner, asset, staked_at: now, last_update: now, bump })
    }
}

/// The config and the user's record once the asset is frozen: both counts go
/// up by one; an error when a count overflows.
pub open spec fn stake_count_spec(config: StakeConfig, user: UserAccount) -> Result<
    (StakeConfig, UserAccount),
    StakeError,
> {
    if user.amount_staked + 1 > u8::MAX || config.staked_count + 1 > u32::MAX {
        Err(StakeError::Overflow)
    } else {
        Ok(
            (
                StakeConfig { staked_count: (config.staked_count + 1) as u32, ..config },
                UserAccount { amount_staked: (user.amount_staked + 1) as u8, ..user },
            ),
        )
    }
}

/// The config, the user's record and the new stake record after a whole stake
/// whose freeze call succeeds.
pub open spec fn stake_spec(
    config: StakeConfig,
    user: UserAccount,
    owner: Pubkey,
    asset: Pubkey,
    now: i64,
    bump: u8,
) -> Result<(StakeConfig, UserAccount, StakeAccount), StakeError> {
    match stake_record_spec(config, user, owner, asset, now, bump) {
        Err(e) => Err(e),
        Ok(s) => match stake_count_spec(config, user) {
            Err(e) => Err(e),
            Ok((c, u)) => Ok((c, u, s)),
        },
    }
}

/// The call that freezes the asset, with the stake record as thaw authority,
/// signed by the owner.
pub open spec fn stake_freeze_call(ctx: Stake) -> CoreCallView {
    CoreCallView {
        instruction: freeze_asset_instruction(
            ctx.asset,
            ctx.collection,
            ctx.owner,
            ctx.owner,
            ctx.system_program,
            ctx.stake_account_key,
        ),
        signer_seeds: seq![],
    }
}

/// The call that writes the staked count into the collection, signed by the
/// config.
pub open spec fn stake_sync_call(ctx: Stake, staked_count: u32) -> CoreCallView {
    CoreCallView {
        instruction: update_collection_attributes_instruction(
            ctx.collection,
            ctx.owner,
            ctx.config_key,
            ctx.system_program,
            staked_attribute_text(staked_count as nat),
        ),
        signer_seeds: config_seeds(ctx.config.bump),
    }
}

/// Stake an asset at time `now`, with `stake_bump` the bump of the stake
/// record's address: the first step, up to the freeze. Unless the user has
/// reached the maximum, it writes the stake record and returns the call that
/// freezes the asset; once that call succeeds, [`finish`] completes the stake.
/// On an error nothing changes.
pub fn handler(ctx: &mut Stake, now: i64, stake_bump: u8) -> (r: Result<CoreCall, StakeError>)
    ensures
        match stake_record_spec(
            old(ctx).config,
            old(ctx).user_account,
            old(ctx).owner,
            old(ctx).asset,
            now,
            stake_bump,
        ) {
            Ok(s) => {
                &&& *final(ctx) == (Stake { stake_account: s, ..*old(ctx) })
                &&& r matches Ok(call) && call@ == stake_freeze_call(*old(ctx))
            },
            Err(e) => *final(ctx) == *old(ctx) && r == Err::<CoreCall, StakeError>(e),
        },
{
    if ctx.user_account.amount_staked >= ctx.config.max_stake {
        return Err(StakeError::MaxStakeReached);
    }
    ctx.stake_account = StakeAccount {
        owner: ctx.owner,
        asset: ctx.asset,
        staked_at: now,
        last_update: now,
        bump: stake_bump,
    };

    // Freeze the asset and hand thaw rights to the stake PDA, so the owner can
    // no longer move it while it is staked but the program can release it later.
    let freeze = freeze_asset(
        ctx.asset,
        ctx.collection,
        ctx.owner,
        ctx.owner,
        ctx.system_program,
        ctx.stake_account_key,
    );
    let no_seeds: Vec<Vec<u8>> = Vec::new();
    assert(seeds_view(no_seeds@) =~= Seq::<Seq<u8>>::empty());
    Ok(CoreCall { instruction: freeze, signer_seeds: no_seeds })
}

/// The second step of a stake, after the freeze call succeeded: count the
/// asset for the user and for the collection, and return the call that writes
/// the new count into the collection. On an error nothing changes.
pub fn finish(ctx: &mut Stake) -> (r: Result<CoreCall, StakeError>)
    ensures
        match stake_count_spec(old(ctx).config, old(ctx).user_account) {
            Ok((c, u)) => {
                &&& *final(ctx) == (Stake { config: c, user_account: u, ..*old(ctx) })
                &&& r matches Ok(call) && call@ == stake_sync_call(*old(ctx), c.staked_count)
            },
            Err(e) => *final(ctx) == *old(ctx) && r == Err::<CoreCall, StakeError>(e),
        },
{
    let amount_staked = match ctx.user_account.amount_staked.checked_add(1) {
        Some(a) => a,
        None => {
            return Err(StakeError::Overflow);
        },
    };
    let staked_count = match ctx.config.staked_count.checked_add(1) {
        Some(c) => c,
        None => {
            return Err(StakeError::Overflow);
        },
    };
    ctx.user_account.amount_staked = amount_staked;
    ctx.config.staked_count = staked_count;
    Ok(sync_collection_count(ctx))
}

/// Write the live staked count into the collection's Attributes plugin, signed
/// by the config PDA that owns the plugin.
fn sync_collection_count(ctx: &Stake) -> (call: CoreCall)
    ensures
        call@ == stake_sync_call(*ctx, ctx.config.staked_count),
{
    let instruction = update_collection_attributes(
        ctx.collection,
        ctx.owner,
        ctx.config_key,
        ctx.system_program,
        staked_attribute(ctx.config.staked_count),
    );
    CoreCall { instruction, signer_seeds: config_signer_seeds(ctx.config.bump) }
}

} // verus!
