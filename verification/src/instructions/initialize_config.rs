//! Create the program config; the rewards mint is created beside it.
use vstd::prelude::*;

use crate::state::{Pubkey, StakeConfig};

verus! {

/// The accounts of the config's creation.
#[derive(Clone, Copy, Debug)]
pub struct InitializeConfig {
    /// The admin, who signs and pays.
    pub admin: Pubkey,
    /// The config, written by this instruction.
    pub config: StakeConfig,
    /// The rewards mint, created with the config as its authority.
    pub rewards_mint: Pubkey,
    /// The Core collection this config manages.
    pub collection: Pubkey,
    /// The token program.
    pub token_program: Pubkey,
    /// The system program.
    pub system_program: Pubkey,
}

/// Record the admin, the collection and the staking rules in the config, with
/// no asset staked yet; `rewards_bump` and `config_bump` are the bumps of the
/// two new program addresses.
pub fn handler(
    ctx: &mut InitializeConfig,
    points_per_stake: u8,
    max_stake: u8,
    freeze_period: i64,
    rewards_bump: u8,
    config_bump: u8,
)
    ensures
        *final(ctx) == (InitializeConfig {
            config: StakeConfig {
                admin: old(ctx).admin,
                collection: old(ctx).collection,
                points_per_stake,
                max_stake,
                freeze_period,
                staked_count: 0,
                rewards_bump,
                bump: config_bump,
            },
            ..*old(ctx)
        }),
{
    ctx.config = StakeConfig {
        admin: ctx.admin,
        collection: ctx.collection,
        points_per_stake,
        max_stake,
        freeze_period,
        staked_count: 0,
        rewards_bump,
        bump: config_bump,
    };
}

} // verus!
