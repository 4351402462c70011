//! Claim accrued reward points as tokens without unstaking the asset.
use vstd::prelude::*;

use crate::error::StakeError;
use crate::instructions::{config_seeds, config_signer_seeds, pow10, settle_rewards, settle_spec};
use crate::mpl_core::seeds_view;
use crate::state::{Pubkey, StakeAccount, StakeConfig, UserAccount};

verus! {

/// The accounts of a claim: the addresses the instruction uses and the data
/// of the accounts it reads or changes.
#[derive(Clone, Copy, Debug)]
pub struct Claim {
    /// The owner of the staked asset, who signs.
    pub owner: Pubkey,
    /// The config.
    pub config: StakeConfig,
    /// The address of the config, which is the mint authority.
    pub config_key: Pubkey,
    /// The owner's staking record.
    pub user_account: UserAccount,
    /// The stake record of the asset; it stays open and keeps earning.
    pub stake_account: StakeAccount,
    /// The rewards mint.
    pub rewards_mint: Pubkey,
    /// The number of decimals of the rewards mint.
    pub rewards_mint_decimals: u8,
    /// The owner's token account for the rewards mint.
    pub rewards_ata: Pubkey,
    /// The token program.
    pub token_program: Pubkey,
}

/// A mint of `amount` base units of `mint` to `to`, under `authority`, signed
/// by the program address with the given seeds.
#[derive(Clone, Debug)]
pub struct MintToCall {
    pub mint: Pubkey,
    pub to: Pubkey,
    pub authority: Pubkey,
    pub amount: u64,
    pub signer_seeds: Vec<Vec<u8>>,
}

pub struct MintToView {
    pub mint: Pubkey,
    pub to: Pubkey,
    pub authority: Pubkey,
    pub amount: u64,
    pub signer_seeds: Seq<Seq<u8>>,
}

impl View for MintToCall {
    type V = MintToView;

    open spec fn view(&self) -> MintToView {
        MintToView {
            mint: self.mint,
            to: self.to,
            authority: self.authority,
            amount: self.amount,
            signer_seeds: seeds_view(self.signer_seeds@),
        }
    }
}

/// The user's record and the stake record once the asset's rewards are
/// settled at time `now`; an error when the points overflow or there are none
/// to claim.
pub open spec fn claim_settle_spec(
    config: StakeConfig,
    user: UserAccount,
    stake: StakeAccount,
    now: i64,
) -> Result<(UserAccount, StakeAccount), StakeError> {
    match settle_spec(user, stake, config.points_per_stake, now) {
        Err(e) => Err(e),
        Ok((u, s)) => {
            if u.points == 0 {
                Err(StakeError::NothingToClaim)
            } else {
                Ok((u, s))
            }
        },
    }
}

/// The user's record with an empty balance and the number of base units to
/// mint for its points, from a mint with `decimals` decimals: every point is
/// one whole token; an error when the amount does not fit a `u64`.
pub open spec fn claim_mint_spec(user: UserAccount, decimals: u8) -> Result<
    (UserAccount, u64),
    StakeError,
> {
    if user.points * pow10(decimals as nat) > u64::MAX {
        Err(StakeError::Overflow)
    } else {
        Ok((UserAccount { points: 0, ..user }, (user.points * pow10(decimals as nat)) as u64))
    }
}

/// The user's record, the stake record and the number of base units to mint
/// after a whole claim at time `now` whose mint succeeds.
pub open spec fn claim_spec(
    config: StakeConfig,
    user: UserAccount,
    stake: StakeAccount,
    decimals: u8,
    now: i64,
) -> Result<(UserAccount, StakeAccount, u64), StakeError> {
    match claim_settle_spec(config, user, stake, now) {
        Err(e) => Err(e),
        Ok((u, s)) => match claim_mint_spec(u, decimals) {
            Err(e) => Err(e),
            Ok((u2, amount)) => Ok((u2, s, amount)),
        },
    }
}

/// Ten to the power `k` grows with `k`.
proof fn lemma_pow10_monotonic(i: nat, j: nat)
    requires
        i <= j,
    ensures
        1 <= pow10(i) <= pow10(j),
    decreases j,
{
    if j > 0 {
        if i == j {
            lemma_pow10_monotonic((j - 1) as nat, (j - 1) as nat);
        } else {
            lemma_pow10_monotonic(i, (j - 1) as nat);
        }
    }
}

/// `10u64.pow(k)`.
fn pow10_u64(k: u8) -> (p: u64)
    requires
        k <= 19,
    ensures
        p == pow10(k as nat),
{
    proof {
        assert(pow10(19) == 10000000000000000000) by {
            reveal_with_fuel(pow10, 20);
        }
    }
    let mut p: u64 = 1;
    let mut i: u8 = 0;
    while i < k
        invariant
            i <= k <= 19,
            p == pow10(i as nat),
            pow10(19) == 10000000000000000000,
        decreases k - i,
    {
        proof {
            lemma_pow10_monotonic((i + 1) as nat, 19);
        }
        p = p * 10;
        i = i + 1;
    }
    p
}

/// Claim the points at time `now`: the first step. It settles the asset's
/// rewards and checks that there are points to claim; [`mint_rewards`] then
/// turns them into the mint to make. On an error nothing changes.
pub fn handler(ctx: &mut Claim, now: i64) -> (r: Result<(), StakeError>)
    ensures
        match claim_settle_spec(old(ctx).config, old(ctx).user_account, old(ctx).stake_account, now) {
            Ok((u, s)) => *final(ctx) == (Claim { user_account: u, stake_account: s, ..*old(ctx) })
                && r is Ok,
            Err(e) => *final(ctx) == *old(ctx) && r == Err::<(), StakeError>(e),
        },
{
    let mut user = ctx.user_account;
    let mut stake = ctx.stake_account;
    match settle_rewards(&mut user, &mut stake, ctx.config.points_per_stake, now) {
        Ok(()) => {},
        Err(e) => {
            return Err(e);
        },
    }
    if user.points == 0 {
        return Err(StakeError::NothingToClaim);
    }
    ctx.user_account = user;
    ctx.stake_account = stake;
    Ok(())
}

/// The second step of a claim: the mint of the user's points as whole tokens,
/// signed by the config, after which the balance is empty. The number of
/// decimals is at most 19 (for more, `10u64.pow` overflows). On an error
/// nothing changes.
pub fn mint_rewards(ctx: &mut Claim) -> (r: Result<MintToCall, StakeError>)
    requires
        old(ctx).rewards_mint_decimals <= 19,
    ensures
        match claim_mint_spec(old(ctx).user_account, old(ctx).rewards_mint_decimals) {
            Ok((u, amount)) => {
                &&& *final(ctx) == (Claim { user_account: u, ..*old(ctx) })
                &&& r matches Ok(call) && call@ == (MintToView {
                    mint: old(ctx).rewards_mint,
                    to: old(ctx).rewards_ata,
                    authority: old(ctx).config_key,
                    amount,
                    signer_seeds: config_seeds(old(ctx).config.bump),
                })
            },
            Err(e) => *final(ctx) == *old(ctx) && r == Err::<MintToCall, StakeError>(e),
        },
{
    let amount = match ctx.user_account.points.checked_mul(pow10_u64(ctx.rewards_mint_decimals)) {
        Some(a) => a,
        None => {
            return Err(StakeError::Overflow);
        },
    };
    let call = MintToCall {
        mint: ctx.rewards_mint,
        to: ctx.rewards_ata,
        authority: ctx.config_key,
        amount,
        signer_seeds: config_signer_seeds(ctx.config.bump),
    };
    ctx.user_account.points = 0;
    Ok(call)
}

} // verus!
