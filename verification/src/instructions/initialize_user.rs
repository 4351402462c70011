//! Create a staking record for a user.
use vstd::prelude::*;

use crate::state::{Pubkey, UserAccount};

verus! {

/// The accounts of a user record's creation.
#[derive(Clone, Copy, Debug)]
pub struct InitializeUser {
    /// The user, who signs and pays.
    pub owner: Pubkey,
    /// The user's record, written by this instruction.
    pub user_account: UserAccount,
}

/// Start the user's record with no points and no asset staked; `bump` is the
/// bump of the record's program address.
pub fn handler(ctx: &mut InitializeUser, bump: u8)
    ensures
        *final(ctx) == (InitializeUser {
            user_account: UserAccount { points: 0, amount_staked: 0, bump },
            ..*old(ctx)
        }),
{
    ctx.user_account = UserAccount { points: 0, amount_staked: 0, bump };
}

} // verus!
