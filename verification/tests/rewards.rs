use nft_staking::error::StakeError;
use nft_staking::instructions::{settle_rewards, staked_attribute};
use nft_staking::state::{Pubkey, StakeAccount, UserAccount};

fn key(b: u8) -> Pubkey {
    Pubkey { bytes: [b; 32] }
}

fn stake_at(staked_at: i64, last_update: i64) -> StakeAccount {
    StakeAccount { owner: key(1), asset: key(2), staked_at, last_update, bump: 254 }
}

#[test]
fn settle_moves_elapsed_points_into_balance() {
    let mut user = UserAccount { points: 5, amount_staked: 1, bump: 9 };
    let mut stake = stake_at(100, 100);
    assert_eq!(settle_rewards(&mut user, &mut stake, 3, 110), Ok(()));
    assert_eq!(user.points, 5 + 10 * 3);
    assert_eq!(user.amount_staked, 1);
    assert_eq!(stake.last_update, 110);
    assert_eq!(stake.staked_at, 100);
}

#[test]
fn settle_does_nothing_when_no_time_passed() {
    let mut user = UserAccount { points: 5, amount_staked: 1, bump: 9 };
    let mut stake = stake_at(100, 100);
    assert_eq!(settle_rewards(&mut user, &mut stake, 3, 100), Ok(()));
    assert_eq!(user.points, 5);
    assert_eq!(stake.last_update, 100);
    // A clock that went backwards earns nothing and leaves the record alone.
    assert_eq!(settle_rewards(&mut user, &mut stake, 3, 50), Ok(()));
    assert_eq!(user.points, 5);
    assert_eq!(stake.last_update, 100);
}

#[test]
fn settle_twice_at_same_time_is_settle_once() {
    let mut user = UserAccount { points: 0, amount_staked: 1, bump: 9 };
    let mut stake = stake_at(0, 0);
    settle_rewards(&mut user, &mut stake, 7, 20).unwrap();
    settle_rewards(&mut user, &mut stake, 7, 20).unwrap();
    assert_eq!(user.points, 140);
}

#[test]
fn settle_in_steps_equals_settle_at_once() {
    let mut u1 = UserAccount { points: 1, amount_staked: 1, bump: 9 };
    let mut s1 = stake_at(0, 0);
    settle_rewards(&mut u1, &mut s1, 4, 7).unwrap();
    settle_rewards(&mut u1, &mut s1, 4, 30).unwrap();
    let mut u2 = UserAccount { points: 1, amount_staked: 1, bump: 9 };
    let mut s2 = stake_at(0, 0);
    settle_rewards(&mut u2, &mut s2, 4, 30).unwrap();
    assert_eq!(u1, u2);
    assert_eq!(s1, s2);
}

#[test]
fn settle_reports_overflow_of_the_product() {
    let mut user = UserAccount { points: 0, amount_staked: 1, bump: 9 };
    let mut stake = stake_at(i64::MIN, i64::MIN);
    // The elapsed time saturates at i64::MAX; times 255 it overflows a u64.
    assert_eq!(settle_rewards(&mut user, &mut stake, 255, i64::MAX), Err(StakeError::Overflow));
    assert_eq!(user.points, 0);
    assert_eq!(stake.last_update, i64::MIN);
}

#[test]
fn settle_saturates_the_elapsed_time() {
    let mut user = UserAccount { points: 0, amount_staked: 1, bump: 9 };
    let mut stake = stake_at(i64::MIN, i64::MIN);
    assert_eq!(settle_rewards(&mut user, &mut stake, 1, i64::MAX), Ok(()));
    assert_eq!(user.points, i64::MAX as u64);
    assert_eq!(stake.last_update, i64::MAX);
}

#[test]
fn settle_reports_overflow_of_the_balance() {
    let mut user = UserAccount { points: u64::MAX - 5, amount_staked: 1, bump: 9 };
    let mut stake = stake_at(0, 0);
    assert_eq!(settle_rewards(&mut user, &mut stake, 1, 6), Err(StakeError::Overflow));
    assert_eq!(user.points, u64::MAX - 5);
    assert_eq!(stake.last_update, 0);
    assert_eq!(settle_rewards(&mut user, &mut stake, 1, 5), Ok(()));
    assert_eq!(user.points, u64::MAX);
}

#[test]
fn staked_attribute_holds_the_count_in_decimal() {
    let list = staked_attribute(0);
    assert_eq!(list.len(), 1);
    assert_eq!(list[0].key, "staked");
    assert_eq!(list[0].value, "0");
    let list = staked_attribute(1234);
    assert_eq!(list[0].value, "1234");
    let list = staked_attribute(u32::MAX);
    assert_eq!(list[0].value, "4294967295");
}

#[test]
fn error_messages() {
    assert_eq!(
        StakeError::MaxStakeReached.message(),
        "User has reached the maximum number of staked assets"
    );
    assert_eq!(StakeError::FreezePeriodNotElapsed.message(), "The freeze period has not elapsed yet");
    assert_eq!(StakeError::NothingToClaim.message(), "There are no reward points to claim");
    assert_eq!(StakeError::Overflow.message(), "Arithmetic overflow");
}
