use nft_staking::error::StakeError;
use nft_staking::instructions::claim::{self, Claim};
use nft_staking::instructions::initialize_collection::{self, InitializeCollection};
use nft_staking::instructions::initialize_config::{self, InitializeConfig};
use nft_staking::instructions::initialize_user::{self, InitializeUser};
use nft_staking::instructions::stake::{self, Stake};
use nft_staking::instructions::unstake::{self, Unstake};
use nft_staking::instructions::config_signer_seeds;
use nft_staking::instructions::unstake::stake_signer_seeds;
use nft_staking::mpl_core::mpl_core_id;
use nft_staking::state::{Pubkey, StakeAccount, StakeConfig, UserAccount};

fn key(b: u8) -> Pubkey {
    Pubkey { bytes: [b; 32] }
}

const OWNER: u8 = 1;
const ASSET: u8 = 2;
const COLLECTION: u8 = 3;
const CONFIG: u8 = 4;
const STAKE: u8 = 5;
const CORE: u8 = 6;
const SYSTEM: u8 = 7;

fn config(max_stake: u8, staked_count: u32) -> StakeConfig {
    StakeConfig {
        admin: key(20),
        collection: key(COLLECTION),
        points_per_stake: 10,
        max_stake,
        freeze_period: 100,
        staked_count,
        rewards_bump: 250,
        bump: 251,
    }
}

fn empty_stake() -> StakeAccount {
    StakeAccount { owner: key(0), asset: key(0), staked_at: 0, last_update: 0, bump: 0 }
}

fn stake_ctx(cfg: StakeConfig, user: UserAccount) -> Stake {
    Stake {
        owner: key(OWNER),
        config: cfg,
        config_key: key(CONFIG),
        user_account: user,
        stake_account: empty_stake(),
        stake_account_key: key(STAKE),
        asset: key(ASSET),
        collection: key(COLLECTION),
        mpl_core_program: key(CORE),
        system_program: key(SYSTEM),
    }
}

fn unstake_ctx(s: &Stake) -> Unstake {
    Unstake {
        owner: s.owner,
        config: s.config,
        config_key: s.config_key,
        user_account: s.user_account,
        stake_account: s.stake_account,
        stake_account_key: s.stake_account_key,
        asset: s.asset,
        collection: s.collection,
        mpl_core_program: s.mpl_core_program,
        system_program: s.system_program,
    }
}

fn full_stake(ctx: &mut Stake, now: i64, bump: u8) -> Result<(), StakeError> {
    stake::handler(ctx, now, bump)?;
    stake::finish(ctx)?;
    Ok(())
}

fn full_unstake(ctx: &mut Unstake, now: i64) -> Result<(), StakeError> {
    unstake::handler(ctx, now)?;
    unstake::finish(ctx)?;
    Ok(())
}

fn full_claim(ctx: &mut Claim, now: i64) -> Result<u64, StakeError> {
    claim::handler(ctx, now)?;
    Ok(claim::mint_rewards(ctx)?.amount)
}

fn staked_data(prefix: u8, count: &str) -> Vec<u8> {
    let mut data = vec![prefix, 6, 1, 0, 0, 0, 6, 0, 0, 0];
    data.extend_from_slice(b"staked");
    data.extend_from_slice(&(count.len() as u32).to_le_bytes());
    data.extend_from_slice(count.as_bytes());
    data
}

#[test]
fn initialize_config_records_the_rules() {
    let mut ctx = InitializeConfig {
        admin: key(20),
        config: StakeConfig {
            admin: key(0),
            collection: key(0),
            points_per_stake: 0,
            max_stake: 0,
            freeze_period: 0,
            staked_count: 77,
            rewards_bump: 0,
            bump: 0,
        },
        rewards_mint: key(21),
        collection: key(COLLECTION),
        token_program: key(22),
        system_program: key(SYSTEM),
    };
    initialize_config::handler(&mut ctx, 10, 3, 100, 250, 251);
    assert_eq!(ctx.config, config(3, 0));
}

#[test]
fn initialize_user_starts_empty() {
    let mut ctx = InitializeUser { owner: key(OWNER), user_account: UserAccount { points: 9, amount_staked: 9, bump: 9 } };
    initialize_user::handler(&mut ctx, 200);
    assert_eq!(ctx.user_account, UserAccount { points: 0, amount_staked: 0, bump: 200 });
}

#[test]
fn initialize_collection_adds_a_zero_count() {
    let ctx = InitializeCollection {
        payer: key(OWNER),
        config: config(3, 0),
        config_key: key(CONFIG),
        collection: key(COLLECTION),
        update_authority: key(30),
        mpl_core_program: key(CORE),
        system_program: key(SYSTEM),
    };
    let call = initialize_collection::handler(&ctx);
    assert!(call.signer_seeds.is_empty());
    assert_eq!(call.instruction.program_id, mpl_core_id());
    assert_eq!(call.instruction.accounts[0].pubkey, key(COLLECTION));
    assert_eq!(call.instruction.accounts[2].pubkey, key(30));
    let mut data = staked_data(3, "0");
    data.extend_from_slice(&[1, 3]);
    data.extend_from_slice(&[CONFIG; 32]);
    assert_eq!(call.instruction.data, data);
}

#[test]
fn stake_refused_at_max() {
    let mut ctx = stake_ctx(config(2, 5), UserAccount { points: 0, amount_staked: 2, bump: 9 });
    let before = ctx;
    assert_eq!(stake::handler(&mut ctx, 1000, 253).unwrap_err(), StakeError::MaxStakeReached);
    assert_eq!(ctx.user_account, before.user_account);
    assert_eq!(ctx.config, before.config);
    assert_eq!(ctx.stake_account, before.stake_account);
}

#[test]
fn stake_freezes_before_counting_overflow() {
    let mut ctx = stake_ctx(config(2, u32::MAX), UserAccount { points: 0, amount_staked: 0, bump: 9 });
    // The freeze call is made first; the count overflows afterwards.
    let freeze = stake::handler(&mut ctx, 1000, 253).unwrap();
    assert_eq!(freeze.instruction.data[0], 2);
    let before = ctx;
    assert_eq!(stake::finish(&mut ctx).unwrap_err(), StakeError::Overflow);
    assert_eq!(ctx.config.staked_count, u32::MAX);
    assert_eq!(ctx.user_account.amount_staked, 0);
    assert_eq!(ctx.stake_account, before.stake_account);
}

#[test]
fn stake_records_and_freezes() {
    let mut ctx = stake_ctx(config(2, 5), UserAccount { points: 3, amount_staked: 1, bump: 9 });
    let freeze = stake::handler(&mut ctx, 1000, 253).unwrap();
    assert_eq!(
        ctx.stake_account,
        StakeAccount { owner: key(OWNER), asset: key(ASSET), staked_at: 1000, last_update: 1000, bump: 253 }
    );
    // Nothing is counted until the freeze has been made.
    assert_eq!(ctx.user_account.amount_staked, 1);
    assert_eq!(ctx.config.staked_count, 5);
    // Freeze, delegated to the stake record, signed by the owner.
    assert!(freeze.signer_seeds.is_empty());
    let mut data = vec![2, 1, 1, 1, 3];
    data.extend_from_slice(&[STAKE; 32]);
    assert_eq!(freeze.instruction.data, data);
    assert_eq!(freeze.instruction.program_id, mpl_core_id());
    assert_eq!(freeze.instruction.accounts[0].pubkey, key(ASSET));
    assert_eq!(freeze.instruction.accounts[2].pubkey, key(OWNER));
    assert_eq!(freeze.instruction.accounts[3].pubkey, key(OWNER));
    assert_eq!(freeze.instruction.accounts[5].pubkey, mpl_core_id());

    let sync = stake::finish(&mut ctx).unwrap();
    assert_eq!(ctx.user_account, UserAccount { points: 3, amount_staked: 2, bump: 9 });
    assert_eq!(ctx.config.staked_count, 6);
    // The collection now shows six staked assets, signed by the config.
    assert_eq!(sync.instruction.data, staked_data(7, "6"));
    assert_eq!(sync.instruction.accounts[2].pubkey, key(CONFIG));
    assert_eq!(sync.signer_seeds, vec![b"config".to_vec(), vec![251]]);
}

#[test]
fn unstake_refused_during_freeze_period() {
    let mut s = stake_ctx(config(2, 0), UserAccount { points: 0, amount_staked: 0, bump: 9 });
    full_stake(&mut s, 1000, 253).unwrap();
    let mut ctx = unstake_ctx(&s);
    let before = ctx;
    assert_eq!(unstake::handler(&mut ctx, 1099).unwrap_err(), StakeError::FreezePeriodNotElapsed);
    assert_eq!(ctx.user_account, before.user_account);
    assert_eq!(ctx.stake_account, before.stake_account);
    assert_eq!(ctx.config, before.config);
}

#[test]
fn stake_then_unstake_restores_counts_and_pays_points() {
    let cfg = config(2, 4);
    let user = UserAccount { points: 7, amount_staked: 1, bump: 9 };
    let mut s = stake_ctx(cfg, user);
    full_stake(&mut s, 1000, 253).unwrap();
    let mut ctx = unstake_ctx(&s);
    let release = unstake::handler(&mut ctx, 1100).unwrap();
    assert_eq!(ctx.user_account, UserAccount { points: 7 + 100 * 10, amount_staked: 2, bump: 9 });
    assert_eq!(ctx.stake_account.last_update, 1100);
    assert_eq!(release.len(), 2);
    // Thaw, signed by the stake record.
    assert_eq!(release[0].instruction.data, vec![6, 1, 0]);
    assert_eq!(release[0].instruction.accounts[3].pubkey, key(STAKE));
    assert_eq!(
        release[0].signer_seeds,
        vec![b"stake".to_vec(), vec![ASSET; 32], vec![CONFIG; 32], vec![253]]
    );
    // Remove the freeze plugin, signed by the owner.
    assert_eq!(release[1].instruction.data, vec![4, 1]);
    assert_eq!(release[1].instruction.accounts[3].pubkey, key(OWNER));
    assert!(release[1].signer_seeds.is_empty());
    let sync = unstake::finish(&mut ctx).unwrap();
    assert_eq!(ctx.config, cfg);
    assert_eq!(ctx.user_account, UserAccount { points: 7 + 100 * 10, amount_staked: 1, bump: 9 });
    // The collection count goes back to four.
    assert_eq!(sync.instruction.data, staked_data(7, "4"));
    assert_eq!(sync.signer_seeds, vec![b"config".to_vec(), vec![251]]);
}

#[test]
fn unstake_releases_before_counting_underflow() {
    let mut s = stake_ctx(config(2, 0), UserAccount { points: 0, amount_staked: 0, bump: 9 });
    full_stake(&mut s, 1000, 253).unwrap();
    let mut ctx = unstake_ctx(&s);
    ctx.user_account.amount_staked = 0;
    assert_eq!(unstake::handler(&mut ctx, 2000).unwrap().len(), 2);
    assert_eq!(unstake::finish(&mut ctx).unwrap_err(), StakeError::Overflow);
    let mut ctx = unstake_ctx(&s);
    ctx.config.staked_count = 0;
    assert_eq!(full_unstake(&mut ctx, 2000).unwrap_err(), StakeError::Overflow);
}

fn claim_ctx(user: UserAccount, stake: StakeAccount, decimals: u8) -> Claim {
    Claim {
        owner: key(OWNER),
        config: config(2, 1),
        config_key: key(CONFIG),
        user_account: user,
        stake_account: stake,
        rewards_mint: key(40),
        rewards_mint_decimals: decimals,
        rewards_ata: key(41),
        token_program: key(42),
    }
}

#[test]
fn claim_mints_points_as_whole_tokens() {
    let stake = StakeAccount { owner: key(OWNER), asset: key(ASSET), staked_at: 0, last_update: 50, bump: 253 };
    let mut ctx = claim_ctx(UserAccount { points: 5, amount_staked: 1, bump: 9 }, stake, 6);
    claim::handler(&mut ctx, 60).unwrap();
    assert_eq!(ctx.user_account.points, 105);
    let call = claim::mint_rewards(&mut ctx).unwrap();
    assert_eq!(call.amount, (5 + 10 * 10) * 1_000_000);
    assert_eq!(call.mint, key(40));
    assert_eq!(call.to, key(41));
    assert_eq!(call.authority, key(CONFIG));
    assert_eq!(call.signer_seeds, vec![b"config".to_vec(), vec![251]]);
    assert_eq!(ctx.user_account.points, 0);
    assert_eq!(ctx.stake_account.last_update, 60);
    assert_eq!(ctx.stake_account.staked_at, 0);
    // Claiming again at once finds nothing.
    assert_eq!(full_claim(&mut ctx, 60).unwrap_err(), StakeError::NothingToClaim);
}

#[test]
fn claim_with_nothing_accrued() {
    let stake = StakeAccount { owner: key(OWNER), asset: key(ASSET), staked_at: 0, last_update: 50, bump: 253 };
    let mut ctx = claim_ctx(UserAccount { points: 0, amount_staked: 1, bump: 9 }, stake, 6);
    assert_eq!(full_claim(&mut ctx, 50).unwrap_err(), StakeError::NothingToClaim);
    assert_eq!(ctx.stake_account.last_update, 50);
}

#[test]
fn claim_reports_overflow_of_the_amount() {
    let stake = StakeAccount { owner: key(OWNER), asset: key(ASSET), staked_at: 0, last_update: 50, bump: 253 };
    let mut ctx = claim_ctx(UserAccount { points: 2, amount_staked: 1, bump: 9 }, stake, 19);
    assert_eq!(full_claim(&mut ctx, 50).unwrap_err(), StakeError::Overflow);
    assert_eq!(ctx.user_account.points, 2);
    let mut ctx = claim_ctx(UserAccount { points: 1, amount_staked: 1, bump: 9 }, stake, 19);
    assert_eq!(full_claim(&mut ctx, 50).unwrap(), 10_000_000_000_000_000_000);
    let mut ctx = claim_ctx(UserAccount { points: 3, amount_staked: 1, bump: 9 }, stake, 0);
    assert_eq!(full_claim(&mut ctx, 50).unwrap(), 3);
}

#[test]
fn claims_in_two_steps_add_up() {
    let stake = StakeAccount { owner: key(OWNER), asset: key(ASSET), staked_at: 0, last_update: 0, bump: 253 };
    let mut once = claim_ctx(UserAccount { points: 1, amount_staked: 1, bump: 9 }, stake, 2);
    let total = full_claim(&mut once, 90).unwrap();
    let mut twice = claim_ctx(UserAccount { points: 1, amount_staked: 1, bump: 9 }, stake, 2);
    let a = full_claim(&mut twice, 30).unwrap();
    let b = full_claim(&mut twice, 90).unwrap();
    assert_eq!(a + b, total);
}

#[test]
fn signer_seeds() {
    assert_eq!(config_signer_seeds(7), vec![b"config".to_vec(), vec![7]]);
    assert_eq!(
        stake_signer_seeds(&key(1), &key(2), 3),
        vec![b"stake".to_vec(), vec![1; 32], vec![2; 32], vec![3]]
    );
}
