//! The rules of each instruction, and the two helpers they share: the
//! attribute list that mirrors the staked count into the collection, and the
//! settlement of the reward points an asset has accrued.
use vstd::prelude::*;
use vstd::utf8::{encode_utf8, is_ascii_chars, is_ascii_chars_encode_utf8};

use crate::error::StakeError;
use crate::mpl_core::{attribute_list_view, attributes_fit, seeds_view, Attribute, AttributeText};
use crate::state::{StakeAccount, UserAccount};

pub mod claim;
pub mod initialize_collection;
pub mod initialize_config;
pub mod initialize_user;
pub mod stake;
pub mod unstake;

verus! {

/// The character of the decimal digit `d`.
pub open spec fn digit_char(d: nat) -> char {
    (48 + d) as char
}

/// The decimal digits of `n`, most significant first, without leading zeros.
pub open spec fn decimal(n: nat) -> Seq<char>
    decreases n,
{
    if n < 10 {
        seq![digit_char(n)]
    } else {
        decimal(n / 10).push(digit_char(n % 10))
    }
}

/// The number that the decimal digits `s` stand for.
pub open spec fn digits_value(s: Seq<char>) -> nat
    decreases s.len(),
{
    if s.len() == 0 {
        0
    } else {
        10 * digits_value(s.drop_last()) + ((s.last() as int - 48) as nat)
    }
}

/// `decimal(n)` is the decimal representation of `n`: it is made of the
/// digits `0` to `9`, reads back as `n`, and starts with `0` only when it is
/// `0` itself.
pub proof fn decimal_reads_back(n: nat)
    ensures
        decimal(n).len() >= 1,
        forall|i: int| 0 <= i < decimal(n).len() ==> '0' <= #[trigger] decimal(n)[i] <= '9',
        digits_value(decimal(n)) == n,
        decimal(n)[0] == '0' ==> n == 0,
    decreases n,
{
    assert(digit_char(n % 10) as int == 48 + n % 10);
    if n < 10 {
        assert(decimal(n).drop_last() =~= Seq::<char>::empty());
        assert(digits_value(decimal(n)) == 10 * digits_value(Seq::<char>::empty()) + (
        n as int));
    } else {
        decimal_reads_back(n / 10);
        let d = decimal(n);
        assert(digits_value(d) == 10 * digits_value(d.drop_last()) + ((d.last() as int
            - 48) as nat));
        assert(d.drop_last() =~= decimal(n / 10));
        assert(forall|i: int| 0 <= i < d.len() - 1 ==> d[i] == decimal(n / 10)[i]);
        assert(d[0] == decimal(n / 10)[0]);
    }
}

/// `decimal(n)` is ASCII and has at most `k` digits when `n < 10^k`.
pub proof fn lemma_decimal_ascii_and_short(n: nat, k: nat, bound: nat)
    requires
        k >= 1,
        bound == pow10(k),
        n < bound,
    ensures
        is_ascii_chars(decimal(n)),
        decimal(n).len() <= k,
    decreases n,
{
    if n >= 10 {
        assert(k >= 2) by {
            if k == 1 {
                assert(pow10(1) == 10) by {
                    reveal_with_fuel(pow10, 2);
                }
            }
        }
        let k1 = (k - 1) as nat;
        assert(pow10(k) == 10 * pow10(k1));
        assert(n / 10 < pow10(k1));
        lemma_decimal_ascii_and_short(n / 10, k1, pow10(k1));
        let d = decimal(n);
        assert(forall|i: int| 0 <= i < d.len() - 1 ==> d[i] == decimal(n / 10)[i]);
    }
}

/// Ten to the power `k`.
pub open spec fn pow10(k: nat) -> nat
    decreases k,
{
    if k == 0 {
        1
    } else {
        10 * pow10((k - 1) as nat)
    }
}

/// `u32::to_string`: the decimal representation of `n`.
#[verifier::external_body]
fn u32_to_string(n: u32) -> (s: String)
    ensures
        s@ == decimal(n as nat),
{
    n.to_string()
}

/// The attribute list that the collection plugin stores: one `staked` entry
/// whose value is the count in decimal.
pub open spec fn staked_attribute_text(count: nat) -> Seq<AttributeText> {
    seq![("staked"@, decimal(count))]
}

/// Build the single-entry attribute list the collection plugin stores.
pub fn staked_attribute(count: u32) -> (list: Vec<Attribute>)
    ensures
        attribute_list_view(list@) == staked_attribute_text(count as nat),
        attributes_fit(attribute_list_view(list@)),
{
    let key = String::from_str("staked");
    let value = u32_to_string(count);
    let mut list = Vec::new();
    list.push(Attribute { key, value });
    proof {
        reveal_strlit("staked");
        assert(is_ascii_chars("staked"@));
        is_ascii_chars_encode_utf8("staked"@);
        assert(pow10(10) == 10000000000) by {
            reveal_with_fuel(pow10, 11);
        }
        lemma_decimal_ascii_and_short(count as nat, 10, pow10(10));
        is_ascii_chars_encode_utf8(decimal(count as nat));
        assert(attribute_list_view(list@) =~= staked_attribute_text(count as nat));
    }
    list
}

/// The seeds of the config's program address, with its bump.
pub open spec fn config_seeds(bump: u8) -> Seq<Seq<u8>> {
    seq![encode_utf8("config"@), seq![bump]]
}

/// The seeds with which the config's program address signs.
pub fn config_signer_seeds(bump: u8) -> (seeds: Vec<Vec<u8>>)
    ensures
        seeds_view(seeds@) == config_seeds(bump),
{
    let mut bump_seed = Vec::new();
    bump_seed.push(bump);
    let mut seeds = Vec::new();
    seeds.push("config".as_bytes_vec());
    seeds.push(bump_seed);
    assert(seeds_view(seeds@) =~= config_seeds(bump));
    seeds
}

/// `now - last`, clamped to the range of `i64` as `i64::saturating_sub` does.
pub open spec fn elapsed_since(now: i64, last: i64) -> int {
    let d = now - last;
    if d > i64::MAX {
        i64::MAX as int
    } else if d < i64::MIN {
        i64::MIN as int
    } else {
        d
    }
}

/// `now.saturating_sub(last)`.
pub fn saturating_elapsed(now: i64, last: i64) -> (d: i64)
    ensures
        d == elapsed_since(now, last),
{
    match now.checked_sub(last) {
        Some(d) => d,
        None => if now > last {
            i64::MAX
        } else {
            i64::MIN
        },
    }
}

/// The accounts after the points accrued since `stake.last_update` are moved
/// into the user's balance at time `now`, at `points_per_stake` points per
/// second; an error when the points do not fit a `u64`.
pub open spec fn settle_spec(
    user: UserAccount,
    stake: StakeAccount,
    points_per_stake: u8,
    now: i64,
) -> Result<(UserAccount, StakeAccount), StakeError> {
    let elapsed = elapsed_since(now, stake.last_update);
    if elapsed <= 0 {
        Ok((user, stake))
    } else {
        let earned = elapsed * points_per_stake;
        if earned > u64::MAX || user.points + earned > u64::MAX {
            Err(StakeError::Overflow)
        } else {
            Ok(
                (
                    UserAccount { points: (user.points + earned) as u64, ..user },
                    StakeAccount { last_update: now, ..stake },
                ),
            )
        }
    }
}

/// Move the points an asset has accrued since `last_update` into the user's
/// unclaimed balance, then advance `last_update`. Shared by claim and unstake.
/// On an error neither account changes.
pub fn settle_rewards(
    user: &mut UserAccount,
    stake: &mut StakeAccount,
    points_per_stake: u8,
    now: i64,
) -> (r: Result<(), StakeError>)
    ensures
        match settle_spec(*old(user), *old(stake), points_per_stake, now) {
            Ok((u, s)) => r is Ok && *final(user) == u && *final(stake) == s,
            Err(e) => r == Err::<(), StakeError>(e) && *final(user) == *old(user) && *final(stake)
                == *old(stake),
        },
{
    let elapsed = saturating_elapsed(now, stake.last_update);
    if elapsed > 0 {
        let earned = match (elapsed as u64).checked_mul(points_per_stake as u64) {
            Some(e) => e,
            None => {
                return Err(StakeError::Overflow);
            },
        };
        user.points = match user.points.checked_add(earned) {
            Some(p) => p,
            None => {
                return Err(StakeError::Overflow);
            },
        };
        stake.last_update = now;
    }
    Ok(())
}

/// Settling twice at the same time gives what settling once gives: the second
/// settlement finds nothing accrued.
pub proof fn settle_is_idempotent(
    user: UserAccount,
    stake: StakeAccount,
    points_per_stake: u8,
    now: i64,
)
    ensures
        settle_spec(user, stake, points_per_stake, now) matches Ok((u, s)) ==> settle_spec(
            u,
            s,
            points_per_stake,
            now,
        ) == Ok::<(UserAccount, StakeAccount), StakeError>((u, s)),
{
}

/// How often rewards are settled does not change what they amount to:
/// settling at `t1` and then at `t2` gives the same accounts, or the same
/// error, as settling once at `t2`. This holds whenever the asset was last
/// settled no later than `t1`, `t1 <= t2`, and `t2 - last_update` fits an `i64`
/// (beyond that, a single settlement is cut short by the saturating
/// subtraction).
pub proof fn settle_in_two_steps_is_settle_in_one(
    user: UserAccount,
    stake: StakeAccount,
    points_per_stake: u8,
    t1: i64,
    t2: i64,
)
    requires
        stake.last_update <= t1 <= t2,
        t2 - stake.last_update <= i64::MAX,
    ensures
        match settle_spec(user, stake, points_per_stake, t1) {
            Ok((u1, s1)) => settle_spec(u1, s1, points_per_stake, t2) == settle_spec(
                user,
                stake,
                points_per_stake,
                t2,
            ),
            Err(e) => settle_spec(user, stake, points_per_stake, t2) == Err::<
                (UserAccount, StakeAccount),
                StakeError,
            >(e),
        },
{
    let p = points_per_stake as int;
    let e1 = t1 - stake.last_update;
    let e2 = t2 - t1;
    assert(e1 * p + e2 * p == (e1 + e2) * p) by (nonlinear_arith);
    assert(0 <= e1 * p <= (e1 + e2) * p) by (nonlinear_arith)
        requires
            0 <= e1,
            0 <= e2,
            0 <= p,
    ;
    assert(0 <= e2 * p) by (nonlinear_arith)
        requires
            0 <= e2,
            0 <= p,
    ;
}

} // verus!
