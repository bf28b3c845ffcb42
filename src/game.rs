use vstd::prelude::*;

use crate::account::{
    Key, Tier, GlobalState, UserState, PaymentMode, mode_of, payment_mode, FEE_PERCENT,
    RATE_DECIMAL, ROLL_MODULUS, MODE_TOKEN,
};
use crate::errors::CoinFlipError;
use crate::vault::{Pool, Transfer};
use vstd::arithmetic::div_mod::lemma_fundamental_div_mod_converse_mod;

verus! {

/// What a wager reads from the host: the signer, the request's clock and the
/// oracle's latest answer.
#[derive(Clone, Copy, Debug)]
pub struct CoinFlip {
    pub user: Key,
    pub unix_timestamp: i64,
    pub answer: i64,
}

/// What a claim reads from the host: the signer.
#[derive(Clone, Copy, Debug)]
pub struct ClaimReward {
    pub user: Key,
}

/// The amount charged for a stake: the stake plus a `FEE_PERCENT` surcharge.
pub open spec fn pay_amount_of(stake: u64) -> int {
    stake + stake * FEE_PERCENT / 100
}

/// The surcharge is computed from `stake * FEE_PERCENT`, which must fit in `u64`.
pub open spec fn pay_amount_fits(stake: u64) -> bool {
    stake * FEE_PERCENT <= u64::MAX
}

/// What a winning wager pays: the stake scaled by the tier's rate.
pub open spec fn reward_of(stake: u64, rate: u32) -> int {
    stake * rate / RATE_DECIMAL as int
}

pub open spec fn reward_fits(stake: u64, rate: u32) -> bool {
    stake * rate <= u64::MAX
}

/// The roll that a seed gives: its (non-negative) remainder modulo `ROLL_MODULUS`.
pub open spec fn roll_of(seed: int) -> int {
    seed % ROLL_MODULUS as int
}

/// The seed of a wager: the request time times the oracle's answer.
pub open spec fn seed_of(ctx: CoinFlip) -> int {
    ctx.unix_timestamp * ctx.answer
}

pub open spec fn seed_fits(ctx: CoinFlip) -> bool {
    i64::MIN <= seed_of(ctx) <= i64::MAX
}

/// A roll wins where it does not exceed the tier's percentage: zero still wins on a roll of zero.
pub open spec fn wins(roll: int, percentage: u32) -> bool {
    roll <= percentage
}

/// The pool that a stake paid in `mode` enters.
pub open spec fn stake_pool(mode: PaymentMode) -> Pool {
    match mode {
        PaymentMode::Token => Pool::Primary,
        PaymentMode::Native => Pool::Native,
    }
}

/// The pool that a reward earned in `mode` is paid from.
pub open spec fn payout_pool(mode: PaymentMode) -> Pool {
    match mode {
        PaymentMode::Token => Pool::Reward,
        PaymentMode::Native => Pool::Native,
    }
}

/// The reward that a wager on `tier` leaves pending, given its seed.
pub open spec fn pending_after(tier: Tier, seed: int) -> u64 {
    if wins(roll_of(seed), tier.percentage) {
        reward_of(tier.bet_amount, tier.reward_rate) as u64
    } else {
        0
    }
}

/// The outcome of a wager: the user's new row and the stake to collect, or the
/// reason it is rejected. The new row replaces the old one whole.
pub open spec fn flip_result(
    g: GlobalState,
    ctx: CoinFlip,
    item_id: u8,
    game_mode: u8,
) -> Result<(UserState, Transfer), CoinFlipError> {
    if item_id >= g.tiers@.len() {
        Err(CoinFlipError::InvalidTier)
    } else {
        let tier = g.tiers@[item_id as int];
        if !pay_amount_fits(tier.bet_amount) || !seed_fits(ctx) || !reward_fits(
            tier.bet_amount,
            tier.reward_rate,
        ) {
            Err(CoinFlipError::Overflow)
        } else {
            Ok(
                (
                    UserState {
                        user: ctx.user,
                        reward_amount: pending_after(tier, seed_of(ctx)),
                        game_mode: game_mode as u32,
                    },
                    Transfer {
                        pool: stake_pool(mode_of(game_mode as u32)),
                        inbound: true,
                        amount: pay_amount_of(tier.bet_amount) as u64,
                    },
                ),
            )
        }
    }
}

/// The amount to collect for `stake`, or `None` where the checked arithmetic overflows.
pub fn pay_amount(stake: u64) -> (r: Option<u64>)
    ensures
        pay_amount_fits(stake) ==> r == Some(pay_amount_of(stake) as u64),
        pay_amount_fits(stake) ==> pay_amount_of(stake) <= u64::MAX,
        !pay_amount_fits(stake) ==> r is None,
{
    match stake.checked_mul(FEE_PERCENT) {
        Some(fee) => stake.checked_add(fee / 100),
        None => None,
    }
}

/// The reward of a win on `stake` at `rate`, or `None` where the product overflows.
pub fn reward(stake: u64, rate: u32) -> (r: Option<u64>)
    ensures
        reward_fits(stake, rate) ==> r == Some(reward_of(stake, rate) as u64),
        reward_fits(stake, rate) ==> 0 <= reward_of(stake, rate) <= u64::MAX,
        !reward_fits(stake, rate) ==> r is None,
{
    match stake.checked_mul(rate as u64) {
        Some(p) => {
            proof {
                assert(p / 100 <= p) by (nonlinear_arith)
                    requires p >= 0;
            }
            Some(p / RATE_DECIMAL)
        },
        None => None,
    }
}

/// The roll of a wager at `unix_timestamp` with oracle value `answer`, or
/// `None` where their product leaves `i64`.
///
/// The roll is predictable by anyone who can foresee the oracle's next value
/// or the request time: it is no source of secure randomness.
pub fn roll(unix_timestamp: i64, answer: i64) -> (r: Option<u32>)
    ensures
        i64::MIN <= unix_timestamp * answer <= i64::MAX ==> r == Some(
            roll_of(unix_timestamp * answer) as u32,
        ),
        i64::MIN <= unix_timestamp * answer <= i64::MAX ==> 0 <= roll_of(unix_timestamp * answer)
            < ROLL_MODULUS,
        !(i64::MIN <= unix_timestamp * answer <= i64::MAX) ==> r is None,
{
    match unix_timestamp.checked_mul(answer) {
        Some(c) => {
            if c >= 0 {
                let m: u64 = (c as u64) % ROLL_MODULUS;
                proof {
                    lemma_fundamental_div_mod_converse_mod(
                        c as int,
                        101,
                        (c as u64 / ROLL_MODULUS) as int,
                        m as int,
                    );
                }
                Some(m as u32)
            } else {
                let n: u64 = (-(c + 1)) as u64;
                let m: u64 = n % ROLL_MODULUS;
                proof {
                    let q = (n / ROLL_MODULUS) as int;
                    assert(n as int == q * 101 + m as int);
                    assert(c as int == (-q - 1) * 101 + (100 - m as int)) by (nonlinear_arith)
                        requires
                            n as int == q * 101 + m as int,
                            n as int == -(c as int + 1),
                    ;
                    lemma_fundamental_div_mod_converse_mod(c as int, 101, -q - 1, 100 - m as int);
                }
                Some((100 - m) as u32)
            }
        },
        None => None,
    }
}

/// Whether `roll` wins on a tier of `percentage`; the boundary is inclusive.
pub fn is_win(roll: u32, percentage: u32) -> (r: bool)
    ensures
        r == wins(roll as int, percentage),
{
    roll <= percentage
}

/// Resolves a wager on tier `item_id`, paid in the mode that `game_mode` codes.
///
/// On success the user's row is overwritten: its pending reward becomes the
/// reward of this wager on a win and zero on a loss, whatever was pending
/// before, and the transfer to collect the stake with its surcharge is
/// returned. On failure the row is left as it was.
pub fn coinflip(
    accts: &CoinFlip,
    global: &GlobalState,
    user_state: &mut UserState,
    item_id: u8,
    game_mode: u8,
) -> (r: Result<Transfer, CoinFlipError>)
    ensures
        match flip_result(*global, *accts, item_id, game_mode) {
            Ok((u, t)) => r == Ok::<Transfer, CoinFlipError>(t) && *final(user_state) == u,
            Err(e) => r == Err::<Transfer, CoinFlipError>(e) && *final(user_state) == *old(
                user_state,
            ),
        },
{
    let tier = match global.tier(item_id) {
        Ok(t) => t,
        Err(e) => {
            return Err(e);
        },
    };
    let amount = tier.bet_amount;
    let pay = match pay_amount(amount) {
        Some(p) => p,
        None => {
            return Err(CoinFlipError::Overflow);
        },
    };
    let r = match roll(accts.unix_timestamp, accts.answer) {
        Some(r) => r,
        None => {
            return Err(CoinFlipError::Overflow);
        },
    };
    let rew = match reward(amount, tier.reward_rate) {
        Some(v) => v,
        None => {
            return Err(CoinFlipError::Overflow);
        },
    };
    let pool = if game_mode == MODE_TOKEN {
        Pool::Primary
    } else {
        Pool::Native
    };
    user_state.user = accts.user;
    user_state.game_mode = game_mode as u32;
    if is_win(r, tier.percentage) {
        user_state.reward_amount = rew;
    } else {
        user_state.reward_amount = 0;
    }
    Ok(Transfer { pool, inbound: true, amount: pay })
}

/// The outcome of a claim by `signer`: the row with nothing pending and the
/// payout, if anything was pending; `Unauthorized` where the row is not the signer's.
pub open spec fn claim_result(u: UserState, signer: Key) -> Result<
    (UserState, Seq<Transfer>),
    CoinFlipError,
> {
    if u.user.bytes@ != signer.bytes@ {
        Err(CoinFlipError::Unauthorized)
    } else if u.reward_amount == 0 {
        Ok((u, Seq::empty()))
    } else {
        Ok(
            (
                UserState { reward_amount: 0, ..u },
                seq![
                    Transfer {
                        pool: payout_pool(mode_of(u.game_mode)),
                        inbound: false,
                        amount: u.reward_amount,
                    },
                ],
            ),
        )
    }
}

/// Settles the user's pending reward: zeroes it and returns the payout from
/// the pool of the wager's currency. With nothing pending it changes nothing.
pub fn claim_reward(accts: &ClaimReward, user_state: &mut UserState) -> (r: Result<
    Vec<Transfer>,
    CoinFlipError,
>)
    ensures
        match claim_result(*old(user_state), accts.user) {
            Ok((u, ts)) => r is Ok && r.unwrap()@ == ts && *final(user_state) == u,
            Err(e) => r == Err::<Vec<Transfer>, CoinFlipError>(e) && *final(user_state) == *old(
                user_state,
            ),
        },
{
    if !user_state.user.same(&accts.user) {
        return Err(CoinFlipError::Unauthorized);
    }
    let amount = user_state.reward_amount;
    user_state.reward_amount = 0;
    let mut out: Vec<Transfer> = Vec::new();
    if amount > 0 {
        let pool = match payment_mode(user_state.game_mode) {
            PaymentMode::Token => Pool::Reward,
            PaymentMode::Native => Pool::Native,
        };
        out.push(Transfer { pool, inbound: false, amount });
    }
    proof {
        if amount == 0 {
            assert(out@ =~= Seq::<Transfer>::empty());
        } else {
            assert(out@ =~= seq![Transfer { pool: payout_pool(mode_of(user_state.game_mode)), inbound: false, amount }]);
        }
    }
    Ok(out)
}

} // verus!
