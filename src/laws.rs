use vstd::prelude::*;

use crate::account::{Key, GlobalState, UserState, mode_of};
use crate::errors::CoinFlipError;
use crate::game::{
    CoinFlip, flip_result, claim_result, pending_after, reward_of, roll_of, seed_of, wins,
    payout_pool,
};
use crate::treasury::{deposit_transfers, withdraw_result};
use crate::vault::{Pool, Transfer, VaultLedger};

verus! {

/// Payouts of the given amounts from the reward pool, in order.
pub open spec fn reward_payouts(amounts: Seq<u64>) -> Seq<Transfer>
    decreases amounts.len(),
{
    if amounts.len() == 0 {
        Seq::empty()
    } else {
        seq![Transfer { pool: Pool::Reward, inbound: false, amount: amounts[0] }] + reward_payouts(
            amounts.drop_first(),
        )
    }
}

/// The sum of the given amounts.
pub open spec fn total(amounts: Seq<u64>) -> int
    decreases amounts.len(),
{
    if amounts.len() == 0 {
        0
    } else {
        amounts[0] + total(amounts.drop_first())
    }
}

/// A wager on a tier index at or past the number of active tiers is rejected
/// as an invalid tier, whatever the clock, the oracle and the payment mode.
pub proof fn lemma_out_of_range_tier_rejected(
    g: GlobalState,
    ctx: CoinFlip,
    item_id: u8,
    game_mode: u8,
)
    requires
        item_id >= g.tiers@.len(),
    ensures
        flip_result(g, ctx, item_id, game_mode) == Err::<(UserState, Transfer), CoinFlipError>(
            CoinFlipError::InvalidTier,
        ),
{
}

/// After a successful wager the pending reward is zero or the tier's full
/// reward; where that reward is not zero, exactly one of the two holds.
pub proof fn lemma_pending_is_zero_or_reward(
    g: GlobalState,
    ctx: CoinFlip,
    item_id: u8,
    game_mode: u8,
)
    requires
        flip_result(g, ctx, item_id, game_mode) is Ok,
    ensures
        ({
            let u = flip_result(g, ctx, item_id, game_mode).unwrap().0;
            let tier = g.tiers@[item_id as int];
            &&& u.reward_amount == 0 || u.reward_amount == reward_of(
                tier.bet_amount,
                tier.reward_rate,
            )
            &&& reward_of(tier.bet_amount, tier.reward_rate) != 0 ==> ((u.reward_amount == 0) != (
            u.reward_amount == reward_of(tier.bet_amount, tier.reward_rate)))
        }),
{
}

/// A second wager before a claim replaces the pending reward with its own
/// outcome: what the first left pending is not added, it is discarded.
pub proof fn lemma_second_flip_replaces(
    g: GlobalState,
    first: CoinFlip,
    first_item: u8,
    first_mode: u8,
    second: CoinFlip,
    second_item: u8,
    second_mode: u8,
)
    requires
        flip_result(g, first, first_item, first_mode) is Ok,
        flip_result(g, second, second_item, second_mode) is Ok,
    ensures
        flip_result(g, second, second_item, second_mode).unwrap().0.reward_amount == pending_after(
            g.tiers@[second_item as int],
            seed_of(second),
        ),
{
}

/// A claim after a winning wager pays exactly the recorded reward from the
/// pool of the wager's currency and leaves nothing pending; a second claim
/// then moves nothing and leaves the vault's balances as they are.
pub proof fn lemma_claim_after_win(
    g: GlobalState,
    ctx: CoinFlip,
    item_id: u8,
    game_mode: u8,
    vault: VaultLedger,
)
    requires
        flip_result(g, ctx, item_id, game_mode) is Ok,
        wins(roll_of(seed_of(ctx)), g.tiers@[item_id as int].percentage),
        vault.balance(payout_pool(mode_of(game_mode as u32))) >= flip_result(
            g,
            ctx,
            item_id,
            game_mode,
        ).unwrap().0.reward_amount,
    ensures
        ({
            let u = flip_result(g, ctx, item_id, game_mode).unwrap().0;
            let tier = g.tiers@[item_id as int];
            let pool = payout_pool(mode_of(game_mode as u32));
            let paid = vault.with_balance(pool, (vault.balance(pool) - u.reward_amount) as u64);
            &&& u.reward_amount == reward_of(tier.bet_amount, tier.reward_rate)
            &&& claim_result(u, ctx.user) is Ok
            &&& claim_result(u, ctx.user).unwrap().0.reward_amount == 0
            &&& vault.settled(claim_result(u, ctx.user).unwrap().1) == Ok::<
                VaultLedger,
                CoinFlipError,
            >(paid)
            &&& claim_result(claim_result(u, ctx.user).unwrap().0, ctx.user) == Ok::<
                (UserState, Seq<Transfer>),
                CoinFlipError,
            >((claim_result(u, ctx.user).unwrap().0, Seq::empty()))
            &&& paid.settled(Seq::empty()) == Ok::<VaultLedger, CoinFlipError>(paid)
        }),
{
    let u = flip_result(g, ctx, item_id, game_mode).unwrap().0;
    let pool = payout_pool(mode_of(game_mode as u32));
    let paid = vault.with_balance(pool, (vault.balance(pool) - u.reward_amount) as u64);
    if u.reward_amount == 0 {
        assert(paid == vault);
    } else {
        let ts = claim_result(u, ctx.user).unwrap().1;
        assert(ts.drop_first() =~= Seq::<Transfer>::empty());
        assert(vault.moved(ts[0]) == Ok::<VaultLedger, CoinFlipError>(paid));
    }
}

proof fn lemma_payouts_within_pool(vault: VaultLedger, amounts: Seq<u64>)
    requires
        total(amounts) <= vault.reward,
    ensures
        vault.settled(reward_payouts(amounts)) == Ok::<VaultLedger, CoinFlipError>(
            VaultLedger { reward: (vault.reward - total(amounts)) as u64, ..vault },
        ),
    decreases amounts.len(),
{
    lemma_total_nonneg(amounts);
    if amounts.len() == 0 {
        assert(VaultLedger { reward: (vault.reward - total(amounts)) as u64, ..vault } == vault);
    } else {
        let ts = reward_payouts(amounts);
        let rest = amounts.drop_first();
        lemma_total_nonneg(rest);
        assert(ts.drop_first() =~= reward_payouts(rest));
        let next = VaultLedger { reward: (vault.reward - amounts[0]) as u64, ..vault };
        assert(vault.moved(ts[0]) == Ok::<VaultLedger, CoinFlipError>(next));
        lemma_payouts_within_pool(next, rest);
    }
}

proof fn lemma_total_nonneg(amounts: Seq<u64>)
    ensures
        total(amounts) >= 0,
    decreases amounts.len(),
{
    if amounts.len() > 0 {
        lemma_total_nonneg(amounts.drop_first());
    }
}

/// Payouts from the reward pool that together exceed its balance fail as
/// insufficient funds; the balance never goes below zero.
pub proof fn lemma_overdraw_fails(vault: VaultLedger, amounts: Seq<u64>)
    requires
        total(amounts) > vault.reward,
    ensures
        vault.settled(reward_payouts(amounts)) == Err::<VaultLedger, CoinFlipError>(
            CoinFlipError::InsufficientFunds,
        ),
    decreases amounts.len(),
{
    let ts = reward_payouts(amounts);
    let rest = amounts.drop_first();
    lemma_total_nonneg(rest);
    assert(ts.drop_first() =~= reward_payouts(rest));
    if amounts[0] <= vault.reward {
        let next = VaultLedger { reward: (vault.reward - amounts[0]) as u64, ..vault };
        assert(vault.moved(ts[0]) == Ok::<VaultLedger, CoinFlipError>(next));
        lemma_overdraw_fails(next, rest);
    }
}

/// A deposit of `amount` into the reward pool covers any run of payouts that
/// totals at most `amount`: every payout succeeds, and the pool ends with its
/// earlier balance plus the deposit less the payouts.
pub proof fn lemma_deposit_covers_payouts(vault: VaultLedger, amount: u64, amounts: Seq<u64>)
    requires
        vault.reward + amount <= u64::MAX,
        total(amounts) <= amount,
    ensures
        vault.settled(deposit_transfers(amount) + reward_payouts(amounts)) == Ok::<
            VaultLedger,
            CoinFlipError,
        >(VaultLedger { reward: (vault.reward + amount - total(amounts)) as u64, ..vault }),
{
    let ts = deposit_transfers(amount) + reward_payouts(amounts);
    assert(ts.drop_first() =~= reward_payouts(amounts));
    let funded = VaultLedger { reward: (vault.reward + amount) as u64, ..vault };
    assert(vault.moved(ts[0]) == Ok::<VaultLedger, CoinFlipError>(funded));
    lemma_payouts_within_pool(funded, amounts);
}

/// A tier whose percentage is zero still wins, on the single roll of zero.
pub proof fn lemma_zero_percent_wins_only_on_zero(roll: int)
    requires
        0 <= roll,
    ensures
        wins(roll, 0) <==> roll == 0,
        wins(roll_of(0), 0),
{
}

/// An aggregate withdrawal by anyone but the configured admin is rejected,
/// whatever the amounts.
pub proof fn lemma_withdraw_needs_admin(
    g: GlobalState,
    signer: Key,
    sol_amount: u64,
    woof_amount: u64,
    ticket_amount: u64,
)
    requires
        g.admin.bytes@ != signer.bytes@,
    ensures
        withdraw_result(g, signer, sol_amount, woof_amount, ticket_amount) == Err::<
            Seq<Transfer>,
            CoinFlipError,
        >(CoinFlipError::Unauthorized),
{
}

} // verus!
