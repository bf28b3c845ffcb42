use vstd::prelude::*;

use crate::account::{Key, Tier, GlobalState, MAX_TIERS, WOOFS_PER_SOL};
use crate::errors::CoinFlipError;
use crate::vault::{Pool, Transfer};

verus! {

/// Largest account data length that the host allows.
pub const MAX_DATA_LENGTH: usize = 10485760;

/// What initialisation reads from the host: the signing admin, the vault
/// address and the vault's current native balance.
#[derive(Clone, Copy, Debug)]
pub struct Initialize {
    pub admin: Key,
    pub vault: Key,
    pub vault_lamports: u64,
}

/// What an aggregate withdrawal reads from the host: the signer.
#[derive(Clone, Copy, Debug)]
pub struct WithdrawAll {
    pub admin: Key,
}

/// The lamports that an account of `data_len` bytes must hold to exist without
/// paying rent, under the host's default rent parameters.
pub uninterp spec fn rent_exempt_minimum_of(data_len: nat) -> u64;

/// Relies on `solana_program::rent::Rent::minimum_balance` of `Rent::default()`,
/// a function of the data length alone; it panics only where its product leaves `u64`.
#[verifier::external_body]
fn rent_exempt_minimum(data_len: usize) -> (r: u64)
    requires
        data_len <= MAX_DATA_LENGTH,
    ensures
        r == rent_exempt_minimum_of(data_len as nat),
{
    solana_program::rent::Rent::default().minimum_balance(data_len)
}

/// The native top-up that brings a vault holding `lamports` up to `minimum`
/// (and to at least one lamport); zero where it already holds enough.
pub open spec fn funding_of(minimum: u64, lamports: u64) -> u64 {
    let need: u64 = if minimum >= 1 {
        minimum
    } else {
        1
    };
    if need > lamports {
        (need - lamports) as u64
    } else {
        0
    }
}

/// The active tier table built from the first `n` entries of each input array.
pub open spec fn tier_table(bets: Seq<u64>, rates: Seq<u32>, pcts: Seq<u32>, n: nat) -> Seq<Tier> {
    Seq::new(n, |i: int| Tier { bet_amount: bets[i], reward_rate: rates[i], percentage: pcts[i] })
}

/// The top-up that keeps the vault account in existence.
pub fn vault_funding(minimum: u64, lamports: u64) -> (r: u64)
    ensures
        r == funding_of(minimum, lamports),
{
    let need = if minimum >= 1 {
        minimum
    } else {
        1
    };
    if need > lamports {
        need - lamports
    } else {
        0
    }
}

/// Builds the configuration from the first `item_count` tiers, with the
/// signer as admin, and returns it with the native transfer that funds the
/// vault to its rent-exempt minimum. More than `MAX_TIERS` tiers are refused.
pub fn initialize(
    accts: &Initialize,
    woof_mint: Key,
    ticket_mint: Key,
    bet_amounts: [u64; 10],
    reward_rates: [u32; 10],
    percentages: [u32; 10],
    item_count: u32,
) -> (r: Result<(GlobalState, Transfer), CoinFlipError>)
    ensures
        item_count > MAX_TIERS ==> r == Err::<(GlobalState, Transfer), CoinFlipError>(
            CoinFlipError::TooManyTiers,
        ),
        item_count <= MAX_TIERS ==> r is Ok,
        r matches Ok((g, t)) ==> {
            &&& g.wf()
            &&& g.admin == accts.admin
            &&& g.woof_mint == woof_mint
            &&& g.ticket_mint == ticket_mint
            &&& g.vault == accts.vault
            &&& g.tiers@ == tier_table(
                bet_amounts@,
                reward_rates@,
                percentages@,
                item_count as nat,
            )
            &&& t == (Transfer {
                pool: Pool::Native,
                inbound: true,
                amount: funding_of(rent_exempt_minimum_of(0), accts.vault_lamports),
            })
        },
{
    if item_count as usize > MAX_TIERS {
        return Err(CoinFlipError::TooManyTiers);
    }
    let n = item_count as usize;
    let mut tiers: Vec<Tier> = Vec::new();
    let mut i: usize = 0;
    while i < n
        invariant
            n == item_count,
            n <= MAX_TIERS,
            0 <= i <= n,
            tiers@ == tier_table(bet_amounts@, reward_rates@, percentages@, i as nat),
        decreases n - i,
    {
        tiers.push(
            Tier {
                bet_amount: bet_amounts[i],
                reward_rate: reward_rates[i],
                percentage: percentages[i],
            },
        );
        i = i + 1;
        proof {
            assert(tiers@ =~= tier_table(bet_amounts@, reward_rates@, percentages@, i as nat));
        }
    }
    let minimum = rent_exempt_minimum(0);
    let funding = vault_funding(minimum, accts.vault_lamports);
    let g = GlobalState {
        admin: accts.admin,
        woof_mint,
        ticket_mint,
        vault: accts.vault,
        tiers,
    };
    Ok((g, Transfer { pool: Pool::Native, inbound: true, amount: funding }))
}

/// The transfers that fund the reward pool with `amount`; anyone may fund it.
pub open spec fn deposit_transfers(amount: u64) -> Seq<Transfer> {
    seq![Transfer { pool: Pool::Reward, inbound: true, amount }]
}

/// Tops up the reward pool by `amount`.
pub fn deposit_reward(amount: u64) -> (r: Vec<Transfer>)
    ensures
        r@ == deposit_transfers(amount),
{
    let mut out: Vec<Transfer> = Vec::new();
    out.push(Transfer { pool: Pool::Reward, inbound: true, amount });
    proof {
        assert(out@ =~= deposit_transfers(amount));
    }
    out
}

/// The transfers of a purchase of primary tokens for `amount` native
/// currency at the fixed rate, or `Overflow` where the token amount leaves `u64`.
pub open spec fn buy_result(amount: u64) -> Result<Seq<Transfer>, CoinFlipError> {
    if amount * WOOFS_PER_SOL > u64::MAX {
        Err(CoinFlipError::Overflow)
    } else {
        Ok(
            seq![
                Transfer { pool: Pool::Native, inbound: true, amount },
                Transfer {
                    pool: Pool::Primary,
                    inbound: false,
                    amount: (amount * WOOFS_PER_SOL) as u64,
                },
            ],
        )
    }
}

/// Sells primary tokens from the vault for native currency at `WOOFS_PER_SOL`.
pub fn buy_woof_token(amount: u64) -> (r: Result<Vec<Transfer>, CoinFlipError>)
    ensures
        match buy_result(amount) {
            Ok(ts) => r is Ok && r.unwrap()@ == ts,
            Err(e) => r == Err::<Vec<Transfer>, CoinFlipError>(e),
        },
{
    let woof_amount = match amount.checked_mul(WOOFS_PER_SOL) {
        Some(w) => w,
        None => {
            return Err(CoinFlipError::Overflow);
        },
    };
    let mut out: Vec<Transfer> = Vec::new();
    out.push(Transfer { pool: Pool::Native, inbound: true, amount });
    out.push(Transfer { pool: Pool::Primary, inbound: false, amount: woof_amount });
    proof {
        assert(out@ =~= buy_result(amount).unwrap());
    }
    Ok(out)
}

/// A withdrawal of `amount` from `pool`; none where the amount is zero.
pub open spec fn outflow(pool: Pool, amount: u64) -> Seq<Transfer> {
    if amount > 0 {
        seq![Transfer { pool, inbound: false, amount }]
    } else {
        Seq::empty()
    }
}

/// The transfers of an aggregate withdrawal, or `Unauthorized` where the
/// signer is not the configured admin, whatever the amounts.
pub open spec fn withdraw_result(
    g: GlobalState,
    signer: Key,
    sol_amount: u64,
    woof_amount: u64,
    ticket_amount: u64,
) -> Result<Seq<Transfer>, CoinFlipError> {
    if g.admin.bytes@ != signer.bytes@ {
        Err(CoinFlipError::Unauthorized)
    } else {
        Ok(
            outflow(Pool::Native, sol_amount) + outflow(Pool::Primary, woof_amount) + outflow(
                Pool::Reward,
                ticket_amount,
            ),
        )
    }
}

fn push_outflow(out: &mut Vec<Transfer>, pool: Pool, amount: u64)
    ensures
        final(out)@ == old(out)@ + outflow(pool, amount),
{
    if amount > 0 {
        out.push(Transfer { pool, inbound: false, amount });
    }
    proof {
        assert(final(out)@ =~= old(out)@ + outflow(pool, amount));
    }
}

/// Lets the admin take the given amounts out of the native balance and the
/// two token pools; a zero amount skips that pool.
pub fn withdraw_all(
    accts: &WithdrawAll,
    global: &GlobalState,
    sol_amount: u64,
    woof_amount: u64,
    ticket_amount: u64,
) -> (r: Result<Vec<Transfer>, CoinFlipError>)
    ensures
        match withdraw_result(*global, accts.admin, sol_amount, woof_amount, ticket_amount) {
            Ok(ts) => r is Ok && r.unwrap()@ == ts,
            Err(e) => r == Err::<Vec<Transfer>, CoinFlipError>(e),
        },
{
    if !global.admin.same(&accts.admin) {
        return Err(CoinFlipError::Unauthorized);
    }
    let mut out: Vec<Transfer> = Vec::new();
    push_outflow(&mut out, Pool::Native, sol_amount);
    push_outflow(&mut out, Pool::Primary, woof_amount);
    push_outflow(&mut out, Pool::Reward, ticket_amount);
    proof {
        assert(out@ =~= withdraw_result(*global, accts.admin, sol_amount, woof_amount, ticket_amount).unwrap());
    }
    Ok(out)
}

} // verus!
