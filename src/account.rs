use vstd::prelude::*;

use crate::errors::CoinFlipError;

verus! {

/// Number of slots in the tier table.
pub const MAX_TIERS: usize = 10;

/// Fixed-point scale of a tier's reward rate: a rate of `RATE_DECIMAL` pays the stake back once.
pub const RATE_DECIMAL: u64 = 100;

/// Surcharge on every stake, in percent of the stake.
pub const FEE_PERCENT: u64 = 2;

/// Exclusive upper bound of the pseudo-random roll.
pub const ROLL_MODULUS: u64 = 101;

/// Primary tokens handed out per unit of native currency.
pub const WOOFS_PER_SOL: u64 = 1000;

/// Payment-mode code for a stake paid in the primary token.
pub const MODE_TOKEN: u8 = 0;

/// A 32-byte account identity.
#[derive(Clone, Copy, Debug)]
pub struct Key {
    pub bytes: [u8; 32],
}

impl Key {
    /// Whether two identities are the same account.
    pub fn same(&self, other: &Key) -> (r: bool)
        ensures
            r == (self.bytes@ == other.bytes@),
    {
        let mut i: usize = 0;
        while i < 32
            invariant
                0 <= i <= 32,
                self.bytes@.len() == 32,
                other.bytes@.len() == 32,
                forall|j: int| 0 <= j < i ==> self.bytes@[j] == other.bytes@[j],
            decreases 32 - i,
        {
            if self.bytes[i] != other.bytes[i] {
                return false;
            }
            i = i + 1;
        }
        proof {
            assert(self.bytes@ =~= other.bytes@);
        }
        true
    }
}

/// One wager option: what is staked, what a win pays per `RATE_DECIMAL`, and
/// the highest roll that still wins.
#[derive(Clone, Copy, Debug)]
pub struct Tier {
    pub bet_amount: u64,
    pub reward_rate: u32,
    pub percentage: u32,
}

/// The program-wide configuration, written once at initialisation.
#[derive(Debug)]
pub struct GlobalState {
    pub admin: Key,
    pub woof_mint: Key,
    pub ticket_mint: Key,
    pub vault: Key,
    /// The active tiers, in order; never more than `MAX_TIERS`.
    pub tiers: Vec<Tier>,
}

impl GlobalState {
    pub open spec fn wf(&self) -> bool {
        self.tiers@.len() <= MAX_TIERS
    }

    /// Number of active tiers.
    pub fn item_count(&self) -> (r: u32)
        requires
            self.wf(),
        ensures
            r == self.tiers@.len(),
    {
        self.tiers.len() as u32
    }

    /// The tier at `item_id`, or `InvalidTier` where the index is past the active tiers.
    pub fn tier(&self, item_id: u8) -> (r: Result<Tier, CoinFlipError>)
        ensures
            (item_id < self.tiers@.len()) ==> r == Ok::<Tier, CoinFlipError>(
                self.tiers@[item_id as int],
            ),
            (item_id >= self.tiers@.len()) ==> r == Err::<Tier, CoinFlipError>(
                CoinFlipError::InvalidTier,
            ),
    {
        if (item_id as usize) < self.tiers.len() {
            Ok(self.tiers[item_id as usize])
        } else {
            Err(CoinFlipError::InvalidTier)
        }
    }
}

/// The currency of a stake, and so of the reward it may earn.
#[derive(Clone, Copy, Debug, PartialEq, Eq, Structural)]
pub enum PaymentMode {
    /// Staked in the primary token; a reward is paid in the reward token.
    Token,
    /// Staked and rewarded in native currency.
    Native,
}

/// The mode that a stored mode code stands for: zero is the token, anything else native.
pub open spec fn mode_of(code: u32) -> PaymentMode {
    if code == MODE_TOKEN as u32 {
        PaymentMode::Token
    } else {
        PaymentMode::Native
    }
}

/// Reads a stored mode code.
pub fn payment_mode(code: u32) -> (r: PaymentMode)
    ensures
        r == mode_of(code),
{
    if code == MODE_TOKEN as u32 {
        PaymentMode::Token
    } else {
        PaymentMode::Native
    }
}

/// One user's ledger row: the reward of the latest wager, not yet claimed.
#[derive(Clone, Copy, Debug)]
pub struct UserState {
    pub user: Key,
    pub reward_amount: u64,
    pub game_mode: u32,
}

} // verus!
