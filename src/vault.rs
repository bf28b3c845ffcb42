use vstd::prelude::*;

use crate::errors::CoinFlipError;

verus! {

/// The three balances the vault holds.
#[derive(Clone, Copy, Debug, PartialEq, Eq, Structural)]
pub enum Pool {
    /// Native currency held at the vault address.
    Native,
    /// The primary (stake) token pool.
    Primary,
    /// The reward token pool.
    Reward,
}

/// One movement of funds into or out of a vault pool, for the host to carry out.
#[derive(Clone, Copy, Debug, PartialEq, Eq, Structural)]
pub struct Transfer {
    pub pool: Pool,
    /// True where the funds enter the vault, false where they leave it.
    pub inbound: bool,
    pub amount: u64,
}

/// The vault's balances, as the transfer primitive sees them.
#[derive(Clone, Copy, Debug, PartialEq, Eq, Structural)]
pub struct VaultLedger {
    pub native: u64,
    pub primary: u64,
    pub reward: u64,
}

impl VaultLedger {
    pub open spec fn balance(self, pool: Pool) -> u64 {
        match pool {
            Pool::Native => self.native,
            Pool::Primary => self.primary,
            Pool::Reward => self.reward,
        }
    }

    pub open spec fn with_balance(self, pool: Pool, v: u64) -> VaultLedger {
        match pool {
            Pool::Native => VaultLedger { native: v, ..self },
            Pool::Primary => VaultLedger { primary: v, ..self },
            Pool::Reward => VaultLedger { reward: v, ..self },
        }
    }

    /// The balances after one transfer: an outbound one fails where the pool
    /// holds less than the amount, an inbound one where the sum leaves `u64`.
    pub open spec fn moved(self, t: Transfer) -> Result<VaultLedger, CoinFlipError> {
        let b = self.balance(t.pool);
        if t.inbound {
            if b + t.amount > u64::MAX {
                Err(CoinFlipError::Overflow)
            } else {
                Ok(self.with_balance(t.pool, (b + t.amount) as u64))
            }
        } else {
            if t.amount > b {
                Err(CoinFlipError::InsufficientFunds)
            } else {
                Ok(self.with_balance(t.pool, (b - t.amount) as u64))
            }
        }
    }

    /// The balances after a run of transfers, or the error of the first that fails.
    pub open spec fn settled(self, ts: Seq<Transfer>) -> Result<VaultLedger, CoinFlipError>
        decreases ts.len(),
    {
        if ts.len() == 0 {
            Ok(self)
        } else {
            match self.moved(ts[0]) {
                Ok(next) => next.settled(ts.drop_first()),
                Err(e) => Err(e),
            }
        }
    }

    fn set_balance(&mut self, pool: Pool, v: u64)
        ensures
            *final(self) == old(self).with_balance(pool, v),
    {
        match pool {
            Pool::Native => self.native = v,
            Pool::Primary => self.primary = v,
            Pool::Reward => self.reward = v,
        }
    }

    fn get_balance(&self, pool: Pool) -> (r: u64)
        ensures
            r == self.balance(pool),
    {
        match pool {
            Pool::Native => self.native,
            Pool::Primary => self.primary,
            Pool::Reward => self.reward,
        }
    }

    /// Carries out one transfer; on failure the balances stay as they were.
    pub fn apply(&mut self, t: Transfer) -> (r: Result<(), CoinFlipError>)
        ensures
            match old(self).moved(t) {
                Ok(n) => r is Ok && *final(self) == n,
                Err(e) => r == Err::<(), CoinFlipError>(e) && *final(self) == *old(self),
            },
    {
        let b = self.get_balance(t.pool);
        if t.inbound {
            match b.checked_add(t.amount) {
                Some(v) => {
                    self.set_balance(t.pool, v);
                    Ok(())
                },
                None => Err(CoinFlipError::Overflow),
            }
        } else {
            if t.amount > b {
                Err(CoinFlipError::InsufficientFunds)
            } else {
                self.set_balance(t.pool, b - t.amount);
                Ok(())
            }
        }
    }

    /// Carries out a run of transfers all or nothing: on the first failure the
    /// balances are left as they were before the run.
    pub fn apply_all(&mut self, ts: &Vec<Transfer>) -> (r: Result<(), CoinFlipError>)
        ensures
            match old(self).settled(ts@) {
                Ok(n) => r is Ok && *final(self) == n,
                Err(e) => r == Err::<(), CoinFlipError>(e) && *final(self) == *old(self),
            },
    {
        let start = *self;
        let mut cur = *self;
        let mut i: usize = 0;
        proof {
            assert(ts@.subrange(0, ts@.len() as int) =~= ts@);
        }
        while i < ts.len()
            invariant
                0 <= i <= ts@.len(),
                start == *old(self),
                *self == *old(self),
                start.settled(ts@) == cur.settled(ts@.subrange(i as int, ts@.len() as int)),
            decreases ts@.len() - i,
        {
            let t = ts[i];
            proof {
                let rest = ts@.subrange(i as int, ts@.len() as int);
                assert(rest[0] == t);
                assert(rest.drop_first() =~= ts@.subrange(i + 1, ts@.len() as int));
            }
            match cur.apply(t) {
                Ok(()) => {},
                Err(e) => {
                    return Err(e);
                },
            }
            i = i + 1;
        }
        proof {
            assert(ts@.subrange(i as int, ts@.len() as int) =~= Seq::<Transfer>::empty());
        }
        *self = cur;
        Ok(())
    }
}

} // verus!
