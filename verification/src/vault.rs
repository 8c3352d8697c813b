//! The escrow vault: the balance that backs one season's pool.

use vstd::prelude::*;
use crate::error::GorbageError;

verus! {

/// The funds held in escrow for one season. The balance never goes below zero and
/// never wraps: an operation that would do either is refused and changes nothing.
#[derive(Clone, Copy, Debug, PartialEq, Eq, Structural)]
pub struct Vault {
    pub season_id: u64,
    pub balance: u64,
}

impl Vault {
    /// An empty vault for the given season.
    pub fn new(season_id: u64) -> (vault: Vault)
        ensures
            vault == (Vault { season_id, balance: 0 }),
    {
        Vault { season_id, balance: 0 }
    }

    /// Adds `amount` to the balance; refused with `ArithmeticOverflow` exactly when
    /// the sum does not fit.
    pub fn deposit(&mut self, amount: u64) -> (result: Result<(), GorbageError>)
        ensures
            old(self).balance + amount <= u64::MAX ==> result is Ok && *final(self) == (Vault {
                balance: (old(self).balance + amount) as u64,
                ..*old(self)
            }),
            old(self).balance + amount > u64::MAX ==> result == Err::<(), GorbageError>(
                GorbageError::ArithmeticOverflow,
            ) && *final(self) == *old(self),
    {
        match self.balance.checked_add(amount) {
            Some(sum) => {
                self.balance = sum;
                Ok(())
            },
            None => Err(GorbageError::ArithmeticOverflow),
        }
    }

    /// Takes `amount` out of the balance; refused with `InsufficientFunds` exactly
    /// when `amount` exceeds the balance. Only the lifecycle operations withdraw.
    pub(crate) fn withdraw(&mut self, amount: u64) -> (result: Result<(), GorbageError>)
        ensures
            amount <= old(self).balance ==> result is Ok && *final(self) == (Vault {
                balance: (old(self).balance - amount) as u64,
                ..*old(self)
            }),
            amount > old(self).balance ==> result == Err::<(), GorbageError>(
                GorbageError::InsufficientFunds,
            ) && *final(self) == *old(self),
    {
        if amount > self.balance {
            return Err(GorbageError::InsufficientFunds);
        }
        self.balance = self.balance - amount;
        Ok(())
    }

    /// Empties the vault and returns what it held. Only closing a season drains.
    pub(crate) fn drain(&mut self) -> (swept: u64)
        ensures
            swept == old(self).balance,
            *final(self) == (Vault { balance: 0, ..*old(self) }),
    {
        let swept: u64 = self.balance;
        self.balance = 0;
        swept
    }
}

} // verus!
