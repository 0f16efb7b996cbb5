use vstd::prelude::*;

use crate::errors::RouterError;
use crate::types::AccountId;

verus! {

/// A caller's prepaid balance. The balance equals cumulative deposits minus
/// cumulative withdrawals; both operations are checked, so it can neither
/// wrap nor go negative.
#[derive(Clone, Copy, Debug, PartialEq, Eq, Structural)]
pub struct FeeVault {
    /// The owner the vault belongs to.
    pub authority: AccountId,
    /// Prepaid balance, in native units.
    pub balance: u64,
}

/// What a deposit does: the vault with `amount` added to its balance, or
/// `ArithmeticOverflow` if the sum does not fit in a balance.
pub open spec fn deposit_result(v: FeeVault, amount: u64) -> Result<FeeVault, RouterError> {
    if v.balance + amount > u64::MAX {
        Err(RouterError::ArithmeticOverflow)
    } else {
        Ok(FeeVault { authority: v.authority, balance: (v.balance + amount) as u64 })
    }
}

/// What a withdrawal does: the vault with `amount` taken from its balance,
/// or `InsufficientFees` if the balance cannot cover it.
pub open spec fn withdraw_result(v: FeeVault, amount: u64) -> Result<FeeVault, RouterError> {
    if amount > v.balance {
        Err(RouterError::InsufficientFees)
    } else {
        Ok(FeeVault { authority: v.authority, balance: (v.balance - amount) as u64 })
    }
}

impl FeeVault {
    /// Adds `amount` to the balance; fails with `ArithmeticOverflow`, and
    /// changes nothing, if the sum would not fit.
    pub fn deposit(&mut self, amount: u64) -> (r: Result<(), RouterError>)
        ensures
            match r {
                Ok(()) => deposit_result(*old(self), amount) == Ok::<FeeVault, RouterError>(
                    *final(self),
                ),
                Err(e) => deposit_result(*old(self), amount) == Err::<FeeVault, RouterError>(e)
                    && *final(self) == *old(self),
            },
    {
        match self.balance.checked_add(amount) {
            Some(b) => {
                self.balance = b;
                Ok(())
            },
            None => Err(RouterError::ArithmeticOverflow),
        }
    }

    /// Takes `amount` from the balance; fails with `InsufficientFees`, and
    /// changes nothing, if the balance cannot cover it.
    pub fn withdraw(&mut self, amount: u64) -> (r: Result<(), RouterError>)
        ensures
            match r {
                Ok(()) => withdraw_result(*old(self), amount) == Ok::<FeeVault, RouterError>(
                    *final(self),
                ),
                Err(e) => withdraw_result(*old(self), amount) == Err::<FeeVault, RouterError>(e)
                    && *final(self) == *old(self),
            },
    {
        if amount > self.balance {
            Err(RouterError::InsufficientFees)
        } else {
            self.balance = self.balance - amount;
            Ok(())
        }
    }

    /// Whether the balance covers `amount`.
    pub fn has_sufficient_balance(&self, amount: u64) -> (r: bool)
        ensures
            r == (self.balance >= amount),
    {
        self.balance >= amount
    }
}

/// Credits a deposit to the vault. The host moves the caller's native funds
/// into the vault's custody as an atomic side effect of the same operation;
/// it must not record that transfer if this fails.
pub fn deposit_fee(vault: &mut FeeVault, amount: u64) -> (r: Result<(), RouterError>)
    ensures
        match r {
            Ok(()) => deposit_result(*old(vault), amount) == Ok::<FeeVault, RouterError>(
                *final(vault),
            ),
            Err(e) => deposit_result(*old(vault), amount) == Err::<FeeVault, RouterError>(e)
                && *final(vault) == *old(vault),
        },
{
    vault.deposit(amount)
}

} // verus!
