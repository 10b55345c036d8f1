//! One client's balances and the five balance-mutating operations.

use vstd::prelude::*;

use crate::amount::Amount;

verus! {

/// Why an account refused a balance change.
#[derive(Clone, Copy, Debug, PartialEq, Eq, Structural)]
pub enum AccountError {
    /// The account is locked: a chargeback happened earlier, and a locked
    /// account accepts no further balance-mutating operation.
    Locked,
    /// The requested amount exceeds the relevant balance (`available` for
    /// withdrawals and disputes, `held` for resolutions and chargebacks).
    InsufficientFunds,
}

/// The outcome of one balance-mutating operation.
pub type AccountResult = Result<(), AccountError>;

/// One client's balances: funds freely at the client's disposal
/// (`available`), funds frozen pending dispute resolution (`held`), and
/// whether a chargeback has permanently locked the account.
///
/// The client's full balance — the *total* — is `available + held`; it is
/// derived on demand by [`Account::get_total`] and never stored.
#[derive(Clone, Copy, Debug, PartialEq, Eq, Structural)]
pub struct Account {
    /// Funds the client can freely withdraw or have disputed.
    pub available: Amount,
    /// Funds frozen pending dispute resolution; not withdrawable.
    pub held: Amount,
    /// Terminal state after a chargeback: no further mutation succeeds.
    pub locked: bool,
}

impl Account {
    /// Well-formedness: both balances are non-negative, and the total
    /// fits the amount representation (so it can always be computed).
    pub open spec fn inv(self) -> bool {
        &&& 0 <= self.available.units
        &&& 0 <= self.held.units
        &&& self.available.units + self.held.units <= i64::MAX
    }

    /// The client's full balance, `available + held`, as a mathematical
    /// integer.
    pub open spec fn spec_total(self) -> int {
        self.available.units + self.held.units
    }
}

/// A fresh account: zero balances, unlocked. Accounts are created lazily,
/// on the first event that names their client.
pub open spec fn fresh_account() -> Account {
    Account { available: Amount { units: 0 }, held: Amount { units: 0 }, locked: false }
}

/// What depositing does: on a locked account, refuse and change nothing;
/// otherwise add the amount to `available`. A deposit never fails on
/// balance grounds.
pub open spec fn spec_deposit(a: Account, amount: Amount) -> (Account, AccountResult) {
    if a.locked {
        (a, Err(AccountError::Locked))
    } else {
        (
            Account {
                available: Amount { units: (a.available.units + amount.units) as i64 },
                held: a.held,
                locked: a.locked,
            },
            Ok(()),
        )
    }
}

/// What withdrawing does: refuse on a locked account, refuse when
/// `available` does not cover the amount; otherwise subtract it from
/// `available`.
pub open spec fn spec_withdraw(a: Account, amount: Amount) -> (Account, AccountResult) {
    if a.locked {
        (a, Err(AccountError::Locked))
    } else if a.available.units < amount.units {
        (a, Err(AccountError::InsufficientFunds))
    } else {
        (
            Account {
                available: Amount { units: (a.available.units - amount.units) as i64 },
                held: a.held,
                locked: a.locked,
            },
            Ok(()),
        )
    }
}

/// What disputing does: refuse on a locked account, refuse when
/// `available` no longer covers the amount (funds already spent cannot be
/// placed on hold); otherwise move the amount from `available` to `held`.
pub open spec fn spec_dispute(a: Account, amount: Amount) -> (Account, AccountResult) {
    if a.locked {
        (a, Err(AccountError::Locked))
    } else if a.available.units < amount.units {
        (a, Err(AccountError::InsufficientFunds))
    } else {
        (
            Account {
                available: Amount { units: (a.available.units - amount.units) as i64 },
                held: Amount { units: (a.held.units + amount.units) as i64 },
                locked: a.locked,
            },
            Ok(()),
        )
    }
}

/// What resolving does: refuse on a locked account, refuse when `held`
/// does not cover the amount; otherwise move the amount back from `held`
/// to `available`.
pub open spec fn spec_resolve(a: Account, amount: Amount) -> (Account, AccountResult) {
    if a.locked {
        (a, Err(AccountError::Locked))
    } else if a.held.units < amount.units {
        (a, Err(AccountError::InsufficientFunds))
    } else {
        (
            Account {
                available: Amount { units: (a.available.units + amount.units) as i64 },
                held: Amount { units: (a.held.units - amount.units) as i64 },
                locked: a.locked,
            },
            Ok(()),
        )
    }
}

/// What a chargeback does: refuse on a locked account, refuse when `held`
/// does not cover the amount; otherwise remove the amount from `held` for
/// good and lock the account — irreversibly.
pub open spec fn spec_chargeback(a: Account, amount: Amount) -> (Account, AccountResult) {
    if a.locked {
        (a, Err(AccountError::Locked))
    } else if a.held.units < amount.units {
        (a, Err(AccountError::InsufficientFunds))
    } else {
        (
            Account {
                available: a.available,
                held: Amount { units: (a.held.units - amount.units) as i64 },
                locked: true,
            },
            Ok(()),
        )
    }
}

impl Account {
    /// A fresh account: zero balances, unlocked.
    pub fn new() -> (r: Account)
        ensures
            r == fresh_account(),
    {
        Account { available: Amount { units: 0 }, held: Amount { units: 0 }, locked: false }
    }

    /// Adds `amount` to the available balance, per [`spec_deposit`].
    ///
    /// The caller must rule out overflow of the total balance; deposits
    /// are otherwise infallible on an unlocked account.
    pub fn deposit(&mut self, amount: Amount) -> (r: AccountResult)
        requires
            old(self).inv(),
            0 <= amount.units,
            !old(self).locked ==> old(self).spec_total() + amount.units <= i64::MAX,
        ensures
            final(self).inv(),
            (*final(self), r) == spec_deposit(*old(self), amount),
    {
        if self.locked {
            return Err(AccountError::Locked);
        }
        self.available.units = self.available.units + amount.units;
        Ok(())
    }

    /// Removes `amount` from the available balance, per [`spec_withdraw`].
    pub fn withdraw(&mut self, amount: Amount) -> (r: AccountResult)
        requires
            old(self).inv(),
            0 <= amount.units,
        ensures
            final(self).inv(),
            (*final(self), r) == spec_withdraw(*old(self), amount),
    {
        if self.locked {
            return Err(AccountError::Locked);
        }
        if self.available.units < amount.units {
            return Err(AccountError::InsufficientFunds);
        }
        self.available.units = self.available.units - amount.units;
        Ok(())
    }

    /// Moves `amount` from the available to the held balance, per
    /// [`spec_dispute`].
    pub fn dispute(&mut self, amount: Amount) -> (r: AccountResult)
        requires
            old(self).inv(),
            0 <= amount.units,
        ensures
            final(self).inv(),
            (*final(self), r) == spec_dispute(*old(self), amount),
    {
        if self.locked {
            return Err(AccountError::Locked);
        }
        if self.available.units < amount.units {
            return Err(AccountError::InsufficientFunds);
        }
        self.available.units = self.available.units - amount.units;
        self.held.units = self.held.units + amount.units;
        Ok(())
    }

    /// Moves `amount` back from the held to the available balance, per
    /// [`spec_resolve`].
    pub fn resolve(&mut self, amount: Amount) -> (r: AccountResult)
        requires
            old(self).inv(),
            0 <= amount.units,
        ensures
            final(self).inv(),
            (*final(self), r) == spec_resolve(*old(self), amount),
    {
        if self.locked {
            return Err(AccountError::Locked);
        }
        if self.held.units < amount.units {
            return Err(AccountError::InsufficientFunds);
        }
        self.held.units = self.held.units - amount.units;
        self.available.units = self.available.units + amount.units;
        Ok(())
    }

    /// Removes `amount` from the held balance and locks the account, per
    /// [`spec_chargeback`].
    pub fn chargeback(&mut self, amount: Amount) -> (r: AccountResult)
        requires
            old(self).inv(),
            0 <= amount.units,
        ensures
            final(self).inv(),
            (*final(self), r) == spec_chargeback(*old(self), amount),
    {
        if self.locked {
            return Err(AccountError::Locked);
        }
        if self.held.units < amount.units {
            return Err(AccountError::InsufficientFunds);
        }
        self.held.units = self.held.units - amount.units;
        self.locked = true;
        Ok(())
    }

    /// The client's full balance, `available + held`.
    pub fn get_total(&self) -> (r: Amount)
        requires
            self.inv(),
        ensures
            r.units == self.spec_total(),
    {
        Amount { units: self.available.units + self.held.units }
    }
}

/// Law: depositing then withdrawing the same positive amount on an
/// unlocked account succeeds both times and restores the account exactly
/// — in particular, `available` returns to its pre-deposit value.
pub proof fn lemma_deposit_withdraw_round_trip(a: Account, amount: Amount)
    requires
        a.inv(),
        !a.locked,
        0 < amount.units,
        a.spec_total() + amount.units <= i64::MAX,
    ensures
        spec_deposit(a, amount).1 == Ok::<(), AccountError>(()),
        spec_withdraw(spec_deposit(a, amount).0, amount).1 == Ok::<(), AccountError>(()),
        spec_withdraw(spec_deposit(a, amount).0, amount).0 == a,
{
}

} // verus!
