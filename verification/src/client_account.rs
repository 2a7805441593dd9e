//! The per-client ledger account and its primitive balance operations.
//!
//! Every monetary field is a raw amount: a `u64` counting ten-thousandths of
//! the currency unit (see [`crate::amount`]). Non-negativity of `available`
//! and `held` therefore holds by the representation itself; the invariant
//! with content is conservation: `total == available + held`.

use vstd::prelude::*;

verus! {

/// A per-client account: funds usable now (`available`), funds frozen under
/// dispute (`held`), their sum (`total`), and a permanent `locked` flag set
/// by a chargeback.
#[derive(Clone, Copy, Debug, PartialEq, Eq)]
pub struct ClientAccount {
    pub client: u16,
    pub available: u64,
    pub held: u64,
    pub total: u64,
    pub locked: bool,
}

/// A freshly created account: all balances zero, unlocked.
pub open spec fn spec_new_account(client: u16) -> ClientAccount {
    ClientAccount { client, available: 0, held: 0, total: 0, locked: false }
}

/// Deposit: on an unlocked account, adds `amount` to `available` and `total`;
/// on a locked account, or where `total` would exceed the representable
/// range, the account is left unchanged.
pub open spec fn spec_deposit(a: ClientAccount, amount: u64) -> ClientAccount {
    if a.locked || a.total + amount > u64::MAX {
        a
    } else {
        ClientAccount {
            available: (a.available + amount) as u64,
            total: (a.total + amount) as u64,
            ..a
        }
    }
}

/// When a withdrawal succeeds: the account is unlocked and has the funds.
pub open spec fn spec_withdraw_ok(a: ClientAccount, amount: u64) -> bool {
    !a.locked && amount <= a.available
}

/// Withdrawal: subtracts `amount` from `available` and `total` exactly when
/// `spec_withdraw_ok` holds; otherwise the account is left unchanged.
pub open spec fn spec_withdraw(a: ClientAccount, amount: u64) -> ClientAccount {
    if spec_withdraw_ok(a, amount) {
        ClientAccount {
            available: (a.available - amount) as u64,
            total: (a.total - amount) as u64,
            ..a
        }
    } else {
        a
    }
}

/// The clamped sum a hold moves: never more than is available.
pub open spec fn spec_hold_moved(a: ClientAccount, amount: u64) -> u64 {
    if amount <= a.available {
        amount
    } else {
        a.available
    }
}

/// Hold: moves `min(amount, available)` from `available` to `held`, so a
/// dispute can never push `available` below zero. Unchanged if locked.
pub open spec fn spec_hold(a: ClientAccount, amount: u64) -> ClientAccount {
    if a.locked {
        a
    } else {
        ClientAccount {
            available: (a.available - spec_hold_moved(a, amount)) as u64,
            held: (a.held + spec_hold_moved(a, amount)) as u64,
            ..a
        }
    }
}

/// The clamped sum a release or chargeback moves: never more than is held.
pub open spec fn spec_release_moved(a: ClientAccount, amount: u64) -> u64 {
    if amount <= a.held {
        amount
    } else {
        a.held
    }
}

/// Release: moves `min(amount, held)` from `held` back to `available`.
/// Unchanged if locked.
pub open spec fn spec_release(a: ClientAccount, amount: u64) -> ClientAccount {
    if a.locked {
        a
    } else {
        ClientAccount {
            held: (a.held - spec_release_moved(a, amount)) as u64,
            available: (a.available + spec_release_moved(a, amount)) as u64,
            ..a
        }
    }
}

/// Chargeback: removes `min(amount, held)` from both `held` and `total`
/// (the funds are destroyed, not returned to `available`) and locks the
/// account. Unchanged, and still unlocked, if already locked.
pub open spec fn spec_chargeback(a: ClientAccount, amount: u64) -> ClientAccount {
    if a.locked {
        a
    } else {
        ClientAccount {
            held: (a.held - spec_release_moved(a, amount)) as u64,
            total: (a.total - spec_release_moved(a, amount)) as u64,
            locked: true,
            ..a
        }
    }
}

impl ClientAccount {
    /// Conservation of funds: the full balance is exactly the usable part
    /// plus the frozen part. `available >= 0` and `held >= 0` hold by the
    /// unsigned representation.
    pub open spec fn inv(self) -> bool {
        self.total == self.available + self.held
    }

    pub fn new(client: u16) -> (a: ClientAccount)
        ensures
            a == spec_new_account(client),
            a.inv(),
    {
        ClientAccount { client, available: 0, held: 0, total: 0, locked: false }
    }

    pub fn deposit(&mut self, amount: u64)
        requires
            old(self).inv(),
        ensures
            *final(self) == spec_deposit(*old(self), amount),
            final(self).inv(),
    {
        if self.locked {
            return;
        }
        if amount <= u64::MAX - self.total {
            self.available = self.available + amount;
            self.total = self.total + amount;
        }
    }

    /// Returns true, and moves the funds, only when the account is unlocked
    /// and `amount <= available`; otherwise nothing changes.
    pub fn withdraw(&mut self, amount: u64) -> (ok: bool)
        requires
            old(self).inv(),
        ensures
            ok == spec_withdraw_ok(*old(self), amount),
            *final(self) == spec_withdraw(*old(self), amount),
            final(self).inv(),
    {
        if self.locked || self.available < amount {
            return false;
        }
        self.available = self.available - amount;
        self.total = self.total - amount;
        true
    }

    pub fn hold(&mut self, amount: u64)
        requires
            old(self).inv(),
        ensures
            *final(self) == spec_hold(*old(self), amount),
            final(self).inv(),
    {
        if self.locked {
            return;
        }
        let moved = if amount <= self.available {
            amount
        } else {
            self.available
        };
        self.available = self.available - moved;
        self.held = self.held + moved;
    }

    pub fn release(&mut self, amount: u64)
        requires
            old(self).inv(),
        ensures
            *final(self) == spec_release(*old(self), amount),
            final(self).inv(),
    {
        if self.locked {
            return;
        }
        let moved = if amount <= self.held {
            amount
        } else {
            self.held
        };
        self.held = self.held - moved;
        self.available = self.available + moved;
    }

    pub fn chargeback(&mut self, amount: u64)
        requires
            old(self).inv(),
        ensures
            *final(self) == spec_chargeback(*old(self), amount),
            final(self).inv(),
    {
        if self.locked {
            return;
        }
        let moved = if amount <= self.held {
            amount
        } else {
            self.held
        };
        self.held = self.held - moved;
        self.total = self.total - moved;
        self.locked = true;
    }
}

} // verus!
