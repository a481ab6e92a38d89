//! The abstract ledger: its state, one transition per operation, and the
//! errors the operations report.
//!
//! Accounts and badge categories are identified by `u64` values; balances are
//! signed `i128` amounts of the single asset. A missing balance entry means
//! zero, and a missing badge entry means "not held". The executable ledger in
//! `token` refines these transitions step by step.

use vstd::prelude::*;

verus! {

/// The ways an operation can fail. Every failure leaves the ledger unchanged.
#[derive(Clone, Copy, Debug, PartialEq, Eq, Structural)]
pub enum Error {
    /// A privileged operation ran before any administrator was stored.
    Uninitialized,
    /// The caller is not the identity the operation requires.
    Unauthorized,
    /// A transfer asked for more than the sender holds.
    InsufficientBalance,
    /// A mint or transfer was given a negative amount.
    InvalidAmount,
    /// Crediting the recipient would exceed the largest representable balance.
    Overflow,
}

/// The abstract state: the administrator (if initialized), the balance of
/// every account with a stored entry, and the set of held badges.
#[verifier::ext_equal]
pub struct Ledger {
    pub admin: Option<u64>,
    pub balances: Map<u64, i128>,
    pub badges: Set<(u64, u64)>,
}

impl Ledger {
    /// The state before any operation: no administrator, nothing stored.
    pub open spec fn initial() -> Ledger {
        Ledger { admin: None, balances: Map::empty(), badges: Set::empty() }
    }

    /// An account's balance; an account without a stored entry holds zero.
    pub open spec fn balance_of(self, account: u64) -> i128 {
        if self.balances.contains_key(account) {
            self.balances[account]
        } else {
            0
        }
    }

    /// Whether an account holds the badge of the given category.
    pub open spec fn holds_badge(self, account: u64, category: u64) -> bool {
        self.badges.contains((account, category))
    }

    /// Every stored balance is non-negative.
    pub open spec fn wf(self) -> bool {
        forall|a: u64| self.balances.contains_key(a) ==> self.balances[a] >= 0
    }

    /// `initialize(admin)`: the caller must be the new administrator; the
    /// identity is then stored as the trust root for privileged operations.
    pub open spec fn init_step(self, caller: u64, admin: u64) -> (Ledger, Result<(), Error>) {
        if caller != admin {
            (self, Err(Error::Unauthorized))
        } else {
            (Ledger { admin: Some(admin), ..self }, Ok(()))
        }
    }

    /// `mint(to, amount)`: only the stored administrator may credit freshly
    /// issued value to an account.
    pub open spec fn mint_step(self, caller: u64, to: u64, amount: i128) -> (
        Ledger,
        Result<(), Error>,
    ) {
        if self.admin is None {
            (self, Err(Error::Uninitialized))
        } else if self.admin != Some(caller) {
            (self, Err(Error::Unauthorized))
        } else if amount < 0 {
            (self, Err(Error::InvalidAmount))
        } else if self.balance_of(to) + amount > i128::MAX {
            (self, Err(Error::Overflow))
        } else {
            (
                Ledger {
                    balances: self.balances.insert(to, (self.balance_of(to) + amount) as i128),
                    ..self
                },
                Ok(()),
            )
        }
    }

    /// `transfer(from, to, amount)`: the caller must be the sender; the
    /// sender must hold at least `amount`, and both legs move together or
    /// not at all. A self-transfer leaves the state unchanged.
    pub open spec fn transfer_step(self, caller: u64, from: u64, to: u64, amount: i128) -> (
        Ledger,
        Result<(), Error>,
    ) {
        if caller != from {
            (self, Err(Error::Unauthorized))
        } else if amount < 0 {
            (self, Err(Error::InvalidAmount))
        } else if self.balance_of(from) < amount {
            (self, Err(Error::InsufficientBalance))
        } else if from == to {
            (self, Ok(()))
        } else if self.balance_of(to) + amount > i128::MAX {
            (self, Err(Error::Overflow))
        } else {
            (
                Ledger {
                    balances: self.balances.insert(
                        from,
                        (self.balance_of(from) - amount) as i128,
                    ).insert(to, (self.balance_of(to) + amount) as i128),
                    ..self
                },
                Ok(()),
            )
        }
    }

    /// `mint_badge(to, category)`: only the stored administrator may grant a
    /// badge; granting one already held changes nothing.
    pub open spec fn mint_badge_step(self, caller: u64, to: u64, category: u64) -> (
        Ledger,
        Result<(), Error>,
    ) {
        if self.admin is None {
            (self, Err(Error::Uninitialized))
        } else if self.admin != Some(caller) {
            (self, Err(Error::Unauthorized))
        } else {
            (Ledger { badges: self.badges.insert((to, category)), ..self }, Ok(()))
        }
    }
}

} // verus!
