//! The executable ledger. `CarbonToken` stores the administrator, the
//! balances and the badges, and each operation is proved to take the state
//! along the matching transition of the abstract `Ledger` model.
//!
//! `credit` and `debit` are the two accounting primitives: they carry the
//! sign, sufficiency and overflow checks that every balance mutation goes
//! through, so an unverified caller that keeps balances elsewhere can reuse
//! exactly the checked arithmetic proved here.

use vstd::prelude::*;
use std::collections::HashMap;
use crate::ledger::{Error, Ledger};

verus! {

broadcast use vstd::std_specs::hash::group_hash_axioms;

/// Packs an account and a badge category into the single key under which the
/// badge flag is stored: the account in the high half, the category in the
/// low half, so distinct pairs get distinct keys.
pub open spec fn badge_key(account: u64, category: u64) -> u128 {
    ((account as u128) << 64) | (category as u128)
}

/// Distinct (account, category) pairs are stored under distinct keys.
pub proof fn lemma_badge_key_injective(a1: u64, c1: u64, a2: u64, c2: u64)
    ensures
        badge_key(a1, c1) == badge_key(a2, c2) ==> a1 == a2 && c1 == c2,
{
    assert((((a1 as u128) << 64) | (c1 as u128)) == (((a2 as u128) << 64) | (c2 as u128)) ==> a1
        == a2 && c1 == c2) by (bit_vector);
}

/// A balance after a credit: rejects negative amounts and any sum past
/// `i128::MAX`; otherwise returns the balance plus the amount.
pub fn credit(balance: i128, amount: i128) -> (r: Result<i128, Error>)
    ensures
        amount < 0 ==> r == Err::<i128, Error>(Error::InvalidAmount),
        amount >= 0 && balance + amount > i128::MAX ==> r == Err::<i128, Error>(Error::Overflow),
        amount >= 0 && balance + amount <= i128::MAX ==> r == Ok::<i128, Error>(
            (balance + amount) as i128,
        ),
{
    if amount < 0 {
        Err(Error::InvalidAmount)
    } else if balance > i128::MAX - amount {
        Err(Error::Overflow)
    } else {
        Ok(balance + amount)
    }
}

/// A balance after a debit: rejects negative amounts and any amount above the
/// balance; otherwise returns the balance minus the amount.
pub fn debit(balance: i128, amount: i128) -> (r: Result<i128, Error>)
    ensures
        amount < 0 ==> r == Err::<i128, Error>(Error::InvalidAmount),
        amount >= 0 && balance < amount ==> r == Err::<i128, Error>(Error::InsufficientBalance),
        amount >= 0 && balance >= amount ==> r == Ok::<i128, Error>((balance - amount) as i128),
{
    if amount < 0 {
        Err(Error::InvalidAmount)
    } else if balance < amount {
        Err(Error::InsufficientBalance)
    } else {
        Ok(balance - amount)
    }
}

/// The stored ledger: administrator, balances by account, and badge flags by
/// packed (account, category) key. Its view is the abstract `Ledger`.
pub struct CarbonToken {
    admin: Option<u64>,
    balances: HashMap<u64, i128>,
    badges: HashMap<u128, bool>,
}

impl View for CarbonToken {
    type V = Ledger;

    closed spec fn view(&self) -> Ledger {
        Ledger {
            admin: self.admin,
            balances: self.balances@,
            badges: Set::new(
                |p: (u64, u64)|
                    self.badges@.contains_key(badge_key(p.0, p.1)) && self.badges@[badge_key(
                        p.0,
                        p.1,
                    )],
            ),
        }
    }
}

impl CarbonToken {
    /// A fresh ledger: no administrator, every balance zero, no badge held.
    pub fn new() -> (token: CarbonToken)
        ensures
            token@ == Ledger::initial(),
    {
        let token = CarbonToken {
            admin: None,
            balances: HashMap::new(),
            badges: HashMap::new(),
        };
        token
    }

    /// Stores `admin` as the administrator; the caller must be that identity.
    pub fn initialize(&mut self, caller: u64, admin: u64) -> (r: Result<(), Error>)
        ensures
            ({
                let (post, step_r) = old(self)@.init_step(caller, admin);
                final(self)@ == post && r == step_r
            }),
    {
        if caller != admin {
            return Err(Error::Unauthorized);
        }
        self.admin = Some(admin);
        Ok(())
    }

    /// Credits `amount` of freshly issued value to `to`; the caller must be
    /// the stored administrator.
    pub fn mint(&mut self, caller: u64, to: u64, amount: i128) -> (r: Result<(), Error>)
        ensures
            ({
                let (post, step_r) = old(self)@.mint_step(caller, to, amount);
                final(self)@ == post && r == step_r
            }),
    {
        let admin: u64 = match self.admin {
            None => { return Err(Error::Uninitialized); },
            Some(a) => a,
        };
        if caller != admin {
            return Err(Error::Unauthorized);
        }
        let to_balance: i128 = self.balance(to);
        let new_balance: i128 = match credit(to_balance, amount) {
            Ok(b) => b,
            Err(e) => { return Err(e); },
        };
        self.balances.insert(to, new_balance);
        Ok(())
    }

    /// Moves `amount` from `from` to `to`; the caller must be the sender, the
    /// sender must hold at least `amount`, and either both legs happen or the
    /// state is left untouched.
    pub fn transfer(&mut self, caller: u64, from: u64, to: u64, amount: i128) -> (r: Result<
        (),
        Error,
    >)
        ensures
            ({
                let (post, step_r) = old(self)@.transfer_step(caller, from, to, amount);
                final(self)@ == post && r == step_r
            }),
    {
        if caller != from {
            return Err(Error::Unauthorized);
        }
        let from_balance: i128 = self.balance(from);
        let new_from: i128 = match debit(from_balance, amount) {
            Ok(b) => b,
            Err(e) => { return Err(e); },
        };
        if from == to {
            return Ok(());
        }
        let to_balance: i128 = self.balance(to);
        let new_to: i128 = match credit(to_balance, amount) {
            Ok(b) => b,
            Err(e) => { return Err(e); },
        };
        self.balances.insert(from, new_from);
        self.balances.insert(to, new_to);
        Ok(())
    }

    /// The account's balance; zero when the account was never credited.
    pub fn balance(&self, account: u64) -> (amount: i128)
        ensures
            amount == self@.balance_of(account),
    {
        match self.balances.get(&account) {
            Some(b) => *b,
            None => 0,
        }
    }

    /// Grants the badge of `category` to `to`; the caller must be the stored
    /// administrator. Granting a badge already held changes nothing.
    pub fn mint_badge(&mut self, caller: u64, to: u64, category: u64) -> (r: Result<(), Error>)
        ensures
            ({
                let (post, step_r) = old(self)@.mint_badge_step(caller, to, category);
                final(self)@ == post && r == step_r
            }),
    {
        let admin: u64 = match self.admin {
            None => { return Err(Error::Uninitialized); },
            Some(a) => a,
        };
        if caller != admin {
            return Err(Error::Unauthorized);
        }
        let key: u128 = ((to as u128) << 64) | (category as u128);
        self.badges.insert(key, true);
        proof {
            let post = old(self)@.mint_badge_step(caller, to, category).0;
            assert forall|p: (u64, u64)| self@.badges.contains(p) == post.badges.contains(p) by {
                lemma_badge_key_injective(p.0, p.1, to, category);
            }
            assert(self@.badges =~= post.badges);
            assert(self@ =~= post);
        }
        Ok(())
    }

    /// Whether `account` holds the badge of `category`; false when it was
    /// never granted.
    pub fn has_badge(&self, account: u64, category: u64) -> (held: bool)
        ensures
            held == self@.holds_badge(account, category),
    {
        let key: u128 = ((account as u128) << 64) | (category as u128);
        match self.badges.get(&key) {
            Some(b) => *b,
            None => false,
        }
    }
}

} // verus!
