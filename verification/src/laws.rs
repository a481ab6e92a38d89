//! The laws of the ledger, proved over the abstract `Ledger` transitions.
//! Each operation of `token::CarbonToken` ensures that it takes the state
//! along the matching transition, so these laws hold of the executable
//! ledger as well.

use vstd::prelude::*;
use crate::ledger::{Error, Ledger};

verus! {

/// Conservation: a successful transfer moves value, it never creates or
/// destroys any — the sender's and recipient's balances sum to the same
/// total before and after.
pub proof fn lemma_transfer_conserves(pre: Ledger, caller: u64, from: u64, to: u64, amount: i128)
    ensures
        ({
            let (post, r) = pre.transfer_step(caller, from, to, amount);
            r == Ok::<(), Error>(()) ==> post.balance_of(from) + post.balance_of(to)
                == pre.balance_of(from) + pre.balance_of(to)
        }),
{
}

/// A transfer from an account to itself leaves the whole state unchanged.
pub proof fn lemma_self_transfer_unchanged(pre: Ledger, caller: u64, account: u64, amount: i128)
    ensures
        pre.transfer_step(caller, account, account, amount).0 == pre,
{
}

/// Non-negativity is established at the start: the initial ledger is
/// well-formed, and every balance in it is zero.
pub proof fn lemma_initial_wf()
    ensures
        Ledger::initial().wf(),
{
}

/// Non-negativity is preserved: each operation, applied to a well-formed
/// state, yields a well-formed state, so along any sequence of operations
/// from the initial ledger every stored balance stays non-negative.
pub proof fn lemma_steps_preserve_wf(
    pre: Ledger,
    caller: u64,
    from: u64,
    to: u64,
    amount: i128,
    category: u64,
)
    requires
        pre.wf(),
    ensures
        pre.init_step(caller, to).0.wf(),
        pre.mint_step(caller, to, amount).0.wf(),
        pre.transfer_step(caller, from, to, amount).0.wf(),
        pre.mint_badge_step(caller, to, category).0.wf(),
{
}

/// In a well-formed state every balance a query can return is non-negative.
pub proof fn lemma_wf_balance_nonnegative(l: Ledger, account: u64)
    requires
        l.wf(),
    ensures
        l.balance_of(account) >= 0,
{
}

/// Badges are monotonic: no operation revokes a badge — once held, a badge
/// is still held after any further operation.
pub proof fn lemma_badges_monotonic(
    pre: Ledger,
    caller: u64,
    from: u64,
    to: u64,
    amount: i128,
    category: u64,
    account: u64,
    held: u64,
)
    requires
        pre.holds_badge(account, held),
    ensures
        pre.init_step(caller, to).0.holds_badge(account, held),
        pre.mint_step(caller, to, amount).0.holds_badge(account, held),
        pre.transfer_step(caller, from, to, amount).0.holds_badge(account, held),
        pre.mint_badge_step(caller, to, category).0.holds_badge(account, held),
{
}

/// The authorization gate: mint and mint_badge fail with `Unauthorized`
/// whenever the caller is not the stored administrator, and transfer fails
/// with `Unauthorized` whenever the caller is not the sender; a failed gate
/// leaves the state unchanged.
pub proof fn lemma_authorization_gate(
    pre: Ledger,
    caller: u64,
    from: u64,
    to: u64,
    amount: i128,
    category: u64,
)
    ensures
        pre.admin is Some && pre.admin != Some(caller) ==> pre.mint_step(caller, to, amount) == (
            pre,
            Err::<(), Error>(Error::Unauthorized),
        ),
        pre.admin is Some && pre.admin != Some(caller) ==> pre.mint_badge_step(
            caller,
            to,
            category,
        ) == (pre, Err::<(), Error>(Error::Unauthorized)),
        caller != from ==> pre.transfer_step(caller, from, to, amount) == (
            pre,
            Err::<(), Error>(Error::Unauthorized),
        ),
        caller != to ==> pre.init_step(caller, to) == (pre, Err::<(), Error>(Error::Unauthorized)),
{
}

/// Default zero: in the initial ledger every account's balance is zero and
/// no badge is held.
pub proof fn lemma_default_zero(account: u64, category: u64)
    ensures
        Ledger::initial().balance_of(account) == 0,
        !Ledger::initial().holds_badge(account, category),
{
}

/// Frame: an operation touches no balance and no badge other than the ones
/// it names, so an account never named keeps its default. Together with
/// `lemma_default_zero` this gives default zero along any sequence of
/// operations.
pub proof fn lemma_frame(
    pre: Ledger,
    caller: u64,
    from: u64,
    to: u64,
    amount: i128,
    category: u64,
    account: u64,
    other: u64,
)
    ensures
        pre.init_step(caller, to).0.balance_of(account) == pre.balance_of(account),
        pre.init_step(caller, to).0.holds_badge(account, other) == pre.holds_badge(account, other),
        account != to ==> pre.mint_step(caller, to, amount).0.balance_of(account)
            == pre.balance_of(account),
        pre.mint_step(caller, to, amount).0.holds_badge(account, other) == pre.holds_badge(
            account,
            other,
        ),
        account != from && account != to ==> pre.transfer_step(
            caller,
            from,
            to,
            amount,
        ).0.balance_of(account) == pre.balance_of(account),
        pre.transfer_step(caller, from, to, amount).0.holds_badge(account, other)
            == pre.holds_badge(account, other),
        pre.mint_badge_step(caller, to, category).0.balance_of(account) == pre.balance_of(account),
        (account, other) != (to, category) ==> pre.mint_badge_step(
            caller,
            to,
            category,
        ).0.holds_badge(account, other) == pre.holds_badge(account, other),
{
}

} // verus!
