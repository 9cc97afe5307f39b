//! The value-ledger model: a token account with an explicit delegated
//! allowance.
//!
//! The underlying transfer capability grants a delegate a bounded spend
//! over a holder's account; granting again replaces the previous bound
//! rather than adding to it, and every delegated transfer consumes part of
//! it.  This module keeps that allowance as a plain field and maintains it
//! on every operation.

use vstd::prelude::*;

verus! {

/// One token account: its balance and the allowance currently delegated
/// to the platform's transfer-execution identity.
#[derive(Clone, Debug, PartialEq, Eq)]
pub struct TokenAccount {
    /// Tokens held by the account.
    pub amount: u64,
    /// Portion of `amount` the platform delegate may currently move on
    /// the holder's behalf.
    pub delegated_amount: u64,
}

/// Grants the platform delegate a spending allowance of exactly
/// `amount`, replacing - not extending - any allowance granted before.
pub fn approve_delegate(account: &mut TokenAccount, amount: u64)
    ensures
        *final(account) == (TokenAccount { delegated_amount: amount, ..*old(account) }),
{
    account.delegated_amount = amount;
}

/// Withdraws the platform delegate's whole remaining allowance; the
/// balance itself is untouched.
pub fn revoke_delegate(account: &mut TokenAccount)
    ensures
        *final(account) == (TokenAccount { delegated_amount: 0, ..*old(account) }),
{
    account.delegated_amount = 0;
}

/// Moves `amount` tokens from `from` to `to` under the platform's
/// delegated authority, consuming that much of the allowance.  The caller
/// must have established that the balance and the allowance cover the
/// transfer and that the recipient can absorb it.
pub fn transfer_delegated(from: &mut TokenAccount, to: &mut TokenAccount, amount: u64)
    requires
        amount <= old(from).amount,
        amount <= old(from).delegated_amount,
        old(to).amount + amount <= u64::MAX,
    ensures
        *final(from) == (TokenAccount {
            amount: (old(from).amount - amount) as u64,
            delegated_amount: (old(from).delegated_amount - amount) as u64,
        }),
        *final(to) == (TokenAccount { amount: (old(to).amount + amount) as u64, ..*old(to) }),
{
    from.amount = from.amount - amount;
    from.delegated_amount = from.delegated_amount - amount;
    to.amount = to.amount + amount;
}

} // verus!
