//! The escrow ledger as the game sees it: balances, and an atomic transfer
//! between two of them.

use vstd::prelude::*;

verus! {

/// Why the ledger refused a transfer.
#[derive(Clone, Copy, Debug, PartialEq, Eq, Structural)]
pub enum LedgerError {
    /// The source holds less than the amount.
    InsufficientFunds,
    /// The destination cannot hold the amount on top of its balance.
    Overflow,
}

/// What the game reads of a token account: its balance.
#[derive(Clone, Copy, Debug, PartialEq, Eq, Structural)]
pub struct TokenAccount {
    pub amount: u64,
}

/// What the ledger answers to a transfer of `amount` from a balance `from`
/// to a balance `to`.
pub open spec fn transfer_outcome(from: u64, to: u64, amount: int) -> Result<(), LedgerError> {
    if from < amount {
        Err(LedgerError::InsufficientFunds)
    } else if to + amount > u64::MAX {
        Err(LedgerError::Overflow)
    } else {
        Ok(())
    }
}

/// Moves `amount` from `from` to `to`, or refuses and leaves both as they
/// were.
pub fn transfer(from: &mut TokenAccount, to: &mut TokenAccount, amount: u64) -> (done: Result<
    (),
    LedgerError,
>)
    ensures
        done == transfer_outcome(old(from).amount, old(to).amount, amount as int),
        done is Ok ==> final(from).amount == old(from).amount - amount && final(to).amount == old(
            to,
        ).amount + amount,
        done is Err ==> *final(from) == *old(from) && *final(to) == *old(to),
{
    if from.amount < amount {
        return Err(LedgerError::InsufficientFunds);
    }
    match to.amount.checked_add(amount) {
        None => Err(LedgerError::Overflow),
        Some(credited) => {
            from.amount = from.amount - amount;
            to.amount = credited;
            Ok(())
        },
    }
}

} // verus!
