use vstd::prelude::*;

use crate::address::Address;

verus! {

/// An account that holds native currency, in its smallest unit.
#[derive(Clone, Copy, Debug, PartialEq, Eq)]
pub struct NativeAccount {
    pub key: Address,
    pub lamports: u64,
}

/// A holder's balance of a token.
#[derive(Clone, Copy, Debug, PartialEq, Eq)]
pub struct TokenAccount {
    pub amount: u64,
}

/// A token: its identity and its total outstanding supply.
#[derive(Clone, Copy, Debug, PartialEq, Eq)]
pub struct Mint {
    pub key: Address,
    pub supply: u64,
}

/// Why a movement of native currency cannot take place.
#[derive(Clone, Copy, Debug, PartialEq, Eq, Structural)]
pub enum TransferError {
    /// The paying account holds less than the amount.
    InsufficientFunds,
    /// The receiving account's balance would exceed what an account can hold.
    Overflow,
}

/// Why moving `amount` from a balance of `from` to a balance of `to` fails,
/// if it does.
pub open spec fn transfer_error(from: u64, to: u64, amount: u64) -> Option<TransferError> {
    if from < amount {
        Some(TransferError::InsufficientFunds)
    } else if to + amount > u64::MAX {
        Some(TransferError::Overflow)
    } else {
        None
    }
}

/// The balances of payer and payee after `amount` has moved from one to the
/// other, or the reason why it cannot move. Nothing is lost or created: the
/// two balances keep their sum.
pub fn checked_transfer(from: u64, to: u64, amount: u64) -> (r: Result<(u64, u64), TransferError>)
    ensures
        match r {
            Ok((from_after, to_after)) => {
                &&& transfer_error(from, to, amount) is None
                &&& from_after == from - amount
                &&& to_after == to + amount
            },
            Err(e) => transfer_error(from, to, amount) == Some(e),
        },
{
    if from < amount {
        return Err(TransferError::InsufficientFunds);
    }
    match to.checked_add(amount) {
        Some(to_after) => Ok((from - amount, to_after)),
        None => Err(TransferError::Overflow),
    }
}

} // verus!
