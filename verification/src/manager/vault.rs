use vstd::prelude::*;

use crate::account::{checked_transfer, NativeAccount, TransferError};
use crate::address::Address;
use crate::derivation::{is_vault_proof, option_view, proves_vault};
use crate::manager::state::ErrorCode;

verus! {

/// The first reason, if any, for which `amount` cannot leave a vault for a
/// recipient: the derived address is not the vault's, the vault holds too
/// little, or the recipient cannot hold the sum.
pub open spec fn vault_transfer_error(
    vault: NativeAccount,
    recipient: NativeAccount,
    amount: int,
    vault_proof: Option<Seq<u8>>,
) -> Option<ErrorCode> {
    if !proves_vault(vault_proof, vault.key) {
        Some(ErrorCode::Unauthorized)
    } else if vault.lamports < amount {
        Some(ErrorCode::InsufficientFunds)
    } else if recipient.lamports + amount > u64::MAX {
        Some(ErrorCode::ArithmeticOverflow)
    } else {
        None
    }
}

/// Moves `amount` out of a vault. A vault has no key that could sign for it:
/// the payment is authorized by the address that was derived anew from the
/// salt in the agent's record, which must be the vault's own. Returns the
/// vault and the recipient as they are after the payment.
pub fn transfer_from_vault(
    vault: &NativeAccount,
    recipient: &NativeAccount,
    amount: u64,
    vault_proof: &Option<Address>,
) -> (r: Result<(NativeAccount, NativeAccount), ErrorCode>)
    ensures
        match r {
            Ok((vault_after, recipient_after)) => {
                &&& vault_transfer_error(
                    *vault,
                    *recipient,
                    amount as int,
                    option_view(*vault_proof),
                ) is None
                &&& vault_after.key == vault.key
                &&& vault_after.lamports == vault.lamports - amount
                &&& recipient_after.key == recipient.key
                &&& recipient_after.lamports == recipient.lamports + amount
            },
            Err(e) => vault_transfer_error(
                *vault,
                *recipient,
                amount as int,
                option_view(*vault_proof),
            ) == Some(e),
        },
{
    if !is_vault_proof(vault_proof, &vault.key) {
        return Err(ErrorCode::Unauthorized);
    }
    match checked_transfer(vault.lamports, recipient.lamports, amount) {
        Ok((vault_lamports, recipient_lamports)) => Ok(
            (
                NativeAccount { key: vault.key, lamports: vault_lamports },
                NativeAccount { key: recipient.key, lamports: recipient_lamports },
            ),
        ),
        Err(TransferError::InsufficientFunds) => Err(ErrorCode::InsufficientFunds),
        Err(TransferError::Overflow) => Err(ErrorCode::ArithmeticOverflow),
    }
}

} // verus!
