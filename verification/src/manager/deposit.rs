use vstd::prelude::*;

use crate::account::{checked_transfer, NativeAccount, TransferError};
use crate::address::Address;
use crate::manager::events::FundsDepositedEvent;
use crate::manager::state::{AgentState, ErrorCode};

verus! {

/// The accounts that a deposit reads and changes. Each field stands for an
/// account of its own.
#[derive(Clone, Debug, PartialEq, Eq)]
pub struct DepositFunds {
    /// The agent's ledger record.
    pub agent_state: AgentState,
    /// The address of the ledger record.
    pub agent_key: Address,
    /// The agent's vault, which receives the funds.
    pub vault: NativeAccount,
    /// The account that pays. Anyone may deposit.
    pub depositor: NativeAccount,
}

/// The first reason, if any, for which a deposit is refused.
pub open spec fn deposit_error(ctx: DepositFunds, amount: u64) -> Option<ErrorCode> {
    if amount == 0 {
        Some(ErrorCode::InvalidAmount)
    } else if ctx.depositor.lamports < amount {
        Some(ErrorCode::InsufficientFunds)
    } else if ctx.vault.lamports + amount > u64::MAX {
        Some(ErrorCode::ArithmeticOverflow)
    } else {
        None
    }
}

/// The accounts after a deposit that is not refused: the amount has moved
/// from the depositor to the vault. Both balances are within range when
/// `deposit_error` finds no fault.
pub open spec fn deposit_effect(ctx: DepositFunds, amount: u64) -> DepositFunds {
    DepositFunds {
        vault: NativeAccount { lamports: (ctx.vault.lamports + amount) as u64, ..ctx.vault },
        depositor: NativeAccount {
            lamports: (ctx.depositor.lamports - amount) as u64,
            ..ctx.depositor
        },
        ..ctx
    }
}

/// What a deposit does: the accounts after it, or the reason for which it is
/// refused.
pub open spec fn deposit_outcome(ctx: DepositFunds, amount: u64) -> Result<
    DepositFunds,
    ErrorCode,
> {
    match deposit_error(ctx, amount) {
        Some(e) => Err(e),
        None => Ok(deposit_effect(ctx, amount)),
    }
}

/// The record of a deposit.
pub open spec fn deposit_event(ctx: DepositFunds, amount: u64, timestamp: i64) -> FundsDepositedEvent {
    FundsDepositedEvent {
        agent: ctx.agent_key,
        depositor: ctx.depositor.key,
        amount,
        timestamp,
    }
}

/// Moves `amount` from the depositor into the agent's vault. The ledger
/// record is left as it is. Either both balances change or neither.
pub fn deposit_funds(ctx: &mut DepositFunds, amount: u64, timestamp: i64) -> (r: Result<
    FundsDepositedEvent,
    ErrorCode,
>)
    ensures
        match r {
            Ok(event) => {
                &&& deposit_outcome(*old(ctx), amount) == Ok::<DepositFunds, ErrorCode>(
                    *final(ctx),
                )
                &&& event == deposit_event(*old(ctx), amount, timestamp)
            },
            Err(e) => {
                &&& deposit_outcome(*old(ctx), amount) == Err::<DepositFunds, ErrorCode>(e)
                &&& *final(ctx) == *old(ctx)
            },
        },
        final(ctx).agent_state == old(ctx).agent_state,
{
    if amount == 0 {
        return Err(ErrorCode::InvalidAmount);
    }
    let (depositor_after, vault_after) = match checked_transfer(
        ctx.depositor.lamports,
        ctx.vault.lamports,
        amount,
    ) {
        Ok(balances) => balances,
        Err(TransferError::InsufficientFunds) => {
            return Err(ErrorCode::InsufficientFunds);
        },
        Err(TransferError::Overflow) => {
            return Err(ErrorCode::ArithmeticOverflow);
        },
    };
    ctx.depositor.lamports = depositor_after;
    ctx.vault.lamports = vault_after;
    Ok(
        FundsDepositedEvent {
            agent: ctx.agent_key,
            depositor: ctx.depositor.key,
            amount,
            timestamp,
        },
    )
}

} // verus!
