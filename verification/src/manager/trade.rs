use vstd::prelude::*;

use crate::account::NativeAccount;
use crate::address::Address;
use crate::derivation::{derive_vault_address, option_view, vault_capability};
use crate::manager::events::TradeExecutedEvent;
use crate::manager::state::{AgentState, AgentStatus, ErrorCode};
use crate::manager::vault::{transfer_from_vault, vault_transfer_error};

verus! {

/// The share of a realized profit that goes to the platform: one part in
/// this many, rounded down.
pub const PLATFORM_FEE_DIVISOR: u64 = 100;

/// The accounts that the settlement of a trade reads and changes. Each field
/// stands for an account of its own.
#[derive(Clone, Debug, PartialEq, Eq)]
pub struct ExecuteTrade {
    /// The agent's ledger record.
    pub agent_state: AgentState,
    /// The address of the ledger record.
    pub agent_key: Address,
    /// The agent's vault.
    pub vault: NativeAccount,
    /// The platform's treasury, which receives the fee.
    pub treasury: NativeAccount,
    /// The identity that submits the trade.
    pub signer: Address,
    /// The program for which the vault's address is derived.
    pub program_id: Address,
}

/// What a trade has gained: the output beyond the input, or nothing.
pub open spec fn profit_of(amount: u64, actual_output: u64) -> int {
    if actual_output > amount {
        actual_output - amount
    } else {
        0
    }
}

/// The platform's cut of a profit: a hundredth of it, rounded down.
pub open spec fn platform_fee_of(profit: int) -> int {
    profit / (PLATFORM_FEE_DIVISOR as int)
}

/// What is left of a profit for the token holders once the platform's cut
/// is taken.
pub open spec fn holder_revenue_of(profit: int) -> int {
    profit - platform_fee_of(profit)
}

/// The platform fee and the holders' revenue of a trade.
pub fn split_profit(amount: u64, actual_output: u64) -> (split: (u64, u64))
    ensures
        split.0 == platform_fee_of(profit_of(amount, actual_output)),
        split.1 == holder_revenue_of(profit_of(amount, actual_output)),
{
    if actual_output > amount {
        let profit: u64 = actual_output - amount;
        let platform_fee: u64 = profit / PLATFORM_FEE_DIVISOR;
        (platform_fee, profit - platform_fee)
    } else {
        (0, 0)
    }
}

/// The first reason, if any, for which a trade is refused. The vault's
/// capability is asked for only where a fee has to leave the vault.
pub open spec fn trade_error(
    ctx: ExecuteTrade,
    vault_proof: Option<Seq<u8>>,
    amount: u64,
    actual_output: u64,
) -> Option<ErrorCode> {
    let profit = profit_of(amount, actual_output);
    let fee = platform_fee_of(profit);
    if ctx.signer != ctx.agent_state.agent_wallet {
        Some(ErrorCode::Unauthorized)
    } else if ctx.agent_state.status != AgentStatus::Active {
        Some(ErrorCode::NotActive)
    } else if amount == 0 {
        Some(ErrorCode::InvalidAmount)
    } else if ctx.vault.lamports < amount {
        Some(ErrorCode::InsufficientFunds)
    } else if fee > 0 && vault_transfer_error(ctx.vault, ctx.treasury, fee, vault_proof) is Some {
        vault_transfer_error(ctx.vault, ctx.treasury, fee, vault_proof)
    } else if ctx.agent_state.revenue_pool + holder_revenue_of(profit) > u64::MAX
        || ctx.agent_state.total_trades + 1 > u64::MAX
        || ctx.agent_state.total_volume + amount > u64::MAX {
        Some(ErrorCode::ArithmeticOverflow)
    } else {
        None
    }
}

/// The accounts after a trade that is not refused: the fee has moved from
/// the vault to the treasury, the holders' revenue is added to the pool, and
/// the trade is counted. Every sum is within range when `trade_error` finds
/// no fault.
pub open spec fn trade_effect(ctx: ExecuteTrade, amount: u64, actual_output: u64) -> ExecuteTrade {
    let profit = profit_of(amount, actual_output);
    let fee = platform_fee_of(profit);
    ExecuteTrade {
        agent_state: AgentState {
            revenue_pool: (ctx.agent_state.revenue_pool + holder_revenue_of(profit)) as u64,
            total_trades: (ctx.agent_state.total_trades + 1) as u64,
            total_volume: (ctx.agent_state.total_volume + amount) as u64,
            ..ctx.agent_state
        },
        vault: NativeAccount { lamports: (ctx.vault.lamports - fee) as u64, ..ctx.vault },
        treasury: NativeAccount { lamports: (ctx.treasury.lamports + fee) as u64, ..ctx.treasury },
        ..ctx
    }
}

/// What a trade does: the accounts after it, or the reason for which it is
/// refused.
pub open spec fn trade_outcome(
    ctx: ExecuteTrade,
    vault_proof: Option<Seq<u8>>,
    amount: u64,
    actual_output: u64,
) -> Result<ExecuteTrade, ErrorCode> {
    match trade_error(ctx, vault_proof, amount, actual_output) {
        Some(e) => Err(e),
        None => Ok(trade_effect(ctx, amount, actual_output)),
    }
}

/// The record of a settled trade.
pub open spec fn trade_event(
    ctx: ExecuteTrade,
    from_mint: Address,
    to_mint: Address,
    amount: u64,
    actual_output: u64,
    timestamp: i64,
) -> TradeExecutedEvent {
    TradeExecutedEvent {
        agent: ctx.agent_key,
        from_mint,
        to_mint,
        amount_in: amount,
        amount_out: actual_output,
        timestamp,
    }
}

/// Settles a trade whose outcome the agent's wallet attests, given the
/// address that was derived for the vault. Either every change is made or
/// none. `min_output` is advisory and has no effect.
pub fn settle_trade(
    ctx: &mut ExecuteTrade,
    vault_proof: &Option<Address>,
    from_mint: Address,
    to_mint: Address,
    amount: u64,
    min_output: u64,
    actual_output: u64,
    timestamp: i64,
) -> (r: Result<TradeExecutedEvent, ErrorCode>)
    ensures
        match r {
            Ok(event) => {
                &&& trade_outcome(*old(ctx), option_view(*vault_proof), amount, actual_output)
                    == Ok::<ExecuteTrade, ErrorCode>(*final(ctx))
                &&& event == trade_event(
                    *old(ctx),
                    from_mint,
                    to_mint,
                    amount,
                    actual_output,
                    timestamp,
                )
            },
            Err(e) => {
                &&& trade_outcome(*old(ctx), option_view(*vault_proof), amount, actual_output)
                    == Err::<ExecuteTrade, ErrorCode>(e)
                &&& *final(ctx) == *old(ctx)
            },
        },
{
    if ctx.signer != ctx.agent_state.agent_wallet {
        return Err(ErrorCode::Unauthorized);
    }
    match ctx.agent_state.status {
        AgentStatus::Active => {},
        AgentStatus::Paused => {
            return Err(ErrorCode::NotActive);
        },
    }
    if amount == 0 {
        return Err(ErrorCode::InvalidAmount);
    }
    if ctx.vault.lamports < amount {
        return Err(ErrorCode::InsufficientFunds);
    }
    let (platform_fee, revenue_for_holders) = split_profit(amount, actual_output);
    let (vault_after, treasury_after) = if platform_fee > 0 {
        match transfer_from_vault(&ctx.vault, &ctx.treasury, platform_fee, vault_proof) {
            Ok(accounts) => accounts,
            Err(e) => {
                return Err(e);
            },
        }
    } else {
        (ctx.vault, ctx.treasury)
    };
    let revenue_pool: u64 = match ctx.agent_state.revenue_pool.checked_add(revenue_for_holders) {
        Some(sum) => sum,
        None => {
            return Err(ErrorCode::ArithmeticOverflow);
        },
    };
    let total_trades: u64 = match ctx.agent_state.total_trades.checked_add(1) {
        Some(sum) => sum,
        None => {
            return Err(ErrorCode::ArithmeticOverflow);
        },
    };
    let total_volume: u64 = match ctx.agent_state.total_volume.checked_add(amount) {
        Some(sum) => sum,
        None => {
            return Err(ErrorCode::ArithmeticOverflow);
        },
    };
    ctx.vault = vault_after;
    ctx.treasury = treasury_after;
    ctx.agent_state.revenue_pool = revenue_pool;
    ctx.agent_state.total_trades = total_trades;
    ctx.agent_state.total_volume = total_volume;
    Ok(
        TradeExecutedEvent {
            agent: ctx.agent_key,
            from_mint,
            to_mint,
            amount_in: amount,
            amount_out: actual_output,
            timestamp,
        },
    )
}

/// Settles a trade whose outcome the agent's wallet attests. The caller
/// must be the agent's wallet, the agent active, the amount positive and
/// covered by the vault. A hundredth of a realized profit goes from the
/// vault to the treasury, authorized by deriving the vault's address anew
/// from the record's salt; the rest of the profit is added to the revenue
/// pool. Either every change is made or none.
pub fn execute_trade(
    ctx: &mut ExecuteTrade,
    from_mint: Address,
    to_mint: Address,
    amount: u64,
    min_output: u64,
    actual_output: u64,
    timestamp: i64,
) -> (r: Result<TradeExecutedEvent, ErrorCode>)
    ensures
        match r {
            Ok(event) => {
                &&& trade_outcome(
                    *old(ctx),
                    vault_capability(
                        old(ctx).agent_key,
                        old(ctx).agent_state.vault_bump,
                        old(ctx).program_id,
                    ),
                    amount,
                    actual_output,
                ) == Ok::<ExecuteTrade, ErrorCode>(*final(ctx))
                &&& event == trade_event(
                    *old(ctx),
                    from_mint,
                    to_mint,
                    amount,
                    actual_output,
                    timestamp,
                )
            },
            Err(e) => {
                &&& trade_outcome(
                    *old(ctx),
                    vault_capability(
                        old(ctx).agent_key,
                        old(ctx).agent_state.vault_bump,
                        old(ctx).program_id,
                    ),
                    amount,
                    actual_output,
                ) == Err::<ExecuteTrade, ErrorCode>(e)
                &&& *final(ctx) == *old(ctx)
            },
        },
{
    let vault_proof = derive_vault_address(
        &ctx.agent_key,
        ctx.agent_state.vault_bump,
        &ctx.program_id,
    );
    settle_trade(ctx, &vault_proof, from_mint, to_mint, amount, min_output, actual_output, timestamp)
}

} // verus!
