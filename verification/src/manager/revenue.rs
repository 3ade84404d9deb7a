use vstd::prelude::*;

use crate::account::{Mint, NativeAccount, TokenAccount};
use crate::address::Address;
use crate::derivation::{derive_vault_address, option_view, vault_capability};
use crate::manager::events::RevenueClaimedEvent;
use crate::manager::state::{AgentState, ErrorCode};
use crate::manager::vault::{transfer_from_vault, vault_transfer_error};

verus! {

/// The accounts that a claim of revenue reads and changes. Each field stands
/// for an account of its own.
#[derive(Clone, Debug, PartialEq, Eq)]
pub struct ClaimRevenue {
    /// The agent's ledger record.
    pub agent_state: AgentState,
    /// The address of the ledger record.
    pub agent_key: Address,
    /// The agent's vault.
    pub vault: NativeAccount,
    /// The claimant, who is paid.
    pub user: NativeAccount,
    /// The claimant's holding of the agent's token.
    pub user_token_account: TokenAccount,
    /// The agent's token.
    pub token_mint: Mint,
    /// The program for which the vault's address is derived.
    pub program_id: Address,
}

impl ClaimRevenue {
    /// The holding is part of the supply: no holder has more of a token than
    /// there is of it.
    pub open spec fn wf(&self) -> bool {
        self.user_token_account.amount <= self.token_mint.supply
    }
}

/// The part of a revenue pool that falls to a holding of `balance` out of a
/// supply of `total_supply`, rounded down.
pub open spec fn pro_rata_share(revenue_pool: u64, balance: u64, total_supply: u64) -> int {
    (revenue_pool * balance) / (total_supply as int)
}

/// A share is never negative and never more than the pool it is taken from.
pub proof fn lemma_share_within_pool(revenue_pool: u64, balance: u64, total_supply: u64)
    requires
        0 < total_supply,
        balance <= total_supply,
    ensures
        0 <= pro_rata_share(revenue_pool, balance, total_supply) <= revenue_pool,
        revenue_pool * balance <= u128::MAX,
{
    let pool = revenue_pool as int;
    let held = balance as int;
    let supply = total_supply as int;
    assert(0 <= pool * held <= pool * supply) by (nonlinear_arith)
        requires
            0 <= pool,
            0 <= held <= supply,
    ;
    assert(pool * supply <= 0xffff_ffff_ffff_ffff * 0xffff_ffff_ffff_ffff) by (nonlinear_arith)
        requires
            0 <= pool <= 0xffff_ffff_ffff_ffff,
            0 <= supply <= 0xffff_ffff_ffff_ffff,
    ;
    assert(0 <= (pool * held) / supply <= pool) by (nonlinear_arith)
        requires
            0 < supply,
            0 <= pool * held <= pool * supply,
    ;
}

/// Computes a holder's share of the pool in 128-bit arithmetic, so that the
/// product of pool and balance cannot overflow.
pub fn revenue_share(revenue_pool: u64, balance: u64, total_supply: u64) -> (share: u64)
    requires
        0 < total_supply,
        balance <= total_supply,
    ensures
        share == pro_rata_share(revenue_pool, balance, total_supply),
        share <= revenue_pool,
{
    proof {
        lemma_share_within_pool(revenue_pool, balance, total_supply);
    }
    let product: u128 = (revenue_pool as u128) * (balance as u128);
    let share: u128 = product / (total_supply as u128);
    share as u64
}

/// The first reason, if any, for which a claim is refused.
pub open spec fn claim_error(ctx: ClaimRevenue, vault_proof: Option<Seq<u8>>) -> Option<ErrorCode> {
    let share = pro_rata_share(
        ctx.agent_state.revenue_pool,
        ctx.user_token_account.amount,
        ctx.token_mint.supply,
    );
    if ctx.agent_state.revenue_pool == 0 {
        Some(ErrorCode::NoRevenueAvailable)
    } else if ctx.user_token_account.amount == 0 {
        Some(ErrorCode::NoTokensHeld)
    } else if share == 0 {
        Some(ErrorCode::ShareTooSmall)
    } else {
        vault_transfer_error(ctx.vault, ctx.user, share, vault_proof)
    }
}

/// The accounts after a claim that is not refused: the share has moved from
/// the vault to the claimant and has left the revenue pool. Every result is
/// within range when `claim_error` finds no fault.
pub open spec fn claim_effect(ctx: ClaimRevenue) -> ClaimRevenue {
    let share = pro_rata_share(
        ctx.agent_state.revenue_pool,
        ctx.user_token_account.amount,
        ctx.token_mint.supply,
    );
    ClaimRevenue {
        agent_state: AgentState {
            revenue_pool: (ctx.agent_state.revenue_pool - share) as u64,
            ..ctx.agent_state
        },
        vault: NativeAccount { lamports: (ctx.vault.lamports - share) as u64, ..ctx.vault },
        user: NativeAccount { lamports: (ctx.user.lamports + share) as u64, ..ctx.user },
        ..ctx
    }
}

/// What a claim does: the accounts after it, or the reason for which it is
/// refused.
pub open spec fn claim_outcome(ctx: ClaimRevenue, vault_proof: Option<Seq<u8>>) -> Result<
    ClaimRevenue,
    ErrorCode,
> {
    match claim_error(ctx, vault_proof) {
        Some(e) => Err(e),
        None => Ok(claim_effect(ctx)),
    }
}

/// The record of a paid claim.
pub open spec fn claim_event(ctx: ClaimRevenue, timestamp: i64) -> RevenueClaimedEvent {
    RevenueClaimedEvent {
        agent: ctx.agent_key,
        user: ctx.user.key,
        amount: pro_rata_share(
            ctx.agent_state.revenue_pool,
            ctx.user_token_account.amount,
            ctx.token_mint.supply,
        ) as u64,
        timestamp,
    }
}

/// Pays the claimant's share of the revenue pool out of the vault, given the
/// address that was derived for the vault. Either every change is made or
/// none.
pub fn pay_revenue_share(ctx: &mut ClaimRevenue, vault_proof: &Option<Address>, timestamp: i64) -> (r:
    Result<RevenueClaimedEvent, ErrorCode>)
    requires
        old(ctx).wf(),
    ensures
        match r {
            Ok(event) => {
                &&& claim_outcome(*old(ctx), option_view(*vault_proof)) == Ok::<
                    ClaimRevenue,
                    ErrorCode,
                >(*final(ctx))
                &&& event == claim_event(*old(ctx), timestamp)
            },
            Err(e) => {
                &&& claim_outcome(*old(ctx), option_view(*vault_proof)) == Err::<
                    ClaimRevenue,
                    ErrorCode,
                >(e)
                &&& *final(ctx) == *old(ctx)
            },
        },
{
    if ctx.agent_state.revenue_pool == 0 {
        return Err(ErrorCode::NoRevenueAvailable);
    }
    let user_tokens: u64 = ctx.user_token_account.amount;
    let total_supply: u64 = ctx.token_mint.supply;
    if user_tokens == 0 {
        return Err(ErrorCode::NoTokensHeld);
    }
    let user_share: u64 = revenue_share(ctx.agent_state.revenue_pool, user_tokens, total_supply);
    if user_share == 0 {
        return Err(ErrorCode::ShareTooSmall);
    }
    let (vault_after, user_after) = match transfer_from_vault(
        &ctx.vault,
        &ctx.user,
        user_share,
        vault_proof,
    ) {
        Ok(accounts) => accounts,
        Err(e) => {
            return Err(e);
        },
    };
    ctx.vault = vault_after;
    ctx.user = user_after;
    ctx.agent_state.revenue_pool = ctx.agent_state.revenue_pool - user_share;
    Ok(
        RevenueClaimedEvent {
            agent: ctx.agent_key,
            user: ctx.user.key,
            amount: user_share,
            timestamp,
        },
    )
}

/// Pays a token holder the part of the revenue pool that falls to the
/// holding at this moment: pool times balance over supply, rounded down. The
/// payment leaves the vault, authorized by deriving the vault's address anew
/// from the record's salt, and the pool shrinks by the same amount. Either
/// every change is made or none.
pub fn claim_revenue_share(ctx: &mut ClaimRevenue, timestamp: i64) -> (r: Result<
    RevenueClaimedEvent,
    ErrorCode,
>)
    requires
        old(ctx).wf(),
    ensures
        match r {
            Ok(event) => {
                &&& claim_outcome(
                    *old(ctx),
                    vault_capability(
                        old(ctx).agent_key,
                        old(ctx).agent_state.vault_bump,
                        old(ctx).program_id,
                    ),
                ) == Ok::<ClaimRevenue, ErrorCode>(*final(ctx))
                &&& event == claim_event(*old(ctx), timestamp)
            },
            Err(e) => {
                &&& claim_outcome(
                    *old(ctx),
                    vault_capability(
                        old(ctx).agent_key,
                        old(ctx).agent_state.vault_bump,
                        old(ctx).program_id,
                    ),
                ) == Err::<ClaimRevenue, ErrorCode>(e)
                &&& *final(ctx) == *old(ctx)
            },
        },
{
    let vault_proof = derive_vault_address(
        &ctx.agent_key,
        ctx.agent_state.vault_bump,
        &ctx.program_id,
    );
    pay_revenue_share(ctx, &vault_proof, timestamp)
}

} // verus!
