use vstd::prelude::*;

use crate::account::{checked_transfer, NativeAccount, TransferError};
use crate::address::Address;
use crate::text::{byte_len, text_bytes};

verus! {

/// Longest identifier of a registered agent, in bytes of UTF-8.
pub const MAX_AGENT_ID_LEN: usize = 32;

/// Longest name of a registered agent, in bytes of UTF-8.
pub const MAX_NAME_LEN: usize = 64;

/// The registry's entry for one agent: who owns it, and how much revenue
/// has been deposited for the owner and how much of it the owner has taken.
#[derive(Clone, Debug, PartialEq, Eq)]
pub struct AgentRegistry {
    pub agent_id: String,
    pub name: String,
    pub owner: Address,
    pub created_at: i64,
    /// All revenue ever deposited.
    pub total_revenue: u64,
    /// The part of it that the owner has claimed.
    pub claimed_revenue: u64,
    pub bump: u8,
}

/// Why the registry refused an operation. A refused operation changes
/// nothing.
#[derive(Clone, Copy, Debug, PartialEq, Eq, Structural)]
pub enum ErrorCode {
    /// The identifier is longer than 32 bytes.
    AgentIdTooLong,
    /// The name is longer than 64 bytes.
    NameTooLong,
    /// More revenue is marked as claimed than was ever deposited.
    InsufficientRevenue,
    /// All deposited revenue has been claimed.
    NoRevenueToClaim,
    /// The entry's account holds less than what is to be paid out.
    InsufficientBalance,
    /// A total or a balance would exceed what it can hold.
    Overflow,
    /// The platform holds less than what it deposits.
    InsufficientFunds,
}

impl ErrorCode {
    /// The text that describes the error.
    pub open spec fn message_text(self) -> Seq<char> {
        match self {
            ErrorCode::AgentIdTooLong => "Agent ID cannot be longer than 32 characters"@,
            ErrorCode::NameTooLong => "Name cannot be longer than 64 characters"@,
            ErrorCode::InsufficientRevenue => "Insufficient revenue to claim"@,
            ErrorCode::NoRevenueToClaim => "No revenue available to claim"@,
            ErrorCode::InsufficientBalance => "Insufficient balance in registry"@,
            ErrorCode::InsufficientFunds => "Insufficient funds to deposit"@,
            ErrorCode::Overflow => "Arithmetic overflow"@,
        }
    }

    /// Describes the error in words.
    pub fn message(&self) -> (text: &'static str)
        ensures
            text@ == self.message_text(),
    {
        match self {
            ErrorCode::AgentIdTooLong => "Agent ID cannot be longer than 32 characters",
            ErrorCode::NameTooLong => "Name cannot be longer than 64 characters",
            ErrorCode::InsufficientRevenue => "Insufficient revenue to claim",
            ErrorCode::NoRevenueToClaim => "No revenue available to claim",
            ErrorCode::InsufficientBalance => "Insufficient balance in registry",
            ErrorCode::InsufficientFunds => "Insufficient funds to deposit",
            ErrorCode::Overflow => "Arithmetic overflow",
        }
    }
}

/// The salt that was found for the address of a new entry.
#[derive(Clone, Copy, Debug, PartialEq, Eq)]
pub struct RegisterAgentBumps {
    pub registry: u8,
}

/// The accounts of a registration.
#[derive(Clone, Debug, PartialEq, Eq)]
pub struct RegisterAgent {
    /// The entry to fill in.
    pub registry: AgentRegistry,
    /// The identity that registers the agent and will own it.
    pub owner: Address,
    pub bumps: RegisterAgentBumps,
}

/// The first reason, if any, for which a registration is refused.
pub open spec fn register_agent_error(agent_id: String, name: String) -> Option<ErrorCode> {
    if byte_len(agent_id@) > MAX_AGENT_ID_LEN {
        Some(ErrorCode::AgentIdTooLong)
    } else if byte_len(name@) > MAX_NAME_LEN {
        Some(ErrorCode::NameTooLong)
    } else {
        None
    }
}

/// The entry of a newly registered agent, with no revenue yet.
pub open spec fn registered(ctx: RegisterAgent, agent_id: String, name: String, timestamp: i64) -> AgentRegistry {
    AgentRegistry {
        agent_id,
        name,
        owner: ctx.owner,
        created_at: timestamp,
        total_revenue: 0,
        claimed_revenue: 0,
        bump: ctx.bumps.registry,
    }
}

/// Registers an agent under an identifier of at most 32 bytes and a
/// name of at most 64, owned by the caller, at the given time.
pub fn register_agent(ctx: &mut RegisterAgent, agent_id: String, name: String, timestamp: i64) -> (r:
    Result<(), ErrorCode>)
    ensures
        match r {
            Ok(_) => {
                &&& register_agent_error(agent_id, name) is None
                &&& final(ctx).registry == registered(*old(ctx), agent_id, name, timestamp)
                &&& final(ctx).owner == old(ctx).owner
                &&& final(ctx).bumps == old(ctx).bumps
            },
            Err(e) => {
                &&& register_agent_error(agent_id, name) == Some(e)
                &&& *final(ctx) == *old(ctx)
            },
        },
{
    if text_bytes(&agent_id) > MAX_AGENT_ID_LEN {
        return Err(ErrorCode::AgentIdTooLong);
    }
    if text_bytes(&name) > MAX_NAME_LEN {
        return Err(ErrorCode::NameTooLong);
    }
    ctx.registry.agent_id = agent_id;
    ctx.registry.name = name;
    ctx.registry.owner = ctx.owner;
    ctx.registry.created_at = timestamp;
    ctx.registry.total_revenue = 0;
    ctx.registry.claimed_revenue = 0;
    ctx.registry.bump = ctx.bumps.registry;
    Ok(())
}

/// The accounts that a claim by the owner reads and changes. The entry's
/// own account holds the deposited revenue.
#[derive(Clone, Debug, PartialEq, Eq)]
pub struct ClaimRevenue {
    pub registry: AgentRegistry,
    /// The balance of the entry's account.
    pub registry_lamports: u64,
    /// The owner, who is paid.
    pub owner: NativeAccount,
}

/// What the owner may claim: the revenue deposited and not yet claimed.
pub open spec fn claimable(registry: AgentRegistry) -> int {
    registry.total_revenue - registry.claimed_revenue
}

/// The first reason, if any, for which the owner's claim is refused.
pub open spec fn claim_revenue_error(ctx: ClaimRevenue) -> Option<ErrorCode> {
    if claimable(ctx.registry) < 0 {
        Some(ErrorCode::InsufficientRevenue)
    } else if claimable(ctx.registry) == 0 {
        Some(ErrorCode::NoRevenueToClaim)
    } else if ctx.registry_lamports < claimable(ctx.registry) {
        Some(ErrorCode::InsufficientBalance)
    } else if ctx.owner.lamports + claimable(ctx.registry) > u64::MAX {
        Some(ErrorCode::Overflow)
    } else {
        None
    }
}

/// The accounts after a claim that is not refused: all unclaimed revenue
/// has moved from the entry's account to the owner and is marked as claimed.
pub open spec fn claim_revenue_effect(ctx: ClaimRevenue) -> ClaimRevenue {
    ClaimRevenue {
        registry: AgentRegistry { claimed_revenue: ctx.registry.total_revenue, ..ctx.registry },
        registry_lamports: (ctx.registry_lamports - claimable(ctx.registry)) as u64,
        owner: NativeAccount {
            lamports: (ctx.owner.lamports + claimable(ctx.registry)) as u64,
            ..ctx.owner
        },
    }
}

/// What the owner's claim does: the accounts after it, or the reason for
/// which it is refused.
pub open spec fn claim_revenue_outcome(ctx: ClaimRevenue) -> Result<ClaimRevenue, ErrorCode> {
    match claim_revenue_error(ctx) {
        Some(e) => Err(e),
        None => Ok(claim_revenue_effect(ctx)),
    }
}

/// Pays the owner all revenue that was deposited and not yet claimed, out
/// of the entry's account. Either every change is made or none.
pub fn claim_revenue(ctx: &mut ClaimRevenue) -> (r: Result<(), ErrorCode>)
    ensures
        match r {
            Ok(_) => claim_revenue_outcome(*old(ctx)) == Ok::<ClaimRevenue, ErrorCode>(
                *final(ctx),
            ),
            Err(e) => {
                &&& claim_revenue_outcome(*old(ctx)) == Err::<ClaimRevenue, ErrorCode>(e)
                &&& *final(ctx) == *old(ctx)
            },
        },
{
    let unclaimed: u64 = match ctx.registry.total_revenue.checked_sub(
        ctx.registry.claimed_revenue,
    ) {
        Some(difference) => difference,
        None => {
            return Err(ErrorCode::InsufficientRevenue);
        },
    };
    if unclaimed == 0 {
        return Err(ErrorCode::NoRevenueToClaim);
    }
    let (registry_after, owner_after) = match checked_transfer(
        ctx.registry_lamports,
        ctx.owner.lamports,
        unclaimed,
    ) {
        Ok(balances) => balances,
        Err(TransferError::InsufficientFunds) => {
            return Err(ErrorCode::InsufficientBalance);
        },
        Err(TransferError::Overflow) => {
            return Err(ErrorCode::Overflow);
        },
    };
    ctx.registry_lamports = registry_after;
    ctx.owner.lamports = owner_after;
    ctx.registry.claimed_revenue = ctx.registry.total_revenue;
    Ok(())
}

/// The account of a change of owner.
#[derive(Clone, Debug, PartialEq, Eq)]
pub struct TransferOwnership {
    pub registry: AgentRegistry,
}

/// Hands the agent to a new owner. Nothing else of the entry changes.
pub fn transfer_ownership(ctx: &mut TransferOwnership, new_owner: Address)
    ensures
        final(ctx).registry == (AgentRegistry { owner: new_owner, ..old(ctx).registry }),
{
    ctx.registry.owner = new_owner;
}

/// The accounts that a deposit of revenue reads and changes.
#[derive(Clone, Debug, PartialEq, Eq)]
pub struct DepositRevenue {
    pub registry: AgentRegistry,
    /// The balance of the entry's account.
    pub registry_lamports: u64,
    /// The platform, which pays.
    pub platform: NativeAccount,
}

/// The first reason, if any, for which a deposit of revenue is refused.
pub open spec fn deposit_revenue_error(ctx: DepositRevenue, amount: u64) -> Option<ErrorCode> {
    if ctx.platform.lamports < amount {
        Some(ErrorCode::InsufficientFunds)
    } else if ctx.registry_lamports + amount > u64::MAX || ctx.registry.total_revenue + amount
        > u64::MAX {
        Some(ErrorCode::Overflow)
    } else {
        None
    }
}

/// The accounts after a deposit that is not refused: the amount has moved
/// from the platform to the entry's account and is added to the total.
pub open spec fn deposit_revenue_effect(ctx: DepositRevenue, amount: u64) -> DepositRevenue {
    DepositRevenue {
        registry: AgentRegistry {
            total_revenue: (ctx.registry.total_revenue + amount) as u64,
            ..ctx.registry
        },
        registry_lamports: (ctx.registry_lamports + amount) as u64,
        platform: NativeAccount {
            lamports: (ctx.platform.lamports - amount) as u64,
            ..ctx.platform
        },
    }
}

/// What a deposit of revenue does: the accounts after it, or the reason for
/// which it is refused.
pub open spec fn deposit_revenue_outcome(ctx: DepositRevenue, amount: u64) -> Result<
    DepositRevenue,
    ErrorCode,
> {
    match deposit_revenue_error(ctx, amount) {
        Some(e) => Err(e),
        None => Ok(deposit_revenue_effect(ctx, amount)),
    }
}

/// Moves `amount` from the platform to the entry's account, for the owner
/// to claim. Either every change is made or none.
pub fn deposit_revenue(ctx: &mut DepositRevenue, amount: u64) -> (r: Result<(), ErrorCode>)
    ensures
        match r {
            Ok(_) => deposit_revenue_outcome(*old(ctx), amount) == Ok::<
                DepositRevenue,
                ErrorCode,
            >(*final(ctx)),
            Err(e) => {
                &&& deposit_revenue_outcome(*old(ctx), amount) == Err::<
                    DepositRevenue,
                    ErrorCode,
                >(e)
                &&& *final(ctx) == *old(ctx)
            },
        },
{
    let (platform_after, registry_after) = match checked_transfer(
        ctx.platform.lamports,
        ctx.registry_lamports,
        amount,
    ) {
        Ok(balances) => balances,
        Err(TransferError::InsufficientFunds) => {
            return Err(ErrorCode::InsufficientFunds);
        },
        Err(TransferError::Overflow) => {
            return Err(ErrorCode::Overflow);
        },
    };
    let total_revenue: u64 = match ctx.registry.total_revenue.checked_add(amount) {
        Some(sum) => sum,
        None => {
            return Err(ErrorCode::Overflow);
        },
    };
    ctx.platform.lamports = platform_after;
    ctx.registry_lamports = registry_after;
    ctx.registry.total_revenue = total_revenue;
    Ok(())
}

} // verus!
