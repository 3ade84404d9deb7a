use vstd::prelude::*;

use crate::address::Address;
use crate::manager::events::{AgentStatusChangedEvent, PurposeUpdatedEvent};
use crate::manager::state::{AgentState, AgentStatus, ErrorCode, MAX_NAME_LEN, MAX_PURPOSE_LEN};

verus! {

/// The salts that were found for the addresses of a new agent's record and
/// vault.
#[derive(Clone, Copy, Debug, PartialEq, Eq)]
pub struct InitializeAgentBumps {
    pub agent_state: u8,
    pub vault: u8,
}

/// The accounts of an agent's creation.
#[derive(Clone, Debug, PartialEq, Eq)]
pub struct InitializeAgent {
    /// The ledger record to fill in.
    pub agent_state: AgentState,
    /// The address of the vault that is created with the record.
    pub vault: Address,
    /// The identity that creates the agent and will control it.
    pub authority: Address,
    pub bumps: InitializeAgentBumps,
}

/// The ledger record of a new agent: active, with nothing traded and
/// nothing accrued.
pub open spec fn initial_state(
    ctx: InitializeAgent,
    name: String,
    purpose: String,
    agent_wallet: Address,
    token_mint: Address,
) -> AgentState {
    AgentState {
        authority: ctx.authority,
        agent_wallet,
        token_mint,
        vault: ctx.vault,
        name,
        purpose,
        status: AgentStatus::Active,
        total_trades: 0,
        total_volume: 0,
        revenue_pool: 0,
        bump: ctx.bumps.agent_state,
        vault_bump: ctx.bumps.vault,
    }
}

/// Fills in the ledger record of a new agent. The name and the purpose must
/// fit the record.
pub fn initialize_agent(
    ctx: &mut InitializeAgent,
    name: String,
    purpose: String,
    agent_wallet: Address,
    token_mint: Address,
)
    requires
        name@.len() <= MAX_NAME_LEN,
        purpose@.len() <= MAX_PURPOSE_LEN,
    ensures
        final(ctx).agent_state == initial_state(*old(ctx), name, purpose, agent_wallet, token_mint),
        final(ctx).agent_state.wf(),
        final(ctx).vault == old(ctx).vault,
        final(ctx).authority == old(ctx).authority,
        final(ctx).bumps == old(ctx).bumps,
{
    ctx.agent_state.authority = ctx.authority;
    ctx.agent_state.agent_wallet = agent_wallet;
    ctx.agent_state.token_mint = token_mint;
    ctx.agent_state.vault = ctx.vault;
    ctx.agent_state.name = name;
    ctx.agent_state.purpose = purpose;
    ctx.agent_state.status = AgentStatus::Active;
    ctx.agent_state.total_trades = 0;
    ctx.agent_state.total_volume = 0;
    ctx.agent_state.revenue_pool = 0;
    ctx.agent_state.bump = ctx.bumps.agent_state;
    ctx.agent_state.vault_bump = ctx.bumps.vault;
}

/// The accounts of a change of purpose.
#[derive(Clone, Debug, PartialEq, Eq)]
pub struct UpdatePurpose {
    /// The agent's ledger record.
    pub agent_state: AgentState,
    /// The address of the ledger record.
    pub agent_key: Address,
    /// The identity that asks for the change.
    pub authority: Address,
}

/// The first reason, if any, for which a change of purpose is refused.
pub open spec fn update_purpose_error(ctx: UpdatePurpose, new_purpose: String) -> Option<
    ErrorCode,
> {
    if ctx.authority != ctx.agent_state.authority {
        Some(ErrorCode::Unauthorized)
    } else if new_purpose@.len() == 0 || new_purpose@.len() > MAX_PURPOSE_LEN {
        Some(ErrorCode::InvalidPurpose)
    } else {
        None
    }
}

/// The accounts after a change of purpose that is not refused.
pub open spec fn update_purpose_effect(ctx: UpdatePurpose, new_purpose: String) -> UpdatePurpose {
    UpdatePurpose { agent_state: AgentState { purpose: new_purpose, ..ctx.agent_state }, ..ctx }
}

/// What a change of purpose does: the accounts after it, or the reason for
/// which it is refused.
pub open spec fn update_purpose_outcome(ctx: UpdatePurpose, new_purpose: String) -> Result<
    UpdatePurpose,
    ErrorCode,
> {
    match update_purpose_error(ctx, new_purpose) {
        Some(e) => Err(e),
        None => Ok(update_purpose_effect(ctx, new_purpose)),
    }
}

/// The record of a change of purpose.
pub open spec fn update_purpose_event(
    ctx: UpdatePurpose,
    new_purpose: String,
    timestamp: i64,
) -> PurposeUpdatedEvent {
    PurposeUpdatedEvent {
        agent: ctx.agent_key,
        old_purpose: ctx.agent_state.purpose,
        new_purpose,
        timestamp,
    }
}

/// Replaces the agent's purpose by a text of 1 to 200 characters. Only the
/// agent's authority may do so. Nothing else of the record changes.
pub fn update_purpose(ctx: &mut UpdatePurpose, new_purpose: String, timestamp: i64) -> (r: Result<
    PurposeUpdatedEvent,
    ErrorCode,
>)
    ensures
        match r {
            Ok(event) => {
                &&& update_purpose_outcome(*old(ctx), new_purpose) == Ok::<
                    UpdatePurpose,
                    ErrorCode,
                >(*final(ctx))
                &&& event == update_purpose_event(*old(ctx), new_purpose, timestamp)
            },
            Err(e) => {
                &&& update_purpose_outcome(*old(ctx), new_purpose) == Err::<
                    UpdatePurpose,
                    ErrorCode,
                >(e)
                &&& *final(ctx) == *old(ctx)
            },
        },
        old(ctx).agent_state.wf() ==> final(ctx).agent_state.wf(),
{
    if ctx.authority != ctx.agent_state.authority {
        return Err(ErrorCode::Unauthorized);
    }
    let length: usize = new_purpose.as_str().unicode_len();
    if length == 0 || length > MAX_PURPOSE_LEN {
        return Err(ErrorCode::InvalidPurpose);
    }
    let old_purpose = ctx.agent_state.purpose.clone();
    ctx.agent_state.purpose = new_purpose.clone();
    Ok(PurposeUpdatedEvent { agent: ctx.agent_key, old_purpose, new_purpose, timestamp })
}

/// The accounts of a pause.
#[derive(Clone, Debug, PartialEq, Eq)]
pub struct PauseAgent {
    /// The agent's ledger record.
    pub agent_state: AgentState,
    /// The address of the ledger record.
    pub agent_key: Address,
    /// The identity that asks for the pause.
    pub authority: Address,
}

/// The first reason, if any, for which a pause is refused.
pub open spec fn pause_error(ctx: PauseAgent) -> Option<ErrorCode> {
    if ctx.authority != ctx.agent_state.authority {
        Some(ErrorCode::Unauthorized)
    } else if ctx.agent_state.status != AgentStatus::Active {
        Some(ErrorCode::AlreadyPaused)
    } else {
        None
    }
}

/// What a pause does: the accounts after it, with the agent paused, or the
/// reason for which it is refused.
pub open spec fn pause_outcome(ctx: PauseAgent) -> Result<PauseAgent, ErrorCode> {
    match pause_error(ctx) {
        Some(e) => Err(e),
        None => Ok(
            PauseAgent {
                agent_state: AgentState { status: AgentStatus::Paused, ..ctx.agent_state },
                ..ctx
            },
        ),
    }
}

/// The record of a change of status.
pub open spec fn status_event(agent: Address, new_status: AgentStatus, timestamp: i64) -> AgentStatusChangedEvent {
    AgentStatusChangedEvent { agent, new_status, timestamp }
}

/// Pauses an active agent, so that it can settle no trade. Only the agent's
/// authority may do so. Nothing else of the record changes.
pub fn pause_agent(ctx: &mut PauseAgent, timestamp: i64) -> (r: Result<
    AgentStatusChangedEvent,
    ErrorCode,
>)
    ensures
        match r {
            Ok(event) => {
                &&& pause_outcome(*old(ctx)) == Ok::<PauseAgent, ErrorCode>(*final(ctx))
                &&& event == status_event(old(ctx).agent_key, AgentStatus::Paused, timestamp)
            },
            Err(e) => {
                &&& pause_outcome(*old(ctx)) == Err::<PauseAgent, ErrorCode>(e)
                &&& *final(ctx) == *old(ctx)
            },
        },
{
    if ctx.authority != ctx.agent_state.authority {
        return Err(ErrorCode::Unauthorized);
    }
    match ctx.agent_state.status {
        AgentStatus::Active => {},
        AgentStatus::Paused => {
            return Err(ErrorCode::AlreadyPaused);
        },
    }
    ctx.agent_state.status = AgentStatus::Paused;
    Ok(
        AgentStatusChangedEvent {
            agent: ctx.agent_key,
            new_status: AgentStatus::Paused,
            timestamp,
        },
    )
}

/// The accounts of a resumption.
#[derive(Clone, Debug, PartialEq, Eq)]
pub struct ResumeAgent {
    /// The agent's ledger record.
    pub agent_state: AgentState,
    /// The address of the ledger record.
    pub agent_key: Address,
    /// The identity that asks for the resumption.
    pub authority: Address,
}

/// The first reason, if any, for which a resumption is refused.
pub open spec fn resume_error(ctx: ResumeAgent) -> Option<ErrorCode> {
    if ctx.authority != ctx.agent_state.authority {
        Some(ErrorCode::Unauthorized)
    } else if ctx.agent_state.status != AgentStatus::Paused {
        Some(ErrorCode::AlreadyActive)
    } else {
        None
    }
}

/// What a resumption does: the accounts after it, with the agent active, or
/// the reason for which it is refused.
pub open spec fn resume_outcome(ctx: ResumeAgent) -> Result<ResumeAgent, ErrorCode> {
    match resume_error(ctx) {
        Some(e) => Err(e),
        None => Ok(
            ResumeAgent {
                agent_state: AgentState { status: AgentStatus::Active, ..ctx.agent_state },
                ..ctx
            },
        ),
    }
}

/// Resumes a paused agent. Only the agent's authority may do so. Nothing
/// else of the record changes.
pub fn resume_agent(ctx: &mut ResumeAgent, timestamp: i64) -> (r: Result<
    AgentStatusChangedEvent,
    ErrorCode,
>)
    ensures
        match r {
            Ok(event) => {
                &&& resume_outcome(*old(ctx)) == Ok::<ResumeAgent, ErrorCode>(*final(ctx))
                &&& event == status_event(old(ctx).agent_key, AgentStatus::Active, timestamp)
            },
            Err(e) => {
                &&& resume_outcome(*old(ctx)) == Err::<ResumeAgent, ErrorCode>(e)
                &&& *final(ctx) == *old(ctx)
            },
        },
{
    if ctx.authority != ctx.agent_state.authority {
        return Err(ErrorCode::Unauthorized);
    }
    match ctx.agent_state.status {
        AgentStatus::Paused => {},
        AgentStatus::Active => {
            return Err(ErrorCode::AlreadyActive);
        },
    }
    ctx.agent_state.status = AgentStatus::Active;
    Ok(
        AgentStatusChangedEvent {
            agent: ctx.agent_key,
            new_status: AgentStatus::Active,
            timestamp,
        },
    )
}

} // verus!
