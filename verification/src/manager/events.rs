use vstd::prelude::*;

use crate::address::Address;
use crate::manager::state::AgentStatus;

verus! {

/// Funds have entered an agent's vault.
#[derive(Clone, Copy, Debug, PartialEq, Eq)]
pub struct FundsDepositedEvent {
    pub agent: Address,
    pub depositor: Address,
    pub amount: u64,
    pub timestamp: i64,
}

/// A trade has been settled.
#[derive(Clone, Copy, Debug, PartialEq, Eq)]
pub struct TradeExecutedEvent {
    pub agent: Address,
    pub from_mint: Address,
    pub to_mint: Address,
    pub amount_in: u64,
    pub amount_out: u64,
    pub timestamp: i64,
}

/// A token holder has been paid a share of the revenue pool.
#[derive(Clone, Copy, Debug, PartialEq, Eq)]
pub struct RevenueClaimedEvent {
    pub agent: Address,
    pub user: Address,
    pub amount: u64,
    pub timestamp: i64,
}

/// An agent's purpose has been replaced.
#[derive(Clone, Debug, PartialEq, Eq)]
pub struct PurposeUpdatedEvent {
    pub agent: Address,
    pub old_purpose: String,
    pub new_purpose: String,
    pub timestamp: i64,
}

/// An agent has been paused or resumed.
#[derive(Clone, Copy, Debug, PartialEq, Eq)]
pub struct AgentStatusChangedEvent {
    pub agent: Address,
    pub new_status: AgentStatus,
    pub timestamp: i64,
}

} // verus!
