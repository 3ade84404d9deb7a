use vstd::prelude::*;

use crate::address::Address;

verus! {

/// Longest name of an agent, in characters.
pub const MAX_NAME_LEN: usize = 32;

/// Longest purpose of an agent, in characters.
pub const MAX_PURPOSE_LEN: usize = 200;

/// Whether an agent may trade.
#[derive(Clone, Copy, Debug, PartialEq, Eq, Structural)]
pub enum AgentStatus {
    Active,
    Paused,
}

/// The ledger record of one agent: who controls it, whether it may trade,
/// what it has traded so far, and the revenue that its token holders have
/// not claimed yet.
#[derive(Clone, Debug, PartialEq, Eq)]
pub struct AgentState {
    /// May change the purpose and pause or resume the agent.
    pub authority: Address,
    /// May submit trades.
    pub agent_wallet: Address,
    /// The token whose holders share the revenue.
    pub token_mint: Address,
    /// The address of the vault that is paired with this record.
    pub vault: Address,
    pub name: String,
    pub purpose: String,
    pub status: AgentStatus,
    /// Number of trades settled.
    pub total_trades: u64,
    /// Sum of the input amounts of all trades settled.
    pub total_volume: u64,
    /// Revenue accrued for token holders and not yet claimed.
    pub revenue_pool: u64,
    /// Salt of the record's own address.
    pub bump: u8,
    /// Salt of the vault's address.
    pub vault_bump: u8,
}

impl AgentState {
    /// The record's texts are within their bounds.
    pub open spec fn wf(&self) -> bool {
        &&& self.name@.len() <= MAX_NAME_LEN
        &&& self.purpose@.len() <= MAX_PURPOSE_LEN
    }
}

/// Why an operation on an agent was refused. A refused operation changes
/// nothing.
#[derive(Clone, Copy, Debug, PartialEq, Eq, Structural)]
pub enum ErrorCode {
    /// An amount of zero was given.
    InvalidAmount,
    /// The caller is not the identity that may perform the action.
    Unauthorized,
    /// A trade was submitted while the agent is paused.
    NotActive,
    /// An account holds less than must leave it.
    InsufficientFunds,
    /// There is no revenue to claim.
    NoRevenueAvailable,
    /// The claimant holds none of the agent's token.
    NoTokensHeld,
    /// The claimant's share rounds down to nothing.
    ShareTooSmall,
    /// The purpose is empty or longer than 200 characters.
    InvalidPurpose,
    /// The agent is paused already.
    AlreadyPaused,
    /// The agent is active already.
    AlreadyActive,
    /// A counter or a balance would exceed what it can hold.
    ArithmeticOverflow,
}

impl ErrorCode {
    /// The text that describes the error.
    pub open spec fn message_text(self) -> Seq<char> {
        match self {
            ErrorCode::InvalidAmount => "Invalid amount specified"@,
            ErrorCode::Unauthorized => "Caller is not authorized for this action"@,
            ErrorCode::NotActive => "Agent is not active"@,
            ErrorCode::InsufficientFunds => "Insufficient funds in vault"@,
            ErrorCode::NoRevenueAvailable => "No revenue available to claim"@,
            ErrorCode::NoTokensHeld => "User holds no tokens"@,
            ErrorCode::ShareTooSmall => "Share too small to claim"@,
            ErrorCode::InvalidPurpose => "Purpose must be between 1 and 200 characters"@,
            ErrorCode::AlreadyPaused => "Agent is already paused"@,
            ErrorCode::AlreadyActive => "Agent is already active"@,
            ErrorCode::ArithmeticOverflow => "Arithmetic overflow"@,
        }
    }

    /// Describes the error in words.
    pub fn message(&self) -> (text: &'static str)
        ensures
            text@ == self.message_text(),
    {
        match self {
            ErrorCode::InvalidAmount => "Invalid amount specified",
            ErrorCode::Unauthorized => "Caller is not authorized for this action",
            ErrorCode::NotActive => "Agent is not active",
            ErrorCode::InsufficientFunds => "Insufficient funds in vault",
            ErrorCode::NoRevenueAvailable => "No revenue available to claim",
            ErrorCode::NoTokensHeld => "User holds no tokens",
            ErrorCode::ShareTooSmall => "Share too small to claim",
            ErrorCode::InvalidPurpose => "Purpose must be between 1 and 200 characters",
            ErrorCode::AlreadyPaused => "Agent is already paused",
            ErrorCode::AlreadyActive => "Agent is already active",
            ErrorCode::ArithmeticOverflow => "Arithmetic overflow",
        }
    }
}

} // verus!
