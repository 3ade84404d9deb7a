use vstd::prelude::*;
use vstd::utf8::encode_utf8;

use crate::account::{checked_transfer, Mint, NativeAccount, TokenAccount, TransferError};
use crate::address::Address;
use crate::text::{byte_len, lemma_chars_within_bytes, text_bytes};

verus! {

/// Longest name of an agent, in bytes of UTF-8.
pub const MAX_NAME_LEN: usize = 32;

/// Longest symbol of an agent's token, in bytes of UTF-8.
pub const MAX_SYMBOL_LEN: usize = 10;

/// Longest purpose of an agent, in bytes of UTF-8.
pub const MAX_PURPOSE_LEN: usize = 200;

/// What is minted to the creator of an agent: a million tokens of six
/// decimals.
pub const INITIAL_SUPPLY: u64 = 1_000_000_000_000;

/// The factory's own record: who runs it, where its fees go, what the
/// creation of an agent costs, and how many agents it has created.
#[derive(Clone, Copy, Debug, PartialEq, Eq)]
pub struct FactoryState {
    pub authority: Address,
    pub treasury: Address,
    pub creation_fee: u64,
    pub total_agents_created: u64,
    pub bump: u8,
}

/// Why the factory refused an operation. A refused operation changes
/// nothing.
#[derive(Clone, Copy, Debug, PartialEq, Eq, Structural)]
pub enum ErrorCode {
    /// The name is empty or longer than 32 bytes.
    InvalidName,
    /// The symbol is empty or longer than 10 bytes.
    InvalidSymbol,
    /// The purpose is empty or longer than 200 bytes.
    InvalidPurpose,
    /// The agent's wallet is the all-zero address.
    InvalidAgentWallet,
    /// The account given as treasury is not the factory's treasury.
    TreasuryMismatch,
    /// The creator holds less than the creation fee.
    InsufficientFunds,
    /// A counter or a balance would exceed what it can hold.
    ArithmeticOverflow,
}

impl ErrorCode {
    /// The text that describes the error.
    pub open spec fn message_text(self) -> Seq<char> {
        match self {
            ErrorCode::InvalidName => "Name must be between 1 and 32 characters"@,
            ErrorCode::InvalidSymbol => "Symbol must be between 1 and 10 characters"@,
            ErrorCode::InvalidPurpose => "Purpose must be between 1 and 200 characters"@,
            ErrorCode::InvalidAgentWallet => "Agent wallet cannot be default pubkey"@,
            ErrorCode::TreasuryMismatch => "Treasury account is not the factory treasury"@,
            ErrorCode::InsufficientFunds => "Insufficient funds for the creation fee"@,
            ErrorCode::ArithmeticOverflow => "Arithmetic overflow"@,
        }
    }

    /// Describes the error in words.
    pub fn message(&self) -> (text: &'static str)
        ensures
            text@ == self.message_text(),
    {
        match self {
            ErrorCode::InvalidName => "Name must be between 1 and 32 characters",
            ErrorCode::InvalidSymbol => "Symbol must be between 1 and 10 characters",
            ErrorCode::InvalidPurpose => "Purpose must be between 1 and 200 characters",
            ErrorCode::InvalidAgentWallet => "Agent wallet cannot be default pubkey",
            ErrorCode::TreasuryMismatch => "Treasury account is not the factory treasury",
            ErrorCode::InsufficientFunds => "Insufficient funds for the creation fee",
            ErrorCode::ArithmeticOverflow => "Arithmetic overflow",
        }
    }
}

/// The salt that was found for the address of the factory's record.
#[derive(Clone, Copy, Debug, PartialEq, Eq)]
pub struct InitializeBumps {
    pub factory_state: u8,
}

/// The accounts of the factory's setting up.
#[derive(Clone, Copy, Debug, PartialEq, Eq)]
pub struct Initialize {
    /// The factory's record to fill in.
    pub factory_state: FactoryState,
    /// The identity that sets the factory up and will run it.
    pub authority: Address,
    /// Where the creation fees will go.
    pub treasury: Address,
    pub bumps: InitializeBumps,
}

/// The record of a factory that has created no agent yet.
pub open spec fn initial_factory(ctx: Initialize, creation_fee: u64) -> FactoryState {
    FactoryState {
        authority: ctx.authority,
        treasury: ctx.treasury,
        creation_fee,
        total_agents_created: 0,
        bump: ctx.bumps.factory_state,
    }
}

/// Fills in the factory's record.
pub fn initialize(ctx: &mut Initialize, creation_fee: u64)
    ensures
        final(ctx).factory_state == initial_factory(*old(ctx), creation_fee),
        final(ctx).authority == old(ctx).authority,
        final(ctx).treasury == old(ctx).treasury,
        final(ctx).bumps == old(ctx).bumps,
{
    ctx.factory_state.authority = ctx.authority;
    ctx.factory_state.treasury = ctx.treasury;
    ctx.factory_state.creation_fee = creation_fee;
    ctx.factory_state.total_agents_created = 0;
    ctx.factory_state.bump = ctx.bumps.factory_state;
}

/// The accounts that the creation of an agent reads and changes. Each field
/// stands for an account of its own.
#[derive(Clone, Copy, Debug, PartialEq, Eq)]
pub struct CreateAgent {
    pub factory_state: FactoryState,
    /// The identity that creates the agent, pays the fee and receives the
    /// initial supply.
    pub creator: NativeAccount,
    /// The account that receives the fee.
    pub treasury_account: NativeAccount,
    /// The new agent's token.
    pub token_mint: Mint,
    /// The creator's holding of that token.
    pub creator_token_account: TokenAccount,
    /// The address of the new agent's ledger record.
    pub agent_state: Address,
}

/// An agent has been created.
#[derive(Clone, Debug, PartialEq, Eq)]
pub struct AgentCreatedEvent {
    pub agent_pubkey: Address,
    pub creator: Address,
    pub token_mint: Address,
    pub agent_wallet: Address,
    pub name: String,
    pub symbol: String,
    pub timestamp: i64,
}

/// Whether a text is not empty and takes at most `max` bytes.
pub open spec fn within(text: Seq<char>, max: usize) -> bool {
    1 <= byte_len(text) <= max
}

/// Decides whether a text is not empty and takes at most `max` bytes.
pub fn text_within(text: &String, max: usize) -> (ok: bool)
    ensures
        ok == within(text@, max),
{
    let length: usize = text_bytes(text);
    1 <= length && length <= max
}

/// The first reason, if any, for which the creation of an agent is refused.
pub open spec fn create_agent_error(
    ctx: CreateAgent,
    name: String,
    symbol: String,
    purpose: String,
    agent_wallet: Address,
) -> Option<ErrorCode> {
    if !within(name@, MAX_NAME_LEN) {
        Some(ErrorCode::InvalidName)
    } else if !within(symbol@, MAX_SYMBOL_LEN) {
        Some(ErrorCode::InvalidSymbol)
    } else if !within(purpose@, MAX_PURPOSE_LEN) {
        Some(ErrorCode::InvalidPurpose)
    } else if agent_wallet.is_zero() {
        Some(ErrorCode::InvalidAgentWallet)
    } else if ctx.treasury_account.key != ctx.factory_state.treasury {
        Some(ErrorCode::TreasuryMismatch)
    } else if ctx.creator.lamports < ctx.factory_state.creation_fee {
        Some(ErrorCode::InsufficientFunds)
    } else if ctx.treasury_account.lamports + ctx.factory_state.creation_fee > u64::MAX
        || ctx.token_mint.supply + INITIAL_SUPPLY > u64::MAX
        || ctx.creator_token_account.amount + INITIAL_SUPPLY > u64::MAX
        || ctx.factory_state.total_agents_created + 1 > u64::MAX {
        Some(ErrorCode::ArithmeticOverflow)
    } else {
        None
    }
}

/// The accounts after a creation that is not refused: the fee has moved
/// from the creator to the treasury, the initial supply is minted to the
/// creator, and the agent is counted. Every sum is within range when
/// `create_agent_error` finds no fault.
pub open spec fn create_agent_effect(ctx: CreateAgent) -> CreateAgent {
    CreateAgent {
        factory_state: FactoryState {
            total_agents_created: (ctx.factory_state.total_agents_created + 1) as u64,
            ..ctx.factory_state
        },
        creator: NativeAccount {
            lamports: (ctx.creator.lamports - ctx.factory_state.creation_fee) as u64,
            ..ctx.creator
        },
        treasury_account: NativeAccount {
            lamports: (ctx.treasury_account.lamports + ctx.factory_state.creation_fee) as u64,
            ..ctx.treasury_account
        },
        token_mint: Mint {
            supply: (ctx.token_mint.supply + INITIAL_SUPPLY) as u64,
            ..ctx.token_mint
        },
        creator_token_account: TokenAccount {
            amount: (ctx.creator_token_account.amount + INITIAL_SUPPLY) as u64,
        },
        ..ctx
    }
}

/// What the creation of an agent does: the accounts after it, or the reason
/// for which it is refused.
pub open spec fn create_agent_outcome(
    ctx: CreateAgent,
    name: String,
    symbol: String,
    purpose: String,
    agent_wallet: Address,
) -> Result<CreateAgent, ErrorCode> {
    match create_agent_error(ctx, name, symbol, purpose, agent_wallet) {
        Some(e) => Err(e),
        None => Ok(create_agent_effect(ctx)),
    }
}

/// The record of a creation.
pub open spec fn create_agent_event(
    ctx: CreateAgent,
    name: String,
    symbol: String,
    agent_wallet: Address,
    timestamp: i64,
) -> AgentCreatedEvent {
    AgentCreatedEvent {
        agent_pubkey: ctx.agent_state,
        creator: ctx.creator.key,
        token_mint: ctx.token_mint.key,
        agent_wallet,
        name,
        symbol,
        timestamp,
    }
}

/// Creates an agent: checks its name, symbol, purpose and wallet, takes the
/// creation fee from the creator for the treasury, mints the initial supply
/// of the agent's token to the creator, and counts the agent. Either every
/// change is made or none.
pub fn create_agent(
    ctx: &mut CreateAgent,
    name: String,
    symbol: String,
    purpose: String,
    agent_wallet: Address,
    timestamp: i64,
) -> (r: Result<AgentCreatedEvent, ErrorCode>)
    ensures
        match r {
            Ok(event) => {
                &&& create_agent_outcome(*old(ctx), name, symbol, purpose, agent_wallet) == Ok::<
                    CreateAgent,
                    ErrorCode,
                >(*final(ctx))
                &&& event == create_agent_event(*old(ctx), name, symbol, agent_wallet, timestamp)
            },
            Err(e) => {
                &&& create_agent_outcome(*old(ctx), name, symbol, purpose, agent_wallet) == Err::<
                    CreateAgent,
                    ErrorCode,
                >(e)
                &&& *final(ctx) == *old(ctx)
            },
        },
{
    if !text_within(&name, MAX_NAME_LEN) {
        return Err(ErrorCode::InvalidName);
    }
    if !text_within(&symbol, MAX_SYMBOL_LEN) {
        return Err(ErrorCode::InvalidSymbol);
    }
    if !text_within(&purpose, MAX_PURPOSE_LEN) {
        return Err(ErrorCode::InvalidPurpose);
    }
    if agent_wallet.is_unset() {
        return Err(ErrorCode::InvalidAgentWallet);
    }
    if ctx.treasury_account.key != ctx.factory_state.treasury {
        return Err(ErrorCode::TreasuryMismatch);
    }
    let (creator_after, treasury_after) = match checked_transfer(
        ctx.creator.lamports,
        ctx.treasury_account.lamports,
        ctx.factory_state.creation_fee,
    ) {
        Ok(balances) => balances,
        Err(TransferError::InsufficientFunds) => {
            return Err(ErrorCode::InsufficientFunds);
        },
        Err(TransferError::Overflow) => {
            return Err(ErrorCode::ArithmeticOverflow);
        },
    };
    let supply: u64 = match ctx.token_mint.supply.checked_add(INITIAL_SUPPLY) {
        Some(sum) => sum,
        None => {
            return Err(ErrorCode::ArithmeticOverflow);
        },
    };
    let holding: u64 = match ctx.creator_token_account.amount.checked_add(INITIAL_SUPPLY) {
        Some(sum) => sum,
        None => {
            return Err(ErrorCode::ArithmeticOverflow);
        },
    };
    let created: u64 = match ctx.factory_state.total_agents_created.checked_add(1) {
        Some(sum) => sum,
        None => {
            return Err(ErrorCode::ArithmeticOverflow);
        },
    };
    ctx.creator.lamports = creator_after;
    ctx.treasury_account.lamports = treasury_after;
    ctx.token_mint.supply = supply;
    ctx.creator_token_account.amount = holding;
    ctx.factory_state.total_agents_created = created;
    Ok(
        AgentCreatedEvent {
            agent_pubkey: ctx.agent_state,
            creator: ctx.creator.key,
            token_mint: ctx.token_mint.key,
            agent_wallet,
            name,
            symbol,
            timestamp,
        },
    )
}

/// The name and the purpose of an agent that the factory accepts fit the
/// agent's ledger record, which bounds them in characters: a text of at most
/// so many bytes has at most so many characters.
pub proof fn lemma_accepted_texts_fit_the_record(
    ctx: CreateAgent,
    name: String,
    symbol: String,
    purpose: String,
    agent_wallet: Address,
)
    requires
        create_agent_error(ctx, name, symbol, purpose, agent_wallet) is None,
        encode_utf8(name@).len() <= usize::MAX,
        encode_utf8(purpose@).len() <= usize::MAX,
    ensures
        1 <= name@.len() <= MAX_NAME_LEN,
        1 <= purpose@.len() <= MAX_PURPOSE_LEN,
{
    lemma_chars_within_bytes(name@);
    lemma_chars_within_bytes(purpose@);
}

/// The account of a change of the creation fee.
#[derive(Clone, Copy, Debug, PartialEq, Eq)]
pub struct UpdateCreationFee {
    pub factory_state: FactoryState,
}

/// Sets what the creation of an agent costs from now on. Nothing else of
/// the factory's record changes.
pub fn update_creation_fee(ctx: &mut UpdateCreationFee, new_fee: u64)
    ensures
        final(ctx).factory_state.creation_fee == new_fee,
        final(ctx).factory_state.authority == old(ctx).factory_state.authority,
        final(ctx).factory_state.treasury == old(ctx).factory_state.treasury,
        final(ctx).factory_state.total_agents_created == old(
            ctx,
        ).factory_state.total_agents_created,
        final(ctx).factory_state.bump == old(ctx).factory_state.bump,
{
    ctx.factory_state.creation_fee = new_fee;
}

} // verus!
