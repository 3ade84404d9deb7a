use agent_vault::account::{Mint, NativeAccount, TokenAccount};
use agent_vault::address::Address;
use agent_vault::factory::{
    create_agent, initialize, text_within, update_creation_fee, AgentCreatedEvent, CreateAgent,
    ErrorCode, FactoryState, Initialize, InitializeBumps, UpdateCreationFee, INITIAL_SUPPLY,
};

fn pk(byte: u8) -> Address {
    Address::new([byte; 32])
}

fn factory(creation_fee: u64) -> FactoryState {
    FactoryState {
        authority: pk(1),
        treasury: pk(2),
        creation_fee,
        total_agents_created: 6,
        bump: 250,
    }
}

fn creation(creation_fee: u64, creator_lamports: u64) -> CreateAgent {
    CreateAgent {
        factory_state: factory(creation_fee),
        creator: NativeAccount { key: pk(3), lamports: creator_lamports },
        treasury_account: NativeAccount { key: pk(2), lamports: 500 },
        token_mint: Mint { key: pk(4), supply: 0 },
        creator_token_account: TokenAccount { amount: 0 },
        agent_state: pk(5),
    }
}

fn create(ctx: &mut CreateAgent, name: &str, symbol: &str, purpose: &str, wallet: Address) -> Result<AgentCreatedEvent, ErrorCode> {
    create_agent(ctx, String::from(name), String::from(symbol), String::from(purpose), wallet, 1_700_000_000)
}

fn assert_creation_refused(mut ctx: CreateAgent, name: &str, symbol: &str, purpose: &str, wallet: Address, error: ErrorCode) {
    let before = ctx;
    assert_eq!(create(&mut ctx, name, symbol, purpose, wallet), Err(error));
    assert_eq!(ctx, before);
}

#[test]
fn factory_starts_with_no_agents() {
    let mut ctx = Initialize {
        factory_state: FactoryState {
            authority: pk(0),
            treasury: pk(0),
            creation_fee: 1,
            total_agents_created: 9,
            bump: 0,
        },
        authority: pk(1),
        treasury: pk(2),
        bumps: InitializeBumps { factory_state: 250 },
    };
    initialize(&mut ctx, 1_000);
    assert_eq!(
        ctx.factory_state,
        FactoryState {
            authority: pk(1),
            treasury: pk(2),
            creation_fee: 1_000,
            total_agents_created: 0,
            bump: 250,
        }
    );
    assert_eq!(ctx.authority, pk(1));
    assert_eq!(ctx.treasury, pk(2));
    assert_eq!(ctx.bumps, InitializeBumps { factory_state: 250 });
}

#[test]
fn creation_takes_the_fee_and_mints_the_initial_supply() {
    assert_eq!(INITIAL_SUPPLY, 1_000_000_000_000);
    let mut ctx = creation(1_000, 5_000);
    let event = create(&mut ctx, "scout", "SCT", "trades on momentum", pk(9)).unwrap();
    assert_eq!(
        event,
        AgentCreatedEvent {
            agent_pubkey: pk(5),
            creator: pk(3),
            token_mint: pk(4),
            agent_wallet: pk(9),
            name: String::from("scout"),
            symbol: String::from("SCT"),
            timestamp: 1_700_000_000,
        }
    );
    let mut expected = creation(1_000, 5_000);
    expected.creator.lamports = 4_000;
    expected.treasury_account.lamports = 1_500;
    expected.token_mint.supply = 1_000_000_000_000;
    expected.creator_token_account.amount = 1_000_000_000_000;
    expected.factory_state.total_agents_created = 7;
    assert_eq!(ctx, expected);
}

#[test]
fn creation_without_fee_moves_no_funds() {
    let mut ctx = creation(0, 0);
    assert!(create(&mut ctx, "scout", "SCT", "trades", pk(9)).is_ok());
    assert_eq!(ctx.creator.lamports, 0);
    assert_eq!(ctx.treasury_account.lamports, 500);
    assert_eq!(ctx.factory_state.total_agents_created, 7);
}

#[test]
fn creation_checks_the_name() {
    let ctx = creation(1_000, 5_000);
    assert_creation_refused(ctx, "", "SCT", "trades", pk(9), ErrorCode::InvalidName);
    assert_creation_refused(ctx, &"n".repeat(33), "SCT", "trades", pk(9), ErrorCode::InvalidName);
    assert_creation_refused(ctx, "", "", "", pk(0), ErrorCode::InvalidName);
    let mut longest = ctx;
    assert!(create(&mut longest, &"n".repeat(32), "SCT", "trades", pk(9)).is_ok());
}

#[test]
fn creation_checks_the_symbol() {
    let ctx = creation(1_000, 5_000);
    assert_creation_refused(ctx, "scout", "", "trades", pk(9), ErrorCode::InvalidSymbol);
    assert_creation_refused(ctx, "scout", "SYMBOLSYMBO", "trades", pk(9), ErrorCode::InvalidSymbol);
    assert_creation_refused(ctx, "scout", "", "", pk(0), ErrorCode::InvalidSymbol);
    let mut longest = ctx;
    assert!(create(&mut longest, "scout", "SYMBOLSYMB", "trades", pk(9)).is_ok());
}

#[test]
fn creation_checks_the_purpose() {
    let ctx = creation(1_000, 5_000);
    assert_creation_refused(ctx, "scout", "SCT", "", pk(9), ErrorCode::InvalidPurpose);
    assert_creation_refused(ctx, "scout", "SCT", &"p".repeat(201), pk(9), ErrorCode::InvalidPurpose);
    assert_creation_refused(ctx, "scout", "SCT", "", pk(0), ErrorCode::InvalidPurpose);
    let mut longest = ctx;
    assert!(create(&mut longest, "scout", "SCT", &"p".repeat(200), pk(9)).is_ok());
}

#[test]
fn creation_needs_a_wallet() {
    let ctx = creation(1_000, 5_000);
    assert_creation_refused(ctx, "scout", "SCT", "trades", pk(0), ErrorCode::InvalidAgentWallet);
    assert_creation_refused(ctx, "scout", "SCT", "trades", Address::zero(), ErrorCode::InvalidAgentWallet);
    let mut almost_zero = [0u8; 32];
    almost_zero[17] = 1;
    let mut accepted = ctx;
    assert!(create(&mut accepted, "scout", "SCT", "trades", Address::new(almost_zero)).is_ok());
}

#[test]
fn creation_pays_the_factory_treasury_only() {
    let mut ctx = creation(1_000, 5_000);
    ctx.treasury_account.key = pk(8);
    assert_creation_refused(ctx, "scout", "SCT", "trades", pk(9), ErrorCode::TreasuryMismatch);
}

#[test]
fn creation_needs_the_fee() {
    let ctx = creation(1_000, 999);
    assert_creation_refused(ctx, "scout", "SCT", "trades", pk(9), ErrorCode::InsufficientFunds);
    let mut exact = creation(1_000, 1_000);
    assert!(create(&mut exact, "scout", "SCT", "trades", pk(9)).is_ok());
    assert_eq!(exact.creator.lamports, 0);
}

#[test]
fn creation_that_overflows_is_refused() {
    let mut ctx = creation(1_000, 5_000);
    ctx.treasury_account.lamports = u64::MAX - 999;
    assert_creation_refused(ctx, "scout", "SCT", "trades", pk(9), ErrorCode::ArithmeticOverflow);

    let mut ctx = creation(1_000, 5_000);
    ctx.token_mint.supply = u64::MAX - INITIAL_SUPPLY + 1;
    assert_creation_refused(ctx, "scout", "SCT", "trades", pk(9), ErrorCode::ArithmeticOverflow);
    ctx.token_mint.supply = u64::MAX - INITIAL_SUPPLY;
    assert!(create(&mut ctx, "scout", "SCT", "trades", pk(9)).is_ok());
    assert_eq!(ctx.token_mint.supply, u64::MAX);

    let mut ctx = creation(1_000, 5_000);
    ctx.creator_token_account.amount = u64::MAX - INITIAL_SUPPLY + 1;
    assert_creation_refused(ctx, "scout", "SCT", "trades", pk(9), ErrorCode::ArithmeticOverflow);

    let mut ctx = creation(1_000, 5_000);
    ctx.factory_state.total_agents_created = u64::MAX;
    assert_creation_refused(ctx, "scout", "SCT", "trades", pk(9), ErrorCode::ArithmeticOverflow);
}

#[test]
fn text_bounds_count_bytes() {
    assert!(!text_within(&String::new(), 10));
    assert!(text_within(&String::from("a"), 10));
    assert!(text_within(&String::from("abcdefghij"), 10));
    assert!(!text_within(&String::from("abcdefghijk"), 10));
    assert!(text_within(&"\u{e9}".repeat(5), 10));
    assert!(!text_within(&"\u{e9}".repeat(6), 10));
    assert!(!text_within(&"\u{e9}".repeat(10), 10));
    assert!(text_within(&String::from("\u{20ac}\u{20ac}\u{20ac}a"), 10));
    assert!(!text_within(&String::from("\u{20ac}\u{20ac}\u{20ac}ab"), 10));
    assert!(text_within(&String::from("\u{1f600}\u{1f600}ab"), 10));
    assert!(!text_within(&String::from("\u{1f600}\u{1f600}abc"), 10));
    assert!(!text_within(&String::from("a"), 0));
}

#[test]
fn creation_measures_texts_in_bytes() {
    let ctx = creation(1_000, 5_000);
    let six_accents = "\u{e9}".repeat(6);
    assert_eq!(six_accents.chars().count(), 6);
    assert_eq!(six_accents.len(), 12);
    assert_creation_refused(ctx, "scout", &six_accents, "trades", pk(9), ErrorCode::InvalidSymbol);
    assert_creation_refused(ctx, &"\u{e9}".repeat(17), "SCT", "trades", pk(9), ErrorCode::InvalidName);
    assert_creation_refused(ctx, "scout", "SCT", &"\u{e9}".repeat(101), pk(9), ErrorCode::InvalidPurpose);
    let mut accepted = ctx;
    let event = create(
        &mut accepted,
        &"\u{e9}".repeat(16),
        &"\u{e9}".repeat(5),
        &"\u{e9}".repeat(100),
        pk(9),
    )
    .unwrap();
    assert_eq!(event.name, "\u{e9}".repeat(16));
    assert_eq!(event.symbol, "\u{e9}".repeat(5));
    assert_eq!(accepted.factory_state.total_agents_created, 7);
}

#[test]
fn creation_fee_is_replaced() {
    let mut ctx = UpdateCreationFee { factory_state: factory(1_000) };
    update_creation_fee(&mut ctx, 2_500);
    assert_eq!(ctx.factory_state, factory(2_500));
    update_creation_fee(&mut ctx, 0);
    assert_eq!(ctx.factory_state, factory(0));
}

#[test]
fn every_factory_error_has_its_message() {
    assert_eq!(ErrorCode::InvalidName.message(), "Name must be between 1 and 32 characters");
    assert_eq!(ErrorCode::InvalidSymbol.message(), "Symbol must be between 1 and 10 characters");
    assert_eq!(ErrorCode::InvalidPurpose.message(), "Purpose must be between 1 and 200 characters");
    assert_eq!(ErrorCode::InvalidAgentWallet.message(), "Agent wallet cannot be default pubkey");
    assert_eq!(ErrorCode::TreasuryMismatch.message(), "Treasury account is not the factory treasury");
    assert_eq!(ErrorCode::InsufficientFunds.message(), "Insufficient funds for the creation fee");
    assert_eq!(ErrorCode::ArithmeticOverflow.message(), "Arithmetic overflow");
}
