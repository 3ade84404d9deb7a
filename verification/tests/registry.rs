use agent_vault::account::NativeAccount;
use agent_vault::address::Address;
use agent_vault::registry::{
    claim_revenue, deposit_revenue, register_agent, transfer_ownership, AgentRegistry,
    ClaimRevenue, DepositRevenue, ErrorCode, RegisterAgent, RegisterAgentBumps,
    TransferOwnership,
};

fn owner_key(byte: u8) -> Address {
    Address::new([byte; 32])
}

fn entry(total_revenue: u64, claimed_revenue: u64) -> AgentRegistry {
    AgentRegistry {
        agent_id: String::from("agent-7"),
        name: String::from("scout"),
        owner: owner_key(1),
        created_at: 1_700_000_000,
        total_revenue,
        claimed_revenue,
        bump: 251,
    }
}

fn blank_registration() -> RegisterAgent {
    RegisterAgent {
        registry: AgentRegistry {
            agent_id: String::from("old"),
            name: String::from("old"),
            owner: owner_key(0),
            created_at: 5,
            total_revenue: 5,
            claimed_revenue: 5,
            bump: 0,
        },
        owner: owner_key(1),
        bumps: RegisterAgentBumps { registry: 251 },
    }
}

#[test]
fn registration_fills_the_entry() {
    let mut ctx = blank_registration();
    assert_eq!(
        register_agent(&mut ctx, String::from("agent-7"), String::from("scout"), 1_700_000_000),
        Ok(())
    );
    assert_eq!(ctx.registry, entry(0, 0));
    assert_eq!(ctx.owner, owner_key(1));
    assert_eq!(ctx.bumps, RegisterAgentBumps { registry: 251 });
}

#[test]
fn registration_bounds_identifier_and_name() {
    let mut ctx = blank_registration();
    let before = ctx.clone();
    assert_eq!(
        register_agent(&mut ctx, "i".repeat(33), String::from("scout"), 1),
        Err(ErrorCode::AgentIdTooLong)
    );
    assert_eq!(ctx, before);
    assert_eq!(
        register_agent(&mut ctx, String::from("agent-7"), "n".repeat(65), 1),
        Err(ErrorCode::NameTooLong)
    );
    assert_eq!(ctx, before);
    assert_eq!(
        register_agent(&mut ctx, "i".repeat(33), "n".repeat(65), 1),
        Err(ErrorCode::AgentIdTooLong)
    );
    assert_eq!(register_agent(&mut ctx, "i".repeat(32), "n".repeat(64), -3), Ok(()));
    assert_eq!(ctx.registry.agent_id, "i".repeat(32));
    assert_eq!(ctx.registry.name, "n".repeat(64));
    assert_eq!(ctx.registry.created_at, -3);
    assert_eq!(register_agent(&mut ctx, String::new(), String::new(), 0), Ok(()));
    assert_eq!(ctx.registry.agent_id, "");
}

#[test]
fn registration_measures_texts_in_bytes() {
    let mut ctx = blank_registration();
    let before = ctx.clone();
    let twenty_accents = "\u{e9}".repeat(20);
    assert_eq!(twenty_accents.chars().count(), 20);
    assert_eq!(twenty_accents.len(), 40);
    assert_eq!(
        register_agent(&mut ctx, twenty_accents, String::from("scout"), 1),
        Err(ErrorCode::AgentIdTooLong)
    );
    assert_eq!(ctx, before);
    assert_eq!(
        register_agent(&mut ctx, "\u{e9}".repeat(17), String::from("scout"), 1),
        Err(ErrorCode::AgentIdTooLong)
    );
    assert_eq!(
        register_agent(&mut ctx, String::from("agent-7"), "\u{e9}".repeat(33), 1),
        Err(ErrorCode::NameTooLong)
    );
    assert_eq!(ctx, before);
    assert_eq!(register_agent(&mut ctx, "\u{e9}".repeat(16), "\u{e9}".repeat(32), 1), Ok(()));
    assert_eq!(ctx.registry.agent_id, "\u{e9}".repeat(16));
    assert_eq!(ctx.registry.name, "\u{e9}".repeat(32));
}

#[test]
fn owner_claims_all_unclaimed_revenue() {
    let mut ctx = ClaimRevenue {
        registry: entry(1_000, 400),
        registry_lamports: 5_000,
        owner: NativeAccount { key: owner_key(1), lamports: 10 },
    };
    assert_eq!(claim_revenue(&mut ctx), Ok(()));
    assert_eq!(ctx.registry, entry(1_000, 1_000));
    assert_eq!(ctx.registry_lamports, 4_400);
    assert_eq!(ctx.owner, NativeAccount { key: owner_key(1), lamports: 610 });
    let after = ctx.clone();
    assert_eq!(claim_revenue(&mut ctx), Err(ErrorCode::NoRevenueToClaim));
    assert_eq!(ctx, after);
}

#[test]
fn owner_claim_is_refused_without_revenue_or_balance() {
    let mut ctx = ClaimRevenue {
        registry: entry(400, 1_000),
        registry_lamports: 5_000,
        owner: NativeAccount { key: owner_key(1), lamports: 10 },
    };
    let before = ctx.clone();
    assert_eq!(claim_revenue(&mut ctx), Err(ErrorCode::InsufficientRevenue));
    assert_eq!(ctx, before);

    ctx.registry = entry(0, 0);
    assert_eq!(claim_revenue(&mut ctx), Err(ErrorCode::NoRevenueToClaim));

    ctx.registry = entry(1_000, 400);
    ctx.registry_lamports = 599;
    let before = ctx.clone();
    assert_eq!(claim_revenue(&mut ctx), Err(ErrorCode::InsufficientBalance));
    assert_eq!(ctx, before);
    ctx.registry_lamports = 600;
    assert_eq!(claim_revenue(&mut ctx), Ok(()));
    assert_eq!(ctx.registry_lamports, 0);

    let mut ctx = ClaimRevenue {
        registry: entry(1_000, 400),
        registry_lamports: 5_000,
        owner: NativeAccount { key: owner_key(1), lamports: u64::MAX - 599 },
    };
    let before = ctx.clone();
    assert_eq!(claim_revenue(&mut ctx), Err(ErrorCode::Overflow));
    assert_eq!(ctx, before);
}

#[test]
fn ownership_moves_to_the_new_owner() {
    let mut ctx = TransferOwnership { registry: entry(1_000, 400) };
    transfer_ownership(&mut ctx, owner_key(9));
    let mut expected = entry(1_000, 400);
    expected.owner = owner_key(9);
    assert_eq!(ctx.registry, expected);
}

#[test]
fn deposited_revenue_is_added_to_the_total() {
    let mut ctx = DepositRevenue {
        registry: entry(1_000, 400),
        registry_lamports: 5_000,
        platform: NativeAccount { key: owner_key(3), lamports: 800 },
    };
    assert_eq!(deposit_revenue(&mut ctx, 300), Ok(()));
    assert_eq!(ctx.registry, entry(1_300, 400));
    assert_eq!(ctx.registry_lamports, 5_300);
    assert_eq!(ctx.platform, NativeAccount { key: owner_key(3), lamports: 500 });
    assert_eq!(deposit_revenue(&mut ctx, 0), Ok(()));
    assert_eq!(ctx.registry, entry(1_300, 400));
    assert_eq!(ctx.registry_lamports, 5_300);
}

#[test]
fn deposited_revenue_needs_funds_and_room() {
    let mut ctx = DepositRevenue {
        registry: entry(1_000, 400),
        registry_lamports: 5_000,
        platform: NativeAccount { key: owner_key(3), lamports: 800 },
    };
    let before = ctx.clone();
    assert_eq!(deposit_revenue(&mut ctx, 801), Err(ErrorCode::InsufficientFunds));
    assert_eq!(ctx, before);

    ctx.registry_lamports = u64::MAX - 299;
    let before = ctx.clone();
    assert_eq!(deposit_revenue(&mut ctx, 300), Err(ErrorCode::Overflow));
    assert_eq!(ctx, before);

    ctx.registry_lamports = 5_000;
    ctx.registry.total_revenue = u64::MAX - 299;
    let before = ctx.clone();
    assert_eq!(deposit_revenue(&mut ctx, 300), Err(ErrorCode::Overflow));
    assert_eq!(ctx, before);
    assert_eq!(deposit_revenue(&mut ctx, 299), Ok(()));
    assert_eq!(ctx.registry.total_revenue, u64::MAX);
}

#[test]
fn every_registry_error_has_its_message() {
    assert_eq!(ErrorCode::AgentIdTooLong.message(), "Agent ID cannot be longer than 32 characters");
    assert_eq!(ErrorCode::NameTooLong.message(), "Name cannot be longer than 64 characters");
    assert_eq!(ErrorCode::InsufficientRevenue.message(), "Insufficient revenue to claim");
    assert_eq!(ErrorCode::NoRevenueToClaim.message(), "No revenue available to claim");
    assert_eq!(ErrorCode::InsufficientBalance.message(), "Insufficient balance in registry");
    assert_eq!(ErrorCode::InsufficientFunds.message(), "Insufficient funds to deposit");
    assert_eq!(ErrorCode::Overflow.message(), "Arithmetic overflow");
}
