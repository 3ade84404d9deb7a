use vstd::prelude::*;

use crate::manager::deposit::{deposit_error, deposit_outcome, DepositFunds};
use crate::manager::lifecycle::{
    pause_outcome, resume_outcome, update_purpose_error, update_purpose_outcome, PauseAgent,
    ResumeAgent, UpdatePurpose,
};
use crate::manager::revenue::{
    claim_error, claim_outcome, lemma_share_within_pool, pro_rata_share, ClaimRevenue,
};
use crate::manager::state::{AgentState, AgentStatus, ErrorCode};
use crate::manager::trade::{
    holder_revenue_of, platform_fee_of, profit_of, trade_outcome, ExecuteTrade,
};

verus! {

/// A deposit that is not refused raises the vault's balance by exactly the
/// amount, which the depositor pays, and leaves the ledger record, its
/// counters included, as it was.
pub proof fn lemma_deposit_adds_amount(ctx: DepositFunds, amount: u64, after: DepositFunds)
    requires
        deposit_outcome(ctx, amount) == Ok::<DepositFunds, ErrorCode>(after),
    ensures
        amount > 0,
        after.vault.lamports == ctx.vault.lamports + amount,
        after.depositor.lamports == ctx.depositor.lamports - amount,
        after.agent_state == ctx.agent_state,
        after.vault.key == ctx.vault.key,
        after.depositor.key == ctx.depositor.key,
{
}

/// A deposit keeps a revenue pool covered: if the vault held at least the
/// pool before, it does so afterwards.
pub proof fn lemma_deposit_keeps_pool_covered(ctx: DepositFunds, amount: u64, after: DepositFunds)
    requires
        deposit_outcome(ctx, amount) == Ok::<DepositFunds, ErrorCode>(after),
        ctx.agent_state.revenue_pool <= ctx.vault.lamports,
    ensures
        after.agent_state.revenue_pool <= after.vault.lamports,
        after.vault.lamports + after.depositor.lamports == ctx.vault.lamports
            + ctx.depositor.lamports,
{
}

/// An agent that has just been paused cannot be paused again.
pub proof fn lemma_pause_twice_is_refused(ctx: PauseAgent, after: PauseAgent)
    requires
        pause_outcome(ctx) == Ok::<PauseAgent, ErrorCode>(after),
    ensures
        ctx.agent_state.status == AgentStatus::Active,
        after.agent_state.status == AgentStatus::Paused,
        pause_outcome(after) == Err::<PauseAgent, ErrorCode>(ErrorCode::AlreadyPaused),
{
}

/// A pause and a resumption change the status and nothing else of the
/// record.
pub proof fn lemma_status_change_keeps_record(
    pause: PauseAgent,
    paused: PauseAgent,
    resume: ResumeAgent,
    resumed: ResumeAgent,
)
    requires
        pause_outcome(pause) == Ok::<PauseAgent, ErrorCode>(paused),
        resume_outcome(resume) == Ok::<ResumeAgent, ErrorCode>(resumed),
    ensures
        paused.agent_state == (AgentState { status: AgentStatus::Paused, ..pause.agent_state }),
        resumed.agent_state == (AgentState { status: AgentStatus::Active, ..resume.agent_state }),
        pause.agent_state.wf() ==> paused.agent_state.wf(),
        resume.agent_state.wf() ==> resumed.agent_state.wf(),
{
}

/// The authority cannot resume an agent that is active.
pub proof fn lemma_resume_while_active_is_refused(ctx: ResumeAgent)
    requires
        ctx.authority == ctx.agent_state.authority,
        ctx.agent_state.status == AgentStatus::Active,
    ensures
        resume_outcome(ctx) == Err::<ResumeAgent, ErrorCode>(ErrorCode::AlreadyActive),
{
}

/// The agent's wallet cannot trade while the agent is paused, whatever the
/// trade and whatever the vault holds.
pub proof fn lemma_trade_while_paused_is_refused(
    ctx: ExecuteTrade,
    vault_proof: Option<Seq<u8>>,
    amount: u64,
    actual_output: u64,
)
    requires
        ctx.signer == ctx.agent_state.agent_wallet,
        ctx.agent_state.status == AgentStatus::Paused,
    ensures
        trade_outcome(ctx, vault_proof, amount, actual_output) == Err::<ExecuteTrade, ErrorCode>(
            ErrorCode::NotActive,
        ),
{
}

/// Only trades depend on the status: whether a deposit, a claim or a change
/// of purpose is refused, and why, is the same for an active and for a
/// paused agent.
pub proof fn lemma_only_trades_depend_on_status(
    deposit: DepositFunds,
    amount: u64,
    claim: ClaimRevenue,
    vault_proof: Option<Seq<u8>>,
    update: UpdatePurpose,
    new_purpose: String,
    status: AgentStatus,
)
    ensures
        deposit_error(
            DepositFunds { agent_state: AgentState { status, ..deposit.agent_state }, ..deposit },
            amount,
        ) == deposit_error(deposit, amount),
        claim_error(
            ClaimRevenue { agent_state: AgentState { status, ..claim.agent_state }, ..claim },
            vault_proof,
        ) == claim_error(claim, vault_proof),
        update_purpose_error(
            UpdatePurpose { agent_state: AgentState { status, ..update.agent_state }, ..update },
            new_purpose,
        ) == update_purpose_error(update, new_purpose),
{
}

/// A pause is undone by a resumption: the authority that paused an agent can
/// resume it, and the record is then what it was before the pause. The
/// status moves between active and paused and takes no other value.
pub proof fn lemma_pause_then_resume(ctx: PauseAgent, paused: PauseAgent)
    requires
        pause_outcome(ctx) == Ok::<PauseAgent, ErrorCode>(paused),
    ensures
        resume_outcome(
            ResumeAgent {
                agent_state: paused.agent_state,
                agent_key: paused.agent_key,
                authority: paused.authority,
            },
        ) == Ok::<ResumeAgent, ErrorCode>(
            ResumeAgent {
                agent_state: ctx.agent_state,
                agent_key: ctx.agent_key,
                authority: ctx.authority,
            },
        ),
{
}

/// A change of purpose that is not refused stores a text of 1 to 200
/// characters and changes nothing else: not the name, the status, the
/// counters or the revenue pool.
pub proof fn lemma_update_purpose_keeps_record(
    ctx: UpdatePurpose,
    new_purpose: String,
    after: UpdatePurpose,
)
    requires
        update_purpose_outcome(ctx, new_purpose) == Ok::<UpdatePurpose, ErrorCode>(after),
    ensures
        1 <= after.agent_state.purpose@.len() <= 200,
        after.agent_state.purpose == new_purpose,
        after.agent_state.name == ctx.agent_state.name,
        after.agent_state.status == ctx.agent_state.status,
        after.agent_state.total_trades == ctx.agent_state.total_trades,
        after.agent_state.total_volume == ctx.agent_state.total_volume,
        after.agent_state.revenue_pool == ctx.agent_state.revenue_pool,
        ctx.agent_state.wf() ==> after.agent_state.wf(),
{
}

/// A settled trade whose output does not exceed its input leaves the revenue
/// pool, the vault and the treasury as they were, and is counted all the
/// same: one more trade, and its input added to the volume.
pub proof fn lemma_trade_without_gain(
    ctx: ExecuteTrade,
    vault_proof: Option<Seq<u8>>,
    amount: u64,
    actual_output: u64,
    after: ExecuteTrade,
)
    requires
        actual_output <= amount,
        trade_outcome(ctx, vault_proof, amount, actual_output) == Ok::<ExecuteTrade, ErrorCode>(
            after,
        ),
    ensures
        after.agent_state.revenue_pool == ctx.agent_state.revenue_pool,
        after.vault == ctx.vault,
        after.treasury == ctx.treasury,
        after.agent_state.total_trades == ctx.agent_state.total_trades + 1,
        after.agent_state.total_volume == ctx.agent_state.total_volume + amount,
{
}

/// A settled trade that gains a hundred units or more pays a positive fee,
/// the hundredth part of the gain rounded down: the vault loses exactly the
/// fee, the treasury receives it, and the rest of the gain is added to the
/// revenue pool.
pub proof fn lemma_trade_with_fee(
    ctx: ExecuteTrade,
    vault_proof: Option<Seq<u8>>,
    amount: u64,
    actual_output: u64,
    after: ExecuteTrade,
)
    requires
        actual_output > amount,
        actual_output - amount >= 100,
        trade_outcome(ctx, vault_proof, amount, actual_output) == Ok::<ExecuteTrade, ErrorCode>(
            after,
        ),
    ensures
        platform_fee_of(actual_output - amount) == (actual_output - amount) / 100,
        platform_fee_of(actual_output - amount) > 0,
        after.vault.lamports == ctx.vault.lamports - platform_fee_of(actual_output - amount),
        after.treasury.lamports == ctx.treasury.lamports + platform_fee_of(
            actual_output - amount,
        ),
        after.agent_state.revenue_pool == ctx.agent_state.revenue_pool + (actual_output - amount)
            - platform_fee_of(actual_output - amount),
        after.agent_state.total_trades == ctx.agent_state.total_trades + 1,
        after.agent_state.total_volume == ctx.agent_state.total_volume + amount,
{
}

/// A settled trade that gains less than a hundred units pays no fee: the
/// whole gain is added to the revenue pool, and nothing leaves the vault.
pub proof fn lemma_trade_below_fee(
    ctx: ExecuteTrade,
    vault_proof: Option<Seq<u8>>,
    amount: u64,
    actual_output: u64,
    after: ExecuteTrade,
)
    requires
        0 < actual_output - amount < 100,
        trade_outcome(ctx, vault_proof, amount, actual_output) == Ok::<ExecuteTrade, ErrorCode>(
            after,
        ),
    ensures
        platform_fee_of(actual_output - amount) == 0,
        after.agent_state.revenue_pool == ctx.agent_state.revenue_pool + (actual_output - amount),
        after.vault == ctx.vault,
        after.treasury == ctx.treasury,
        after.agent_state.total_trades == ctx.agent_state.total_trades + 1,
        after.agent_state.total_volume == ctx.agent_state.total_volume + amount,
{
}

/// The fee and the holders' revenue of a trade add up to its gain, and the
/// fee is never more than a hundredth of it.
pub proof fn lemma_profit_is_split(amount: u64, actual_output: u64)
    ensures
        platform_fee_of(profit_of(amount, actual_output)) + holder_revenue_of(
            profit_of(amount, actual_output),
        ) == profit_of(amount, actual_output),
        0 <= platform_fee_of(profit_of(amount, actual_output)),
        100 * platform_fee_of(profit_of(amount, actual_output)) <= profit_of(
            amount,
            actual_output,
        ),
{
}

/// A settled trade raises the count of trades and the volume, never lowers
/// the revenue pool, and touches nothing else of the record. What leaves the
/// vault arrives at the treasury.
pub proof fn lemma_trade_keeps_record(
    ctx: ExecuteTrade,
    vault_proof: Option<Seq<u8>>,
    amount: u64,
    actual_output: u64,
    after: ExecuteTrade,
)
    requires
        trade_outcome(ctx, vault_proof, amount, actual_output) == Ok::<ExecuteTrade, ErrorCode>(
            after,
        ),
    ensures
        after.agent_state.total_trades > ctx.agent_state.total_trades,
        after.agent_state.total_volume > ctx.agent_state.total_volume,
        after.agent_state.revenue_pool >= ctx.agent_state.revenue_pool,
        after.agent_state.status == ctx.agent_state.status,
        after.agent_state.authority == ctx.agent_state.authority,
        after.agent_state.agent_wallet == ctx.agent_state.agent_wallet,
        after.agent_state.name == ctx.agent_state.name,
        after.agent_state.purpose == ctx.agent_state.purpose,
        ctx.agent_state.wf() ==> after.agent_state.wf(),
        after.vault.lamports + after.treasury.lamports == ctx.vault.lamports
            + ctx.treasury.lamports,
{
}

/// A settled trade keeps the revenue pool covered where the vault holds at
/// least the pool and the trade's gain together. A trade credits the pool
/// from an output that is attested and not paid in, so that without this
/// the pool can come to exceed the vault.
pub proof fn lemma_trade_keeps_pool_covered(
    ctx: ExecuteTrade,
    vault_proof: Option<Seq<u8>>,
    amount: u64,
    actual_output: u64,
    after: ExecuteTrade,
)
    requires
        trade_outcome(ctx, vault_proof, amount, actual_output) == Ok::<ExecuteTrade, ErrorCode>(
            after,
        ),
        ctx.agent_state.revenue_pool + profit_of(amount, actual_output) <= ctx.vault.lamports,
    ensures
        after.agent_state.revenue_pool <= after.vault.lamports,
{
}

/// A paid claim pays the holder's share, which is the pool times the
/// holding over the supply, rounded down, and is not zero: the pool shrinks
/// by the share, the vault loses exactly the share, and the claimant
/// receives it. Nothing else of the record changes.
pub proof fn lemma_claim_pays_share(
    ctx: ClaimRevenue,
    vault_proof: Option<Seq<u8>>,
    after: ClaimRevenue,
)
    requires
        ctx.wf(),
        claim_outcome(ctx, vault_proof) == Ok::<ClaimRevenue, ErrorCode>(after),
    ensures
        pro_rata_share(
            ctx.agent_state.revenue_pool,
            ctx.user_token_account.amount,
            ctx.token_mint.supply,
        ) == (ctx.agent_state.revenue_pool * ctx.user_token_account.amount) / (
        ctx.token_mint.supply as int),
        0 < pro_rata_share(
            ctx.agent_state.revenue_pool,
            ctx.user_token_account.amount,
            ctx.token_mint.supply,
        ) <= ctx.agent_state.revenue_pool,
        after.agent_state.revenue_pool == ctx.agent_state.revenue_pool - pro_rata_share(
            ctx.agent_state.revenue_pool,
            ctx.user_token_account.amount,
            ctx.token_mint.supply,
        ),
        after.vault.lamports == ctx.vault.lamports - pro_rata_share(
            ctx.agent_state.revenue_pool,
            ctx.user_token_account.amount,
            ctx.token_mint.supply,
        ),
        after.user.lamports == ctx.user.lamports + pro_rata_share(
            ctx.agent_state.revenue_pool,
            ctx.user_token_account.amount,
            ctx.token_mint.supply,
        ),
        ctx.agent_state.revenue_pool - after.agent_state.revenue_pool == ctx.vault.lamports
            - after.vault.lamports,
        after.agent_state.total_trades == ctx.agent_state.total_trades,
        after.agent_state.total_volume == ctx.agent_state.total_volume,
        after.agent_state.status == ctx.agent_state.status,
        after.agent_state.name == ctx.agent_state.name,
        after.agent_state.purpose == ctx.agent_state.purpose,
        after.wf(),
        ctx.agent_state.wf() ==> after.agent_state.wf(),
{
    lemma_share_within_pool(
        ctx.agent_state.revenue_pool,
        ctx.user_token_account.amount,
        ctx.token_mint.supply,
    );
}

/// While the vault holds at least the revenue pool, no claim fails for want
/// of funds, and a paid claim leaves the pool covered.
pub proof fn lemma_claim_keeps_pool_covered(ctx: ClaimRevenue, vault_proof: Option<Seq<u8>>)
    requires
        ctx.wf(),
        ctx.agent_state.revenue_pool <= ctx.vault.lamports,
    ensures
        claim_outcome(ctx, vault_proof) != Err::<ClaimRevenue, ErrorCode>(
            ErrorCode::InsufficientFunds,
        ),
        claim_outcome(ctx, vault_proof) matches Ok(after) ==> {
            &&& after.agent_state.revenue_pool <= after.vault.lamports
            &&& after.vault.lamports + after.user.lamports == ctx.vault.lamports
                + ctx.user.lamports
        },
{
    if ctx.user_token_account.amount > 0 {
        lemma_share_within_pool(
            ctx.agent_state.revenue_pool,
            ctx.user_token_account.amount,
            ctx.token_mint.supply,
        );
    }
}

/// A claim whose share rounds down to zero is refused, whatever else is the
/// case: as too small where the pool holds revenue and the claimant holds
/// tokens, and for want of one of these otherwise.
pub proof fn lemma_zero_share_is_refused(ctx: ClaimRevenue, vault_proof: Option<Seq<u8>>)
    requires
        pro_rata_share(
            ctx.agent_state.revenue_pool,
            ctx.user_token_account.amount,
            ctx.token_mint.supply,
        ) == 0,
    ensures
        claim_outcome(ctx, vault_proof) is Err,
        ctx.agent_state.revenue_pool > 0 && ctx.user_token_account.amount > 0 ==> claim_outcome(
            ctx,
            vault_proof,
        ) == Err::<ClaimRevenue, ErrorCode>(ErrorCode::ShareTooSmall),
{
}

/// After a paid claim, the same holder claiming again with the same holding
/// and no new revenue is refused, provided that what is left of the pool
/// gives that holding a share of zero.
pub proof fn lemma_repeated_claim_is_refused(
    ctx: ClaimRevenue,
    vault_proof: Option<Seq<u8>>,
    after: ClaimRevenue,
)
    requires
        ctx.wf(),
        claim_outcome(ctx, vault_proof) == Ok::<ClaimRevenue, ErrorCode>(after),
        pro_rata_share(
            after.agent_state.revenue_pool,
            ctx.user_token_account.amount,
            ctx.token_mint.supply,
        ) == 0,
    ensures
        after.user_token_account == ctx.user_token_account,
        after.token_mint == ctx.token_mint,
        claim_outcome(after, vault_proof) == Err::<ClaimRevenue, ErrorCode>(
            if after.agent_state.revenue_pool == 0 {
                ErrorCode::NoRevenueAvailable
            } else {
                ErrorCode::ShareTooSmall
            },
        ),
{
}

/// A holder of the whole supply is paid the whole pool, and a second claim
/// finds no revenue.
pub proof fn lemma_sole_holder_claims_once(
    ctx: ClaimRevenue,
    vault_proof: Option<Seq<u8>>,
    after: ClaimRevenue,
)
    requires
        ctx.user_token_account.amount == ctx.token_mint.supply,
        claim_outcome(ctx, vault_proof) == Ok::<ClaimRevenue, ErrorCode>(after),
    ensures
        after.agent_state.revenue_pool == 0,
        after.vault.lamports == ctx.vault.lamports - ctx.agent_state.revenue_pool,
        claim_outcome(after, vault_proof) == Err::<ClaimRevenue, ErrorCode>(
            ErrorCode::NoRevenueAvailable,
        ),
{
    let pool = ctx.agent_state.revenue_pool as int;
    let supply = ctx.token_mint.supply as int;
    assert((pool * supply) / supply == pool) by (nonlinear_arith)
        requires
            0 < supply,
    ;
}

} // verus!
