use investor_fee_distributor::distribution::{CrankOutcome, PageInput};
use investor_fee_distributor::error::ErrorCode;
use investor_fee_distributor::instructions::crank_distribution::{CrankDistribution, InvestorData};
use investor_fee_distributor::instructions::crank_distribution_full::fee_claim_due;
use investor_fee_distributor::state::{DailyProgress, InvestorFeePositionOwner, PolicyConfig};
use investor_fee_distributor::streamflow::{AccountData, StreamflowStream, STREAMFLOW_PROGRAM_KEY};
use investor_fee_distributor::{crank_distribution, crank_distribution_full};

const DAY: i64 = 86400;
const CREATOR: [u8; 32] = [0xCC; 32];

fn policy(share: u16, cap: Option<u64>, min_payout: u64, y0: u64) -> PolicyConfig {
    PolicyConfig {
        bump: 1,
        authority: [0xAA; 32],
        vault: [0x11; 32],
        investor_fee_share_bps: share,
        daily_cap_lamports: cap,
        min_payout_lamports: min_payout,
        y0_total_streamed: y0,
        creator_quote_ata: CREATOR,
    }
}

fn owner() -> InvestorFeePositionOwner {
    InvestorFeePositionOwner {
        bump: 2,
        vault: [0x11; 32],
        pool: [0x22; 32],
        lock_escrow: [0x33; 32],
        lp_mint: [0x44; 32],
        quote_mint: [0x55; 32],
        base_mint: [0x66; 32],
        created_at: 0,
        last_fee_claim: 0,
        total_fees_claimed: 0,
    }
}

/// A record that locks `locked` until far in the future.
fn locked_stream(locked: u64) -> StreamflowStream {
    StreamflowStream {
        magic: StreamflowStream::MAGIC,
        version: 1,
        created_at: 0,
        withdrawn_amount: 0,
        canceled_at: 0,
        end_time: u64::MAX,
        last_withdrawn_at: 0,
        sender: [0u8; 32],
        sender_tokens: [0u8; 32],
        recipient: [0u8; 32],
        recipient_tokens: [0u8; 32],
        mint: [0u8; 32],
        escrow_tokens: [0u8; 32],
        start_time: u64::MAX - 1,
        deposited_amount: locked,
        period: 1,
        amount_per_period: 1,
        cliff: 0,
        cliff_amount: 0,
        cancelable_by_sender: false,
        cancelable_by_recipient: false,
        automatic_withdrawal: false,
        transferable_by_sender: false,
        transferable_by_recipient: false,
        can_topup: false,
        stream_name: [0u8; 64],
        can_pause: false,
        pause_cumulative: 0,
        last_rate_change_time: 0,
        funds_unlocked_at_last_rate_change: 0,
    }
}

fn encode(s: &StreamflowStream) -> Vec<u8> {
    let mut d = Vec::new();
    for v in [s.magic, s.version, s.created_at, s.withdrawn_amount, s.canceled_at, s.end_time, s.last_withdrawn_at] {
        d.extend_from_slice(&v.to_le_bytes());
    }
    for k in [s.sender, s.sender_tokens, s.recipient, s.recipient_tokens, s.mint, s.escrow_tokens] {
        d.extend_from_slice(&k);
    }
    for v in [s.start_time, s.deposited_amount, s.period, s.amount_per_period, s.cliff, s.cliff_amount] {
        d.extend_from_slice(&v.to_le_bytes());
    }
    for b in [
        s.cancelable_by_sender,
        s.cancelable_by_recipient,
        s.automatic_withdrawal,
        s.transferable_by_sender,
        s.transferable_by_recipient,
        s.can_topup,
    ] {
        d.push(b as u8);
    }
    d.extend_from_slice(&s.stream_name);
    d.push(s.can_pause as u8);
    for v in [s.pause_cumulative, s.last_rate_change_time, s.funds_unlocked_at_last_rate_change] {
        d.extend_from_slice(&v.to_le_bytes());
    }
    d
}

fn destination(i: usize) -> [u8; 32] {
    [100 + i as u8; 32]
}

fn investors(n: usize) -> Vec<InvestorData> {
    (0..n).map(|i| InvestorData { index: i as u32, quote_ata: destination(i) }).collect()
}

fn context(
    progress: DailyProgress,
    policy: PolicyConfig,
    now: i64,
    quote: u64,
    base: u64,
    streams: &[StreamflowStream],
) -> CrankDistribution {
    let mut remaining = Vec::new();
    for s in streams {
        remaining.push(AccountData { key: [1u8; 32], owner: STREAMFLOW_PROGRAM_KEY, data: encode(s) });
    }
    for i in 0..streams.len() {
        remaining.push(AccountData { key: destination(i), owner: [0u8; 32], data: Vec::new() });
    }
    CrankDistribution {
        daily_progress: progress,
        policy_config: policy,
        investor_fee_position_owner: owner(),
        input: PageInput {
            now,
            progress_bump: 9,
            treasury_quote_amount: quote,
            treasury_base_amount: base,
            creator_quote_ata: CREATOR,
            remaining_accounts: remaining,
        },
    }
}

fn amounts(outcome: &CrankOutcome) -> Vec<([u8; 32], u64)> {
    outcome.transfers.iter().map(|t| (t.to, t.amount)).collect()
}

#[test]
fn end_to_end_single_page_day() {
    let now = 10 * DAY + 100;
    let mut ctx = context(DailyProgress::new(), policy(7000, None, 1, 1000), now, 1000, 0, &[locked_stream(700)]);
    let outcome = crank_distribution(&mut ctx, 1, &investors(1)).unwrap();
    assert_eq!(amounts(&outcome), vec![(destination(0), 700), (CREATOR, 300)]);
    let p = ctx.daily_progress;
    assert_eq!(p.day_id, 10);
    assert_eq!(p.window_start, 10 * DAY);
    assert_eq!(p.vault, [0x11; 32]);
    assert_eq!(p.bump, 9);
    assert_eq!(p.total_quote_claimed_today, 1000);
    assert_eq!(p.investor_distributed_today, 700);
    assert_eq!(p.creator_distributed_today, 300);
    assert_eq!(p.carry_over_lamports, 0);
    assert_eq!(p.current_page, 1);
    assert_eq!(p.total_pages, 1);
    assert!(p.is_finalized);
    assert!(outcome.events.day_reset.is_none());
    let claimed = outcome.events.fees_claimed.unwrap();
    assert_eq!((claimed.day_id, claimed.amount_claimed, claimed.position), (10, 1000, [0x33; 32]));
    let page = outcome.events.payout_page.unwrap();
    assert_eq!((page.page, page.investors_paid, page.total_distributed, page.dust_carried), (1, 1, 700, 0));
    let closed = outcome.events.day_closed.unwrap();
    assert_eq!((closed.creator_amount, closed.total_investors_paid, closed.total_pages), (300, 700, 1));
}

#[test]
fn finalized_day_refuses_further_pages() {
    let now = 10 * DAY + 100;
    let mut ctx = context(DailyProgress::new(), policy(7000, None, 1, 1000), now, 1000, 0, &[locked_stream(700)]);
    crank_distribution(&mut ctx, 1, &investors(1)).unwrap();
    let before = ctx.daily_progress;
    ctx.input.now = now + 3600;
    assert_eq!(crank_distribution(&mut ctx, 1, &investors(1)).unwrap_err(), ErrorCode::DayAlreadyFinalized);
    assert_eq!(ctx.daily_progress.investor_distributed_today, before.investor_distributed_today);
    assert_eq!(ctx.daily_progress.creator_distributed_today, before.creator_distributed_today);
    assert_eq!(ctx.daily_progress.last_crank_ts, before.last_crank_ts);
}

#[test]
fn next_day_before_gate_is_refused() {
    let mut progress = DailyProgress::new();
    progress.reset_for_new_day(10, 10 * DAY + 5);
    progress.total_pages = 2;
    let mut ctx = context(progress, policy(7000, None, 1, 1000), 10 * DAY - 1, 1000, 0, &[locked_stream(700)]);
    assert_eq!(crank_distribution(&mut ctx, 1, &investors(1)).unwrap_err(), ErrorCode::TooEarlyForNextDay);
    assert_eq!(ctx.daily_progress.day_id, 10);
}

#[test]
fn next_day_after_gate_resets_the_record() {
    let now = 10 * DAY + 100;
    let mut ctx = context(DailyProgress::new(), policy(7000, None, 1, 1000), now, 1000, 0, &[locked_stream(700)]);
    crank_distribution(&mut ctx, 1, &investors(1)).unwrap();
    ctx.input.now = 11 * DAY + 7;
    ctx.input.treasury_quote_amount = 200;
    let outcome = crank_distribution(&mut ctx, 1, &investors(1)).unwrap();
    let reset = outcome.events.day_reset.unwrap();
    assert_eq!((reset.old_day_id, reset.new_day_id, reset.timestamp), (10, 11, 11 * DAY + 7));
    assert_eq!(amounts(&outcome), vec![(destination(0), 140), (CREATOR, 60)]);
    assert_eq!(ctx.daily_progress.day_id, 11);
    assert_eq!(ctx.daily_progress.total_quote_claimed_today, 200);
}

#[test]
fn zero_locked_batch_closes_the_day_for_the_creator() {
    let mut cancelled = locked_stream(700);
    cancelled.canceled_at = 1;
    let now = 10 * DAY + 100;
    let mut ctx = context(DailyProgress::new(), policy(7000, None, 1, 1000), now, 1000, 0, &[cancelled]);
    let outcome = crank_distribution(&mut ctx, 3, &investors(1)).unwrap();
    assert_eq!(amounts(&outcome), vec![(CREATOR, 1000)]);
    let p = ctx.daily_progress;
    assert_eq!((p.current_page, p.total_pages), (3, 3));
    assert!(p.is_finalized);
    assert_eq!(p.investor_distributed_today, 0);
    assert_eq!(p.creator_distributed_today, 1000);
    assert!(outcome.events.payout_page.is_none());
}

#[test]
fn two_page_day_carries_dust_and_sweeps_remainder() {
    let now = 10 * DAY + 100;
    let pol = policy(10000, None, 100, 1000);
    let mut ctx = context(DailyProgress::new(), pol, now, 1000, 0, &[locked_stream(600), locked_stream(10)]);
    let first = crank_distribution(&mut ctx, 2, &investors(2)).unwrap();
    assert_eq!(amounts(&first), vec![(destination(0), 600)]);
    assert_eq!(ctx.daily_progress.carry_over_lamports, 10);
    assert_eq!(ctx.daily_progress.current_page, 1);
    assert!(!ctx.daily_progress.is_finalized);
    assert!(first.events.day_closed.is_none());

    let progress = ctx.daily_progress;
    let mut ctx = context(progress, pol, now + 60, 0, 0, &[locked_stream(300)]);
    let second = crank_distribution(&mut ctx, 2, &investors(1)).unwrap();
    assert!(second.events.fees_claimed.is_none());
    assert_eq!(amounts(&second), vec![(destination(0), 303), (CREATOR, 97)]);
    let p = ctx.daily_progress;
    assert_eq!(p.investor_distributed_today, 903);
    assert_eq!(p.creator_distributed_today, 97);
    assert_eq!(p.investor_distributed_today + p.creator_distributed_today, p.total_quote_claimed_today);
    assert!(p.is_finalized);
}

#[test]
fn daily_cap_clamps_and_then_refuses() {
    let now = 10 * DAY + 100;
    let pol = policy(7000, Some(500), 1, 1000);
    let mut ctx = context(DailyProgress::new(), pol, now, 1000, 0, &[locked_stream(700)]);
    let first = crank_distribution(&mut ctx, 2, &investors(1)).unwrap();
    assert_eq!(amounts(&first), vec![(destination(0), 500)]);
    let progress = ctx.daily_progress;
    let mut ctx = context(progress, pol, now + 60, 0, 0, &[locked_stream(700)]);
    assert_eq!(crank_distribution(&mut ctx, 2, &investors(1)).unwrap_err(), ErrorCode::DailyCapReached);
    assert_eq!(ctx.daily_progress.current_page, 1);
}

#[test]
fn invalid_pages_and_batches_are_rejected() {
    let now = 10 * DAY + 100;
    let pol = policy(7000, None, 1, 1000);
    let mut ctx = context(DailyProgress::new(), pol, now, 1000, 0, &[locked_stream(700)]);
    assert_eq!(crank_distribution(&mut ctx, 0, &investors(1)).unwrap_err(), ErrorCode::InvalidTotalPages);
    assert_eq!(crank_distribution(&mut ctx, 1, &investors(0)).unwrap_err(), ErrorCode::InvalidInvestorPage);
    assert_eq!(crank_distribution(&mut ctx, 1, &investors(2)).unwrap_err(), ErrorCode::InvalidInvestorPage);
    assert_eq!(ctx.daily_progress.day_id, 0);
}

#[test]
fn base_fees_abort_the_page() {
    let now = 10 * DAY + 100;
    let mut ctx = context(DailyProgress::new(), policy(7000, None, 1, 1000), now, 1000, 5, &[locked_stream(700)]);
    assert_eq!(crank_distribution(&mut ctx, 1, &investors(1)).unwrap_err(), ErrorCode::BaseFeesDetected);
    assert_eq!(ctx.daily_progress.day_id, 0);
    assert_eq!(ctx.daily_progress.total_quote_claimed_today, 0);
}

#[test]
fn forged_record_aborts_the_page() {
    let now = 10 * DAY + 100;
    let mut ctx = context(DailyProgress::new(), policy(7000, None, 1, 1000), now, 1000, 0, &[locked_stream(700)]);
    ctx.input.remaining_accounts[0].owner = [0u8; 32];
    assert_eq!(crank_distribution(&mut ctx, 1, &investors(1)).unwrap_err(), ErrorCode::StreamflowAccountMismatch);
}

#[test]
fn time_outside_the_window_or_before_epoch_is_rejected() {
    let mut progress = DailyProgress::new();
    progress.day_id = 10;
    progress.window_start = 10 * DAY + 50000;
    progress.total_pages = 1;
    let mut ctx = context(progress, policy(7000, None, 1, 1000), 10 * DAY + 100, 1000, 0, &[locked_stream(700)]);
    assert_eq!(crank_distribution(&mut ctx, 1, &investors(1)).unwrap_err(), ErrorCode::OutsideWindow);
    ctx.input.now = -5;
    assert_eq!(crank_distribution(&mut ctx, 1, &investors(1)).unwrap_err(), ErrorCode::ArithmeticOverflow);
}

#[test]
fn claiming_crank_runs_the_same_page() {
    let now = 10 * DAY + 100;
    let mut ctx = context(DailyProgress::new(), policy(7000, None, 1, 1000), now, 1000, 0, &[locked_stream(700)]);
    assert!(fee_claim_due(&ctx, 1, &investors(1)));
    assert!(!fee_claim_due(&ctx, 0, &investors(1)));
    let outcome = crank_distribution_full(&mut ctx, 1, &investors(1)).unwrap();
    assert_eq!(amounts(&outcome), vec![(destination(0), 700), (CREATOR, 300)]);
    assert!(!fee_claim_due(&ctx, 1, &investors(1)));
}

#[test]
fn fee_claim_is_not_due_mid_day() {
    let now = 10 * DAY + 100;
    let pol = policy(7000, None, 1, 1000);
    let mut ctx = context(DailyProgress::new(), pol, now, 1000, 0, &[locked_stream(700)]);
    crank_distribution(&mut ctx, 2, &investors(1)).unwrap();
    assert_eq!(ctx.daily_progress.current_page, 1);
    assert!(!fee_claim_due(&ctx, 2, &investors(1)));
}

#[test]
fn pages_of_one_day_each_size_their_share_from_the_whole_pool() {
    // Each page derives its investor share from the day's claimed fees, so
    // two fully locked pages together pay investors more than was claimed.
    let now = 10 * DAY + 100;
    let pol = policy(10000, None, 1, 1000);
    let mut ctx = context(DailyProgress::new(), pol, now, 1000, 0, &[locked_stream(1000)]);
    let first = crank_distribution(&mut ctx, 2, &investors(1)).unwrap();
    assert_eq!(amounts(&first), vec![(destination(0), 1000)]);
    let progress = ctx.daily_progress;
    let mut ctx = context(progress, pol, now + 60, 0, 0, &[locked_stream(1000)]);
    let second = crank_distribution(&mut ctx, 2, &investors(1)).unwrap();
    assert_eq!(amounts(&second), vec![(destination(0), 1000)]);
    let p = ctx.daily_progress;
    assert!(p.is_finalized);
    assert_eq!((p.total_quote_claimed_today, p.investor_distributed_today, p.creator_distributed_today), (1000, 2000, 0));
}
