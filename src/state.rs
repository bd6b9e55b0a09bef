//! The persisted records: the distribution policy, the per-day progress of
//! the distribution, and the owner of the fee-collecting position.
use vstd::prelude::*;
use crate::error::ErrorCode;
use crate::math::MAX_BPS;
use crate::Pubkey;

verus! {

/// Seconds in one distribution window (24 hours).
pub const SECONDS_PER_DAY: i64 = 86400;

/// The distribution policy of one vault; fixed once created.
#[derive(Clone, Copy, Debug)]
pub struct PolicyConfig {
    pub bump: u8,
    /// Who created the policy.
    pub authority: Pubkey,
    /// The vault that the policy serves.
    pub vault: Pubkey,
    /// Upper bound of the investors' share of the fees, in basis points.
    pub investor_fee_share_bps: u16,
    /// Optional cap on what investors receive per day.
    pub daily_cap_lamports: Option<u64>,
    /// Payouts below this threshold are carried forward instead of paid.
    pub min_payout_lamports: u64,
    /// The initial total investor allocation (Y0) that normalises the
    /// locked fraction.
    pub y0_total_streamed: u64,
    /// Where the creator's remainder goes.
    pub creator_quote_ata: Pubkey,
}

impl PolicyConfig {
    /// The policy's invariant: a share of at most 100% and a non-zero Y0.
    pub open spec fn wf(&self) -> bool {
        self.investor_fee_share_bps <= MAX_BPS && self.y0_total_streamed > 0
    }
}

/// The record that owns the fee-collecting position of a vault.
#[derive(Clone, Copy, Debug)]
pub struct InvestorFeePositionOwner {
    pub bump: u8,
    /// The vault that this position serves.
    pub vault: Pubkey,
    /// The pool whose fees the position collects.
    pub pool: Pubkey,
    /// The lock escrow that holds the position.
    pub lock_escrow: Pubkey,
    pub lp_mint: Pubkey,
    /// The mint in which fees are distributed.
    pub quote_mint: Pubkey,
    /// The pool's other mint, in which no fees may arrive.
    pub base_mint: Pubkey,
    pub created_at: i64,
    pub last_fee_claim: i64,
    /// Quote fees claimed over the position's lifetime.
    pub total_fees_claimed: u64,
}

/// Progress of the distribution within the current 24-hour window; reused
/// from day to day.
#[derive(Clone, Copy, Debug)]
pub struct DailyProgress {
    pub bump: u8,
    /// The vault this progress tracks.
    pub vault: Pubkey,
    /// Day identifier (`timestamp / 86400`); 0 until first used.
    pub day_id: u64,
    /// Start of the day's window (`day_id * 86400`).
    pub window_start: i64,
    pub last_crank_ts: i64,
    /// Quote fees taken in for the day.
    pub total_quote_claimed_today: u64,
    /// Paid to investors during the day.
    pub investor_distributed_today: u64,
    /// Paid to the creator when the day closed.
    pub creator_distributed_today: u64,
    /// Dust withheld from the pages so far, seed of the next page.
    pub carry_over_lamports: u64,
    /// Pages processed so far (0-indexed cursor).
    pub current_page: u16,
    /// Pages that the day was declared to have.
    pub total_pages: u16,
    /// Whether the day is closed.
    pub is_finalized: bool,
}

/// The window start of day `day_id`.
pub open spec fn window_start_of(day_id: u64) -> int {
    day_id * SECONDS_PER_DAY
}

impl DailyProgress {
    /// A record that has never been used.
    pub fn new() -> (r: DailyProgress)
        ensures
            r.is_unused(),
            r.day_id == 0,
            r.current_page == 0,
            r.total_pages == 0,
            !r.is_finalized,
            r.wf(),
    {
        DailyProgress {
            bump: 0,
            vault: [0u8; 32],
            day_id: 0,
            window_start: 0,
            last_crank_ts: 0,
            total_quote_claimed_today: 0,
            investor_distributed_today: 0,
            creator_distributed_today: 0,
            carry_over_lamports: 0,
            current_page: 0,
            total_pages: 0,
            is_finalized: false,
        }
    }

    /// The record has not been used yet (its day is the sentinel 0).
    pub open spec fn is_unused(&self) -> bool {
        self.day_id == 0
    }

    /// The record's invariant: the cursor never passes the declared pages;
    /// an open day that is in use still has a page to process; nothing goes
    /// to the creator before the day closes; and nothing is paid to
    /// investors before the first page is done.
    pub open spec fn wf(&self) -> bool {
        &&& self.current_page <= self.total_pages
        &&& (!self.is_finalized && !self.is_unused()) ==> self.current_page < self.total_pages
        &&& !self.is_finalized ==> self.creator_distributed_today == 0
        &&& self.current_page == 0 ==> self.investor_distributed_today == 0
    }

    /// Whether `t` falls in `[window_start, window_start + 86400)`.
    pub open spec fn within_window(&self, t: i64) -> bool {
        self.window_start <= t < self.window_start + SECONDS_PER_DAY
    }

    /// Whether `current_time` lies in the current 24-hour window.
    pub fn is_within_window(&self, current_time: i64) -> (r: bool)
        ensures
            r == self.within_window(current_time),
    {
        current_time >= self.window_start && (current_time as i128) < (self.window_start as i128)
            + (SECONDS_PER_DAY as i128)
    }

    /// Whether a page may run at `current_time`: inside the window and not
    /// finalized.
    pub fn can_crank(&self, current_time: i64) -> (r: bool)
        ensures
            r == (self.within_window(current_time) && !self.is_finalized),
    {
        self.is_within_window(current_time) && !self.is_finalized
    }

    /// Whether every declared page of the day has been processed.
    pub fn is_complete(&self) -> (r: bool)
        ensures
            r == (self.current_page >= self.total_pages),
    {
        self.current_page >= self.total_pages
    }

    /// The record as `reset_for_new_day` leaves it.
    pub open spec fn reset_spec(self, day_id: u64, current_time: i64) -> DailyProgress {
        DailyProgress {
            day_id,
            window_start: window_start_of(day_id) as i64,
            last_crank_ts: current_time,
            total_quote_claimed_today: 0,
            investor_distributed_today: 0,
            creator_distributed_today: 0,
            carry_over_lamports: 0,
            current_page: 0,
            is_finalized: false,
            ..self
        }
    }

    /// Starts day `day_id`: sets the window and zeroes every per-day counter.
    pub fn reset_for_new_day(&mut self, day_id: u64, current_time: i64)
        requires
            window_start_of(day_id) <= i64::MAX,
        ensures
            *final(self) == old(self).reset_spec(day_id, current_time),
    {
        self.day_id = day_id;
        self.window_start = (day_id * 86400) as i64;
        self.last_crank_ts = current_time;
        self.total_quote_claimed_today = 0;
        self.investor_distributed_today = 0;
        self.creator_distributed_today = 0;
        self.carry_over_lamports = 0;
        self.current_page = 0;
        self.is_finalized = false;
    }
}

} // verus!
