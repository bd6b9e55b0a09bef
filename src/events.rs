//! Structured records of each phase, for observers off the ledger.
use vstd::prelude::*;
use crate::Pubkey;

verus! {

/// The fee-collecting position of a vault was set up.
#[derive(Clone, Copy, Debug)]
pub struct HonoraryPositionInitialized {
    pub vault: Pubkey,
    pub pool: Pubkey,
    pub position: Pubkey,
    pub quote_mint: Pubkey,
    pub base_mint: Pubkey,
    pub timestamp: i64,
}

/// The first page of a day took in the quote fees.
#[derive(Clone, Copy, Debug)]
pub struct QuoteFeesClaimed {
    pub day_id: u64,
    pub amount_claimed: u64,
    pub position: Pubkey,
    pub timestamp: i64,
}

/// A page of investors was paid.
#[derive(Clone, Copy, Debug)]
pub struct InvestorPayoutPage {
    pub day_id: u64,
    pub page: u16,
    pub investors_paid: u16,
    pub total_distributed: u64,
    pub dust_carried: u64,
    pub timestamp: i64,
}

/// The day closed and the creator received the remainder.
#[derive(Clone, Copy, Debug)]
pub struct CreatorPayoutDayClosed {
    pub day_id: u64,
    pub creator_amount: u64,
    pub total_investors_paid: u64,
    pub total_pages: u16,
    pub timestamp: i64,
}

/// A distribution policy was created.
#[derive(Clone, Copy, Debug)]
pub struct PolicyConfigCreated {
    pub vault: Pubkey,
    pub authority: Pubkey,
    pub investor_fee_share_bps: u16,
    pub y0_total_streamed: u64,
    pub timestamp: i64,
}

/// The progress record moved on to a new day.
#[derive(Clone, Copy, Debug)]
pub struct DailyProgressReset {
    pub vault: Pubkey,
    pub old_day_id: u64,
    pub new_day_id: u64,
    pub timestamp: i64,
}

} // verus!
