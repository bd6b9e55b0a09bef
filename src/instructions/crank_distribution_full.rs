//! The permissionless daily crank that claims the position's fees itself.
//!
//! The claim is a call into the pool's program, made by the host: when
//! `fee_claim_due` says that the call opens the day's first page, the host
//! claims every available fee into the treasury, reads the balances again,
//! and then runs the page with them.
use vstd::prelude::*;
use crate::distribution::{CrankOutcome, open_day, open_day_checked};
use crate::error::ErrorCode;
use crate::instructions::crank_distribution::{CrankDistribution, crank_effect};

pub use crate::instructions::crank_distribution::InvestorData;

verus! {

/// The records and readings that one claiming crank call works on; the
/// treasury balances in `input` are those read after the claim.
pub type CrankDistributionFull = CrankDistribution;

/// Whether the call opens the day's first page (and so the fees are to be
/// claimed before it runs): the page's checks and window entry pass and
/// leave the cursor at 0.
pub fn fee_claim_due(ctx: &CrankDistributionFull, total_pages: u16, investor_data: &Vec<InvestorData>) -> (r:
    bool)
    ensures
        r == (open_day(
            ctx.daily_progress,
            ctx.investor_fee_position_owner.vault,
            ctx.input.progress_bump,
            ctx.input.now,
            total_pages,
            investor_data@.len(),
        ) matches Ok(q) && q.current_page == 0),
{
    match open_day_checked(
        &ctx.daily_progress,
        &ctx.investor_fee_position_owner.vault,
        ctx.input.progress_bump,
        ctx.input.now,
        total_pages,
        investor_data.len(),
    ) {
        Ok((opened, _)) => opened.current_page == 0,
        Err(_) => false,
    }
}

/// Processes one page of the day after the fee claim: the same page as the
/// plain crank, on the balances that the claim left in the treasury.
pub fn handler_full(ctx: &mut CrankDistributionFull, total_pages: u16, investor_data: &Vec<InvestorData>) -> (r:
    Result<CrankOutcome, ErrorCode>)
    ensures
        crank_effect(*old(ctx), *final(ctx), total_pages, investor_data@.len(), r),
{
    crate::instructions::crank_distribution::handler(ctx, total_pages, investor_data)
}

} // verus!
