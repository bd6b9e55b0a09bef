//! The permissionless daily crank, for fees already moved into the treasury.
use vstd::prelude::*;
use crate::distribution::{CrankOutcome, PageInput, crank_page, page_result};
use crate::error::ErrorCode;
use crate::state::{DailyProgress, InvestorFeePositionOwner, PolicyConfig};
use crate::Pubkey;

verus! {

/// One investor of a page.
#[derive(Clone, Copy, Debug)]
pub struct InvestorData {
    /// Position in the investor list.
    pub index: u32,
    /// The investor's quote token destination.
    pub quote_ata: Pubkey,
}

/// The records and readings that one crank call works on.
#[derive(Debug)]
pub struct CrankDistribution {
    pub daily_progress: DailyProgress,
    pub policy_config: PolicyConfig,
    pub investor_fee_position_owner: InvestorFeePositionOwner,
    pub input: PageInput,
}

/// What a crank call does: only the progress record may change; on success
/// it holds the page's result and the outcome lists the page's transfers and
/// events; on failure it is unchanged.
pub open spec fn crank_effect(
    before: CrankDistribution,
    after: CrankDistribution,
    total_pages: u16,
    n_investors: nat,
    r: Result<CrankOutcome, ErrorCode>,
) -> bool {
    &&& after.policy_config == before.policy_config
    &&& after.investor_fee_position_owner == before.investor_fee_position_owner
    &&& after.input == before.input
    &&& match page_result(
        before.daily_progress,
        before.policy_config,
        before.investor_fee_position_owner,
        before.input,
        total_pages,
        n_investors,
    ) {
        Ok((q, transfers, events)) => r is Ok && after.daily_progress == q && r->Ok_0.transfers@
            == transfers && r->Ok_0.events == events,
        Err(e) => r is Err && r->Err_0 == e && after.daily_progress == before.daily_progress,
    }
}

/// Processes one page of the day for the investors in `investor_data`, whose
/// vesting records and destinations stand in `ctx.input.remaining_accounts`.
/// Only the progress record changes, and only on success.
pub fn handler(ctx: &mut CrankDistribution, total_pages: u16, investor_data: &Vec<InvestorData>) -> (r:
    Result<CrankOutcome, ErrorCode>)
    ensures
        crank_effect(*old(ctx), *final(ctx), total_pages, investor_data@.len(), r),
{
    crank_page(
        &mut ctx.daily_progress,
        &ctx.policy_config,
        &ctx.investor_fee_position_owner,
        &ctx.input,
        total_pages,
        investor_data.len(),
    )
}

} // verus!
