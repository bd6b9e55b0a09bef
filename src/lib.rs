//! A resumable, paginated distribution engine that splits a daily pool of
//! claimed fees between time-locked investors and a creator.
//!
//! Everything here is plain computation: the host that drives it reads the
//! clock and the token balances, hands them over as values, and carries out
//! the transfers that a page returns.
pub mod distribution;
pub mod error;
pub mod events;
pub mod instructions;
pub mod laws;
pub mod math;
pub mod state;
pub mod streamflow;

use vstd::prelude::*;
use crate::distribution::CrankOutcome;
use crate::error::ErrorCode;
use crate::events::{HonoraryPositionInitialized, PolicyConfigCreated};
use crate::instructions::crank_distribution::{CrankDistribution, InvestorData, crank_effect};
use crate::instructions::crank_distribution_full::CrankDistributionFull;
use crate::instructions::initialize_honorary_position::{InitializeHonoraryPosition, recorded_position};
use crate::instructions::initialize_policy::{InitializePolicy, created_policy};
use crate::state::{InvestorFeePositionOwner, PolicyConfig};

verus! {

/// A 32-byte account key.
pub type Pubkey = [u8; 32];

/// Creates a vault's distribution policy.
pub fn initialize_policy(
    ctx: &InitializePolicy,
    vault: Pubkey,
    investor_fee_share_bps: u16,
    daily_cap_lamports: Option<u64>,
    min_payout_lamports: u64,
    y0_total_streamed: u64,
    creator_quote_ata: Pubkey,
) -> (r: Result<(PolicyConfig, PolicyConfigCreated), ErrorCode>)
    ensures
        r == created_policy(
            *ctx,
            vault,
            investor_fee_share_bps,
            daily_cap_lamports,
            min_payout_lamports,
            y0_total_streamed,
            creator_quote_ata,
        ),
{
    instructions::initialize_policy::handler(
        ctx,
        vault,
        investor_fee_share_bps,
        daily_cap_lamports,
        min_payout_lamports,
        y0_total_streamed,
        creator_quote_ata,
    )
}

/// Records the position that collects a vault's fees.
pub fn initialize_honorary_position(ctx: &InitializeHonoraryPosition, vault: Pubkey) -> (r: (
    InvestorFeePositionOwner,
    HonoraryPositionInitialized,
))
    ensures
        r == recorded_position(*ctx, vault),
{
    instructions::initialize_honorary_position::handler(ctx, vault)
}

/// The permissionless daily crank, for fees already in the treasury.
pub fn crank_distribution(ctx: &mut CrankDistribution, total_pages: u16, investor_data: &Vec<InvestorData>) -> (r:
    Result<CrankOutcome, ErrorCode>)
    ensures
        crank_effect(*old(ctx), *final(ctx), total_pages, investor_data@.len(), r),
{
    instructions::crank_distribution::handler(ctx, total_pages, investor_data)
}

/// The permissionless daily crank that runs after the host has claimed the
/// position's fees.
pub fn crank_distribution_full(
    ctx: &mut CrankDistributionFull,
    total_pages: u16,
    investor_data: &Vec<InvestorData>,
) -> (r: Result<CrankOutcome, ErrorCode>)
    ensures
        crank_effect(*old(ctx), *final(ctx), total_pages, investor_data@.len(), r),
{
    instructions::crank_distribution_full::handler_full(ctx, total_pages, investor_data)
}

} // verus!
