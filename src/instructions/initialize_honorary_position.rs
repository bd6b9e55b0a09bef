//! Recording the fee-collecting position of a vault.
use vstd::prelude::*;
use crate::events::HonoraryPositionInitialized;
use crate::state::InvestorFeePositionOwner;
use crate::Pubkey;

verus! {

/// The accounts of the position being recorded, and the clock.
#[derive(Clone, Copy, Debug)]
pub struct InitializeHonoraryPosition {
    /// Bump of the owner record's derived address.
    pub owner_bump: u8,
    pub pool: Pubkey,
    /// The lock escrow that holds the position.
    pub lock_escrow: Pubkey,
    pub lp_mint: Pubkey,
    pub quote_mint: Pubkey,
    pub base_mint: Pubkey,
    /// The ledger clock, in unix seconds.
    pub now: i64,
}

/// The owner record and the event of a newly recorded position.
pub open spec fn recorded_position(ctx: InitializeHonoraryPosition, vault: Pubkey) -> (
    InvestorFeePositionOwner,
    HonoraryPositionInitialized,
) {
    (
        InvestorFeePositionOwner {
            bump: ctx.owner_bump,
            vault,
            pool: ctx.pool,
            lock_escrow: ctx.lock_escrow,
            lp_mint: ctx.lp_mint,
            quote_mint: ctx.quote_mint,
            base_mint: ctx.base_mint,
            created_at: ctx.now,
            last_fee_claim: ctx.now,
            total_fees_claimed: 0,
        },
        HonoraryPositionInitialized {
            vault,
            pool: ctx.pool,
            position: ctx.lock_escrow,
            quote_mint: ctx.quote_mint,
            base_mint: ctx.base_mint,
            timestamp: ctx.now,
        },
    )
}

/// Records the position that collects `vault`'s fees; nothing is claimed yet.
pub fn handler(ctx: &InitializeHonoraryPosition, vault: Pubkey) -> (r: (
    InvestorFeePositionOwner,
    HonoraryPositionInitialized,
))
    ensures
        r == recorded_position(*ctx, vault),
{
    let owner = InvestorFeePositionOwner {
        bump: ctx.owner_bump,
        vault,
        pool: ctx.pool,
        lock_escrow: ctx.lock_escrow,
        lp_mint: ctx.lp_mint,
        quote_mint: ctx.quote_mint,
        base_mint: ctx.base_mint,
        created_at: ctx.now,
        last_fee_claim: ctx.now,
        total_fees_claimed: 0,
    };
    let event = HonoraryPositionInitialized {
        vault,
        pool: ctx.pool,
        position: ctx.lock_escrow,
        quote_mint: ctx.quote_mint,
        base_mint: ctx.base_mint,
        timestamp: ctx.now,
    };
    (owner, event)
}

} // verus!
