//! Creation of a vault's distribution policy.
use vstd::prelude::*;
use crate::error::ErrorCode;
use crate::events::PolicyConfigCreated;
use crate::math::MAX_BPS;
use crate::state::PolicyConfig;
use crate::Pubkey;

verus! {

/// What creating a policy needs from its environment.
#[derive(Clone, Copy, Debug)]
pub struct InitializePolicy {
    /// Bump of the policy record's derived address.
    pub policy_bump: u8,
    /// The signer that creates the policy.
    pub authority: Pubkey,
    /// The ledger clock, in unix seconds.
    pub now: i64,
}

/// The policy that creation records, with its event; a share above 10000
/// basis points or a zero Y0 is rejected.
pub open spec fn created_policy(
    ctx: InitializePolicy,
    vault: Pubkey,
    investor_fee_share_bps: u16,
    daily_cap_lamports: Option<u64>,
    min_payout_lamports: u64,
    y0_total_streamed: u64,
    creator_quote_ata: Pubkey,
) -> Result<(PolicyConfig, PolicyConfigCreated), ErrorCode> {
    if investor_fee_share_bps > MAX_BPS {
        Err(ErrorCode::InvalidFeeShareBps)
    } else if y0_total_streamed == 0 {
        Err(ErrorCode::InvalidY0Amount)
    } else {
        Ok(
            (
                PolicyConfig {
                    bump: ctx.policy_bump,
                    authority: ctx.authority,
                    vault,
                    investor_fee_share_bps,
                    daily_cap_lamports,
                    min_payout_lamports,
                    y0_total_streamed,
                    creator_quote_ata,
                },
                PolicyConfigCreated {
                    vault,
                    authority: ctx.authority,
                    investor_fee_share_bps,
                    y0_total_streamed,
                    timestamp: ctx.now,
                },
            ),
        )
    }
}

/// Creates the policy of `vault`. A share above 10000 basis points or a zero
/// Y0 is rejected.
pub fn handler(
    ctx: &InitializePolicy,
    vault: Pubkey,
    investor_fee_share_bps: u16,
    daily_cap_lamports: Option<u64>,
    min_payout_lamports: u64,
    y0_total_streamed: u64,
    creator_quote_ata: Pubkey,
) -> (r: Result<(PolicyConfig, PolicyConfigCreated), ErrorCode>)
    ensures
        r == created_policy(
            *ctx,
            vault,
            investor_fee_share_bps,
            daily_cap_lamports,
            min_payout_lamports,
            y0_total_streamed,
            creator_quote_ata,
        ),
        r matches Ok((policy, _)) ==> policy.wf(),
{
    if investor_fee_share_bps > MAX_BPS {
        return Err(ErrorCode::InvalidFeeShareBps);
    }
    if y0_total_streamed == 0 {
        return Err(ErrorCode::InvalidY0Amount);
    }
    let policy = PolicyConfig {
        bump: ctx.policy_bump,
        authority: ctx.authority,
        vault,
        investor_fee_share_bps,
        daily_cap_lamports,
        min_payout_lamports,
        y0_total_streamed,
        creator_quote_ata,
    };
    let event = PolicyConfigCreated {
        vault,
        authority: ctx.authority,
        investor_fee_share_bps,
        y0_total_streamed,
        timestamp: ctx.now,
    };
    Ok((policy, event))
}

} // verus!
