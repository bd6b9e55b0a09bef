use vstd::prelude::*;

verus! {

/// Every way in which an operation of the distributor can fail.
#[derive(Clone, Copy, Debug, PartialEq, Eq, Structural)]
pub enum ErrorCode {
    PoolNotQuoteOnlyFees,
    BaseFeesDetected,
    TooEarlyForNextDay,
    OutsideWindow,
    DayAlreadyFinalized,
    DailyCapReached,
    InvalidInvestorPage,
    StreamflowAccountMismatch,
    ArithmeticOverflow,
    ArithmeticUnderflow,
    InvalidTokenMint,
    InvalidPosition,
    InvalidPolicy,
    NoFeesAvailable,
    InvalidTotalPages,
    InvalidFeeShareBps,
    InvalidY0Amount,
}

impl ErrorCode {
    /// A human-readable description of the failure.
    pub fn message(&self) -> (r: &'static str) {
        match self {
            ErrorCode::PoolNotQuoteOnlyFees => "Pool config does not have quote-only fee collection enabled (collectFeeMode != 1)",
            ErrorCode::BaseFeesDetected => "Base token fees detected in treasury - distribution aborted to enforce quote-only",
            ErrorCode::TooEarlyForNextDay => "Too early to crank next day - must wait 24 hours since last window start",
            ErrorCode::OutsideWindow => "Current time is outside the valid 24-hour daily window",
            ErrorCode::DayAlreadyFinalized => "Day is already finalized - no more distributions allowed",
            ErrorCode::DailyCapReached => "Daily cap reached - cannot distribute more fees today",
            ErrorCode::InvalidInvestorPage => "Invalid investor page data provided",
            ErrorCode::StreamflowAccountMismatch => "Streamflow account data mismatch or invalid",
            ErrorCode::ArithmeticOverflow => "Arithmetic overflow in distribution calculation",
            ErrorCode::ArithmeticUnderflow => "Arithmetic underflow in calculation",
            ErrorCode::InvalidTokenMint => "Invalid token mint - does not match expected quote or base mint",
            ErrorCode::InvalidPosition => "Position does not exist or is invalid",
            ErrorCode::InvalidPolicy => "Policy configuration is invalid",
            ErrorCode::NoFeesAvailable => "No fees available to distribute",
            ErrorCode::InvalidTotalPages => "Total pages must be greater than zero",
            ErrorCode::InvalidFeeShareBps => "Investor fee share basis points exceeds maximum (10000)",
            ErrorCode::InvalidY0Amount => "Y0 total streamed amount cannot be zero",
        }
    }
}

} // verus!
