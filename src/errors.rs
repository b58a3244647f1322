//! Why an instruction is refused.

use vstd::prelude::*;

verus! {

/// Every way an instruction can be refused.
#[derive(Clone, Copy, Debug, PartialEq, Eq, Structural)]
pub enum ErrorCode {
    FeeTooHigh,
    QuestionTooLong,
    DescriptionTooLong,
    OracleSourceTooLong,
    InsufficientInitialLiquidity,
    InvalidEndTime,
    InvalidResolutionTime,
    ResolutionTooLate,
    MarketNotActive,
    MarketEnded,
    SlippageExceeded,
    InsufficientOutput,
    NoPosition,
    InsufficientShares,
    InvalidAmount,
    UnauthorizedOracle,
    MarketNotEnded,
    ResolutionDeadlinePassed,
    AlreadyResolved,
    MarketNotResolved,
    NoWinningShares,
    Unauthorized,
    InvalidMarketState,
    MarketNotInvalid,
    /// An intermediate value overflowed or a pool was empty where it divides.
    MathOverflow,
}

impl ErrorCode {
    /// Human-readable message for the error.
    pub fn message(&self) -> (r: &'static str) {
        match self {
            ErrorCode::FeeTooHigh => "Fee cannot exceed 10%",
            ErrorCode::QuestionTooLong => "Question is too long (max 200 characters)",
            ErrorCode::DescriptionTooLong => "Description is too long (max 1000 characters)",
            ErrorCode::OracleSourceTooLong => "Oracle source is too long (max 100 characters)",
            ErrorCode::InsufficientInitialLiquidity => "Initial liquidity must be at least 1 USDC",
            ErrorCode::InvalidEndTime => "End time must be in the future",
            ErrorCode::InvalidResolutionTime => "Resolution time must be after end time",
            ErrorCode::ResolutionTooLate => "Resolution deadline too late (max 7 days after end)",
            ErrorCode::MarketNotActive => "Market is not active",
            ErrorCode::MarketEnded => "Market has already ended",
            ErrorCode::SlippageExceeded => "Slippage tolerance exceeded",
            ErrorCode::InsufficientOutput => "Insufficient output amount",
            ErrorCode::NoPosition => "User has no position in this market",
            ErrorCode::InsufficientShares => "Insufficient shares to sell",
            ErrorCode::InvalidAmount => "Invalid amount",
            ErrorCode::UnauthorizedOracle => "Unauthorized oracle",
            ErrorCode::MarketNotEnded => "Market has not ended yet",
            ErrorCode::ResolutionDeadlinePassed => "Resolution deadline has passed",
            ErrorCode::AlreadyResolved => "Market already resolved",
            ErrorCode::MarketNotResolved => "Market not yet resolved",
            ErrorCode::NoWinningShares => "No winning shares to claim",
            ErrorCode::Unauthorized => "Unauthorized",
            ErrorCode::InvalidMarketState => "Invalid market state",
            ErrorCode::MarketNotInvalid => "Market is not marked as invalid",
            ErrorCode::MathOverflow => "Arithmetic overflow",
        }
    }
}

} // verus!
