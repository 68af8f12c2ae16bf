//! Typed failures of every caller-facing operation.

use vstd::prelude::*;

verus! {

/// Why an operation was rejected. A rejected operation changes no state.
#[derive(Clone, Copy, Debug, PartialEq, Eq, Structural)]
pub enum FeeRouterError {
    BaseFeeDetected,
    TooSoonToDistribute,
    InvalidPoolConfig,
    LockedAmountError,
    PaginationError,
    DailyCapExceeded,
    InvalidTokenOrder,
    QuoteMintMismatch,
    PositionOwnerMismatch,
    ArithmeticOverflow,
    ArithmeticUnderflow,
    DivisionByZero,
    InvalidFeeShareBps,
    NoInvestors,
    InvestorAtaMissing,
    DistributionInProgress,
    DistributionNotStarted,
    InvalidPageIndex,
    PayoutBelowMinimum,
    NoFeesToClaim,
    BaseFeesClaimedError,
    PositionMetadataMismatch,
    TreasuryStateMismatch,
    ClaimIntervalNotElapsed,
    NoAccumulatedFees,
    TreasuryBalanceMismatch,
    TreasuryTransferFailed,
    MeteoraCpiFailed,
    InvalidTotalAllocation,
    PageAlreadyProcessed,
    InvalidDistribution,
    InvalidDistributionDay,
    EmptyTreasury,
    DistributionAlreadyComplete,
    InvalidStreamOwner,
}

impl FeeRouterError {
    /// A human-readable description of the failure.
    pub fn error_msg(&self) -> &'static str {
        match self {
            FeeRouterError::BaseFeeDetected => "Base fees detected - only quote fees are allowed",
            FeeRouterError::TooSoonToDistribute => "24 hour period has not elapsed since last distribution",
            FeeRouterError::InvalidPoolConfig => "Invalid pool configuration for quote-only fees",
            FeeRouterError::LockedAmountError => "Failed to calculate locked amount from Streamflow",
            FeeRouterError::PaginationError => "Pagination cursor mismatch",
            FeeRouterError::DailyCapExceeded => "Daily distribution cap exceeded",
            FeeRouterError::InvalidTokenOrder => "Invalid token order in pool",
            FeeRouterError::QuoteMintMismatch => "Quote mint mismatch",
            FeeRouterError::PositionOwnerMismatch => "Position owner PDA mismatch",
            FeeRouterError::ArithmeticOverflow => "Arithmetic overflow",
            FeeRouterError::ArithmeticUnderflow => "Arithmetic underflow",
            FeeRouterError::DivisionByZero => "Division by zero",
            FeeRouterError::InvalidFeeShareBps => "Invalid fee share basis points (must be 0-10000)",
            FeeRouterError::NoInvestors => "No investors to distribute to",
            FeeRouterError::InvestorAtaMissing => "Investor ATA does not exist",
            FeeRouterError::DistributionInProgress => "Distribution already in progress for this day",
            FeeRouterError::DistributionNotStarted => "Distribution not started for this day",
            FeeRouterError::InvalidPageIndex => "Invalid page index",
            FeeRouterError::PayoutBelowMinimum => "Payout below minimum threshold",
            FeeRouterError::NoFeesToClaim => "No fees available to claim from position",
            FeeRouterError::BaseFeesClaimedError => "Base token fees detected during claim (should be quote-only)",
            FeeRouterError::PositionMetadataMismatch => "Position metadata mismatch with provided accounts",
            FeeRouterError::TreasuryStateMismatch => "Treasury state mismatch with provided accounts",
            FeeRouterError::ClaimIntervalNotElapsed => "Claim interval not elapsed - too soon to claim again",
            FeeRouterError::NoAccumulatedFees => "Position has no accumulated fees",
            FeeRouterError::TreasuryBalanceMismatch => "Treasury ATA balance mismatch",
            FeeRouterError::TreasuryTransferFailed => "Failed to transfer claimed fees to treasury",
            FeeRouterError::MeteoraCpiFailed => "Meteora CPI call failed",
            FeeRouterError::InvalidTotalAllocation => "Initial total allocation must be positive",
            FeeRouterError::PageAlreadyProcessed => "Page already processed - duplicate submission",
            FeeRouterError::InvalidDistribution => "Distribution amounts exceed what is available",
            FeeRouterError::InvalidDistributionDay => "Distribution day does not match the current day",
            FeeRouterError::EmptyTreasury => "Treasury holds nothing to distribute",
            FeeRouterError::DistributionAlreadyComplete => "Distribution for this day is already complete",
            FeeRouterError::InvalidStreamOwner => "Stream account is not owned by the vesting program",
        }
    }
}

} // verus!
