use vstd::prelude::*;

verus! {

/// Every way a request can be refused. The position of a variant in this
/// list is its stable numeric code at the boundary (see [`StablecoinError::code`]).
#[derive(Debug, Clone, Copy, PartialEq, Eq, Structural)]
pub enum StablecoinError {
    InvalidOracleData,
    InvalidPriceFeed,
    InsufficientCollateral,
    InvalidAmount,
    Unauthorized,
    StaleOracleData,
    PriceDeviationTooHigh,
    MintLimitExceeded,
    InvalidTokenAccount,
    InvalidMint,
    InvalidLiquidation,
    BelowRedemptionPrice,
    AboveLiquidationThreshold,
    InvalidParameterAdjustment,
    InsufficientStabilityFees,
    ProgramPaused,
    UnauthorizedMinter,
    InvalidAuthorityType,
    AuthorityAlreadyExists,
    MaxMintersReached,
    InsufficientSignatures,
    TimelockNotExpired,
    UnauthorizedDelegate,
    InvalidDelegation,
    DelegationExpired,
    PriceUncertain,
    InvalidOraclePriceFeed,
}

/// The ordinal position of each error kind in the taxonomy.
pub open spec fn error_code(e: StablecoinError) -> u32 {
    match e {
        StablecoinError::InvalidOracleData => 0,
        StablecoinError::InvalidPriceFeed => 1,
        StablecoinError::InsufficientCollateral => 2,
        StablecoinError::InvalidAmount => 3,
        StablecoinError::Unauthorized => 4,
        StablecoinError::StaleOracleData => 5,
        StablecoinError::PriceDeviationTooHigh => 6,
        StablecoinError::MintLimitExceeded => 7,
        StablecoinError::InvalidTokenAccount => 8,
        StablecoinError::InvalidMint => 9,
        StablecoinError::InvalidLiquidation => 10,
        StablecoinError::BelowRedemptionPrice => 11,
        StablecoinError::AboveLiquidationThreshold => 12,
        StablecoinError::InvalidParameterAdjustment => 13,
        StablecoinError::InsufficientStabilityFees => 14,
        StablecoinError::ProgramPaused => 15,
        StablecoinError::UnauthorizedMinter => 16,
        StablecoinError::InvalidAuthorityType => 17,
        StablecoinError::AuthorityAlreadyExists => 18,
        StablecoinError::MaxMintersReached => 19,
        StablecoinError::InsufficientSignatures => 20,
        StablecoinError::TimelockNotExpired => 21,
        StablecoinError::UnauthorizedDelegate => 22,
        StablecoinError::InvalidDelegation => 23,
        StablecoinError::DelegationExpired => 24,
        StablecoinError::PriceUncertain => 25,
        StablecoinError::InvalidOraclePriceFeed => 26,
    }
}

impl StablecoinError {
    /// The stable numeric code reported to the host for this error.
    pub fn code(&self) -> (r: u32)
        ensures
            r == error_code(*self),
    {
        match self {
            StablecoinError::InvalidOracleData => 0,
            StablecoinError::InvalidPriceFeed => 1,
            StablecoinError::InsufficientCollateral => 2,
            StablecoinError::InvalidAmount => 3,
            StablecoinError::Unauthorized => 4,
            StablecoinError::StaleOracleData => 5,
            StablecoinError::PriceDeviationTooHigh => 6,
            StablecoinError::MintLimitExceeded => 7,
            StablecoinError::InvalidTokenAccount => 8,
            StablecoinError::InvalidMint => 9,
            StablecoinError::InvalidLiquidation => 10,
            StablecoinError::BelowRedemptionPrice => 11,
            StablecoinError::AboveLiquidationThreshold => 12,
            StablecoinError::InvalidParameterAdjustment => 13,
            StablecoinError::InsufficientStabilityFees => 14,
            StablecoinError::ProgramPaused => 15,
            StablecoinError::UnauthorizedMinter => 16,
            StablecoinError::InvalidAuthorityType => 17,
            StablecoinError::AuthorityAlreadyExists => 18,
            StablecoinError::MaxMintersReached => 19,
            StablecoinError::InsufficientSignatures => 20,
            StablecoinError::TimelockNotExpired => 21,
            StablecoinError::UnauthorizedDelegate => 22,
            StablecoinError::InvalidDelegation => 23,
            StablecoinError::DelegationExpired => 24,
            StablecoinError::PriceUncertain => 25,
            StablecoinError::InvalidOraclePriceFeed => 26,
        }
    }
}

} // verus!
