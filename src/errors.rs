//! Error codes shared by the insurance contracts.
//!
//! Codes are grouped by range: 1-19 general and authorization, 20-39 policy,
//! 40-59 claims, 60-79 oracle, 80-99 governance, 100-119 treasury, 120-139
//! slashing, 140-159 risk pool, 160-179 cross-chain, 200-249 input
//! validation.
use vstd::prelude::*;

verus! {

/// Error type common to the insurance contracts; each variant has a unique
/// numeric code.
#[derive(Clone, Copy, Debug, PartialEq, Eq, Structural)]
pub enum ContractError {
    /// Caller is not authorized to perform this action
    Unauthorized,
    /// Contract is paused and operations are not allowed
    Paused,
    /// Specific function is paused and cannot be called
    FunctionPaused,
    /// Generic invalid input (prefer specific validation errors below)
    InvalidInput,
    /// Insufficient funds for operation
    InsufficientFunds,
    /// Requested resource not found
    NotFound,
    /// Resource already exists
    AlreadyExists,
    /// Invalid state for operation
    InvalidState,
    /// Arithmetic overflow occurred
    Overflow,
    /// Contract not initialized
    NotInitialized,
    /// Contract already initialized
    AlreadyInitialized,
    /// Invalid role or permission
    InvalidRole,
    /// Role not found
    RoleNotFound,
    /// Contract not trusted for cross-contract calls
    NotTrustedContract,
    /// Invalid address format or value
    InvalidAddress,
    /// Operation would cause underflow
    Underflow,
    /// Division by zero
    DivisionByZero,
    /// Policy not found
    PolicyNotFound,
    /// Invalid policy state for operation
    InvalidPolicyState,
    /// Coverage amount out of allowed bounds
    InvalidCoverageAmount,
    /// Premium amount out of allowed bounds
    InvalidPremiumAmount,
    /// Policy duration out of allowed bounds
    InvalidDuration,
    /// Cannot renew an expired or cancelled policy
    CannotRenewPolicy,
    /// State transition is not allowed
    InvalidStateTransition,
    /// Premium amount exceeds coverage (sanity check)
    PremiumExceedsCoverage,
    /// Claim not found
    ClaimNotFound,
    /// Invalid claim state for operation
    InvalidClaimState,
    /// Claim amount exceeds coverage
    ClaimAmountExceedsCoverage,
    /// Claim period has expired
    ClaimPeriodExpired,
    /// Cannot submit claim for this policy
    CannotSubmitClaim,
    /// Policy coverage has expired
    PolicyCoverageExpired,
    /// Evidence-related error
    EvidenceError,
    /// Evidence already exists
    EvidenceAlreadyExists,
    /// Evidence not found
    EvidenceNotFound,
    /// Invalid evidence hash (e.g. all-zero placeholder)
    InvalidEvidenceHash,
    /// Claim amount exceeds coverage (alias used in validation module)
    ClaimExceedsCoverage,
    /// Oracle validation failed
    OracleValidationFailed,
    /// Insufficient oracle submissions
    InsufficientOracleSubmissions,
    /// Oracle data is stale
    OracleDataStale,
    /// Oracle data is an outlier
    OracleOutlierDetected,
    /// Oracle contract not configured
    OracleNotConfigured,
    /// Oracle contract is invalid
    InvalidOracleContract,
    /// Voting period has ended
    VotingPeriodEnded,
    /// Address has already voted
    AlreadyVoted,
    /// Proposal not active
    ProposalNotActive,
    /// Quorum not met
    QuorumNotMet,
    /// Threshold not met
    ThresholdNotMet,
    /// Proposal not found
    ProposalNotFound,
    /// Invalid proposal type
    InvalidProposalType,
    /// Slashing contract not set
    SlashingContractNotSet,
    /// Slashing execution failed
    SlashingExecutionFailed,
    /// Voting duration is out of allowed bounds
    InvalidVotingDuration,
    /// Treasury fund not found
    TreasuryFundNotFound,
    /// Insufficient treasury balance
    InsufficientTreasuryBalance,
    /// Invalid allocation
    InvalidAllocation,
    /// Invalid distribution
    InvalidDistribution,
    /// Treasury locked
    TreasuryLocked,
    /// Validator not found
    ValidatorNotFound,
    /// Invalid slashing amount
    InvalidSlashingAmount,
    /// Slashing already executed
    SlashingAlreadyExecuted,
    /// Slashing period not active
    SlashingPeriodNotActive,
    /// Slashing amount exceeds validator stake
    SlashingExceedsStake,
    /// Slashing percentage exceeds maximum per-event limit
    SlashingPercentTooHigh,
    /// Risk pool not found
    RiskPoolNotFound,
    /// Invalid risk pool state
    InvalidRiskPoolState,
    /// Insufficient risk pool balance
    InsufficientRiskPoolBalance,
    /// Risk pool locked
    RiskPoolLocked,
    /// Invalid reserve ratio
    InvalidReserveRatio,
    /// Deposit amount is below the minimum stake requirement
    DepositBelowMinStake,
    /// Withdrawal amount exceeds provider's available balance
    WithdrawalExceedsBalance,
    /// Bridge not registered
    BridgeNotRegistered,
    /// Chain not supported
    ChainNotSupported,
    /// Message already processed
    MessageAlreadyProcessed,
    /// Insufficient confirmations for cross-chain message
    InsufficientConfirmations,
    /// Asset not mapped for cross-chain transfer
    AssetNotMapped,
    /// Cross-chain message has expired
    MessageExpired,
    /// Invalid message format
    InvalidMessageFormat,
    /// Bridge is paused
    BridgePaused,
    /// Validator has already confirmed this message
    ValidatorAlreadyConfirmed,
    /// Cross-chain proposal not found
    CrossChainProposalNotFound,
    /// Invalid chain identifier
    InvalidChainId,
    /// Nonce mismatch for replay protection
    NonceMismatch,
    /// Amount must be strictly positive (> 0)
    AmountMustBePositive,
    /// Amount is outside the allowed [min, max] bounds
    AmountOutOfBounds,
    /// Percentage value exceeds 100
    InvalidPercentage,
    /// Basis-points value exceeds 10 000
    InvalidBasisPoints,
    /// Timestamp must be in the future
    TimestampNotFuture,
    /// Timestamp must be in the past
    TimestampNotPast,
    /// Time range is invalid (start >= end)
    InvalidTimeRange,
    /// Input string or bytes is empty
    EmptyInput,
    /// Input string or bytes exceeds maximum allowed length
    InputTooLong,
    /// Input string or bytes is shorter than minimum required length
    InputTooShort,
    /// Pagination limit is zero or exceeds maximum page size
    InvalidPaginationParams,
    /// Both addresses in a pair must be different
    DuplicateAddress,
    /// Quorum percentage is below the minimum required (10 %)
    QuorumTooLow,
    /// Approval threshold must be > 50 %
    ThresholdTooLow,
}

impl ContractError {
    /// The numeric code of this error.
    pub open spec fn spec_code(self) -> u32 {
        match self {
            ContractError::Unauthorized => 1,
            ContractError::Paused => 2,
            ContractError::FunctionPaused => 17,
            ContractError::InvalidInput => 3,
            ContractError::InsufficientFunds => 4,
            ContractError::NotFound => 5,
            ContractError::AlreadyExists => 6,
            ContractError::InvalidState => 7,
            ContractError::Overflow => 8,
            ContractError::NotInitialized => 9,
            ContractError::AlreadyInitialized => 10,
            ContractError::InvalidRole => 11,
            ContractError::RoleNotFound => 12,
            ContractError::NotTrustedContract => 13,
            ContractError::InvalidAddress => 14,
            ContractError::Underflow => 15,
            ContractError::DivisionByZero => 16,
            ContractError::PolicyNotFound => 20,
            ContractError::InvalidPolicyState => 21,
            ContractError::InvalidCoverageAmount => 22,
            ContractError::InvalidPremiumAmount => 23,
            ContractError::InvalidDuration => 24,
            ContractError::CannotRenewPolicy => 25,
            ContractError::InvalidStateTransition => 26,
            ContractError::PremiumExceedsCoverage => 27,
            ContractError::ClaimNotFound => 40,
            ContractError::InvalidClaimState => 41,
            ContractError::ClaimAmountExceedsCoverage => 42,
            ContractError::ClaimPeriodExpired => 43,
            ContractError::CannotSubmitClaim => 44,
            ContractError::PolicyCoverageExpired => 45,
            ContractError::EvidenceError => 46,
            ContractError::EvidenceAlreadyExists => 47,
            ContractError::EvidenceNotFound => 48,
            ContractError::InvalidEvidenceHash => 49,
            ContractError::ClaimExceedsCoverage => 50,
            ContractError::OracleValidationFailed => 60,
            ContractError::InsufficientOracleSubmissions => 61,
            ContractError::OracleDataStale => 62,
            ContractError::OracleOutlierDetected => 63,
            ContractError::OracleNotConfigured => 64,
            ContractError::InvalidOracleContract => 65,
            ContractError::VotingPeriodEnded => 80,
            ContractError::AlreadyVoted => 81,
            ContractError::ProposalNotActive => 82,
            ContractError::QuorumNotMet => 83,
            ContractError::ThresholdNotMet => 84,
            ContractError::ProposalNotFound => 85,
            ContractError::InvalidProposalType => 86,
            ContractError::SlashingContractNotSet => 87,
            ContractError::SlashingExecutionFailed => 88,
            ContractError::InvalidVotingDuration => 89,
            ContractError::TreasuryFundNotFound => 100,
            ContractError::InsufficientTreasuryBalance => 101,
            ContractError::InvalidAllocation => 102,
            ContractError::InvalidDistribution => 103,
            ContractError::TreasuryLocked => 104,
            ContractError::ValidatorNotFound => 120,
            ContractError::InvalidSlashingAmount => 121,
            ContractError::SlashingAlreadyExecuted => 122,
            ContractError::SlashingPeriodNotActive => 123,
            ContractError::SlashingExceedsStake => 124,
            ContractError::SlashingPercentTooHigh => 125,
            ContractError::RiskPoolNotFound => 140,
            ContractError::InvalidRiskPoolState => 141,
            ContractError::InsufficientRiskPoolBalance => 142,
            ContractError::RiskPoolLocked => 143,
            ContractError::InvalidReserveRatio => 144,
            ContractError::DepositBelowMinStake => 145,
            ContractError::WithdrawalExceedsBalance => 146,
            ContractError::BridgeNotRegistered => 160,
            ContractError::ChainNotSupported => 161,
            ContractError::MessageAlreadyProcessed => 162,
            ContractError::InsufficientConfirmations => 163,
            ContractError::AssetNotMapped => 164,
            ContractError::MessageExpired => 165,
            ContractError::InvalidMessageFormat => 166,
            ContractError::BridgePaused => 167,
            ContractError::ValidatorAlreadyConfirmed => 168,
            ContractError::CrossChainProposalNotFound => 169,
            ContractError::InvalidChainId => 170,
            ContractError::NonceMismatch => 171,
            ContractError::AmountMustBePositive => 200,
            ContractError::AmountOutOfBounds => 201,
            ContractError::InvalidPercentage => 202,
            ContractError::InvalidBasisPoints => 203,
            ContractError::TimestampNotFuture => 204,
            ContractError::TimestampNotPast => 205,
            ContractError::InvalidTimeRange => 206,
            ContractError::EmptyInput => 207,
            ContractError::InputTooLong => 208,
            ContractError::InputTooShort => 209,
            ContractError::InvalidPaginationParams => 210,
            ContractError::DuplicateAddress => 211,
            ContractError::QuorumTooLow => 212,
            ContractError::ThresholdTooLow => 213,
        }
    }

    /// Returns the numeric code of this error.
    pub fn code(&self) -> (r: u32)
        ensures
            r == self.spec_code(),
    {
        match self {
            ContractError::Unauthorized => 1,
            ContractError::Paused => 2,
            ContractError::FunctionPaused => 17,
            ContractError::InvalidInput => 3,
            ContractError::InsufficientFunds => 4,
            ContractError::NotFound => 5,
            ContractError::AlreadyExists => 6,
            ContractError::InvalidState => 7,
            ContractError::Overflow => 8,
            ContractError::NotInitialized => 9,
            ContractError::AlreadyInitialized => 10,
            ContractError::InvalidRole => 11,
            ContractError::RoleNotFound => 12,
            ContractError::NotTrustedContract => 13,
            ContractError::InvalidAddress => 14,
            ContractError::Underflow => 15,
            ContractError::DivisionByZero => 16,
            ContractError::PolicyNotFound => 20,
            ContractError::InvalidPolicyState => 21,
            ContractError::InvalidCoverageAmount => 22,
            ContractError::InvalidPremiumAmount => 23,
            ContractError::InvalidDuration => 24,
            ContractError::CannotRenewPolicy => 25,
            ContractError::InvalidStateTransition => 26,
            ContractError::PremiumExceedsCoverage => 27,
            ContractError::ClaimNotFound => 40,
            ContractError::InvalidClaimState => 41,
            ContractError::ClaimAmountExceedsCoverage => 42,
            ContractError::ClaimPeriodExpired => 43,
            ContractError::CannotSubmitClaim => 44,
            ContractError::PolicyCoverageExpired => 45,
            ContractError::EvidenceError => 46,
            ContractError::EvidenceAlreadyExists => 47,
            ContractError::EvidenceNotFound => 48,
            ContractError::InvalidEvidenceHash => 49,
            ContractError::ClaimExceedsCoverage => 50,
            ContractError::OracleValidationFailed => 60,
            ContractError::InsufficientOracleSubmissions => 61,
            ContractError::OracleDataStale => 62,
            ContractError::OracleOutlierDetected => 63,
            ContractError::OracleNotConfigured => 64,
            ContractError::InvalidOracleContract => 65,
            ContractError::VotingPeriodEnded => 80,
            ContractError::AlreadyVoted => 81,
            ContractError::ProposalNotActive => 82,
            ContractError::QuorumNotMet => 83,
            ContractError::ThresholdNotMet => 84,
            ContractError::ProposalNotFound => 85,
            ContractError::InvalidProposalType => 86,
            ContractError::SlashingContractNotSet => 87,
            ContractError::SlashingExecutionFailed => 88,
            ContractError::InvalidVotingDuration => 89,
            ContractError::TreasuryFundNotFound => 100,
            ContractError::InsufficientTreasuryBalance => 101,
            ContractError::InvalidAllocation => 102,
            ContractError::InvalidDistribution => 103,
            ContractError::TreasuryLocked => 104,
            ContractError::ValidatorNotFound => 120,
            ContractError::InvalidSlashingAmount => 121,
            ContractError::SlashingAlreadyExecuted => 122,
            ContractError::SlashingPeriodNotActive => 123,
            ContractError::SlashingExceedsStake => 124,
            ContractError::SlashingPercentTooHigh => 125,
            ContractError::RiskPoolNotFound => 140,
            ContractError::InvalidRiskPoolState => 141,
            ContractError::InsufficientRiskPoolBalance => 142,
            ContractError::RiskPoolLocked => 143,
            ContractError::InvalidReserveRatio => 144,
            ContractError::DepositBelowMinStake => 145,
            ContractError::WithdrawalExceedsBalance => 146,
            ContractError::BridgeNotRegistered => 160,
            ContractError::ChainNotSupported => 161,
            ContractError::MessageAlreadyProcessed => 162,
            ContractError::InsufficientConfirmations => 163,
            ContractError::AssetNotMapped => 164,
            ContractError::MessageExpired => 165,
            ContractError::InvalidMessageFormat => 166,
            ContractError::BridgePaused => 167,
            ContractError::ValidatorAlreadyConfirmed => 168,
            ContractError::CrossChainProposalNotFound => 169,
            ContractError::InvalidChainId => 170,
            ContractError::NonceMismatch => 171,
            ContractError::AmountMustBePositive => 200,
            ContractError::AmountOutOfBounds => 201,
            ContractError::InvalidPercentage => 202,
            ContractError::InvalidBasisPoints => 203,
            ContractError::TimestampNotFuture => 204,
            ContractError::TimestampNotPast => 205,
            ContractError::InvalidTimeRange => 206,
            ContractError::EmptyInput => 207,
            ContractError::InputTooLong => 208,
            ContractError::InputTooShort => 209,
            ContractError::InvalidPaginationParams => 210,
            ContractError::DuplicateAddress => 211,
            ContractError::QuorumTooLow => 212,
            ContractError::ThresholdTooLow => 213,
        }
    }

    /// The human-readable description of this error.
    pub open spec fn spec_message(self) -> Seq<char> {
        match self {
            ContractError::Unauthorized => "Caller is not authorized"@,
            ContractError::Paused => "Contract is paused"@,
            ContractError::FunctionPaused => "Specific function is paused"@,
            ContractError::InvalidInput => "Invalid input provided"@,
            ContractError::InsufficientFunds => "Insufficient funds"@,
            ContractError::NotFound => "Resource not found"@,
            ContractError::AlreadyExists => "Resource already exists"@,
            ContractError::InvalidState => "Invalid state for operation"@,
            ContractError::Overflow => "Arithmetic overflow"@,
            ContractError::NotInitialized => "Contract not initialized"@,
            ContractError::AlreadyInitialized => "Contract already initialized"@,
            ContractError::InvalidRole => "Invalid role"@,
            ContractError::RoleNotFound => "Role not found"@,
            ContractError::NotTrustedContract => "Contract not trusted"@,
            ContractError::InvalidAddress => "Invalid address"@,
            ContractError::Underflow => "Arithmetic underflow"@,
            ContractError::DivisionByZero => "Division by zero"@,
            ContractError::PolicyNotFound => "Policy not found"@,
            ContractError::InvalidPolicyState => "Invalid policy state"@,
            ContractError::InvalidCoverageAmount => "Coverage amount is outside the allowed range [1 XLM, 1 000 000 XLM]"@,
            ContractError::InvalidPremiumAmount => "Premium amount is outside the allowed range [0.1 XLM, 100 000 XLM]"@,
            ContractError::InvalidDuration => "Policy duration must be between 1 and 1 825 days"@,
            ContractError::CannotRenewPolicy => "Cannot renew this policy"@,
            ContractError::InvalidStateTransition => "Invalid state transition"@,
            ContractError::PremiumExceedsCoverage => "Premium amount must be less than coverage amount"@,
            ContractError::ClaimNotFound => "Claim not found"@,
            ContractError::InvalidClaimState => "Invalid claim state"@,
            ContractError::ClaimAmountExceedsCoverage => "Claim exceeds coverage"@,
            ContractError::ClaimPeriodExpired => "Claim period expired"@,
            ContractError::CannotSubmitClaim => "Cannot submit claim for this policy"@,
            ContractError::PolicyCoverageExpired => "Policy coverage has expired"@,
            ContractError::EvidenceError => "Evidence error"@,
            ContractError::EvidenceAlreadyExists => "Evidence already exists"@,
            ContractError::EvidenceNotFound => "Evidence not found"@,
            ContractError::InvalidEvidenceHash => "Evidence hash is invalid or is an all-zero placeholder"@,
            ContractError::ClaimExceedsCoverage => "Claim amount exceeds policy coverage"@,
            ContractError::OracleValidationFailed => "Oracle validation failed"@,
            ContractError::InsufficientOracleSubmissions => "Insufficient oracle submissions"@,
            ContractError::OracleDataStale => "Oracle data is stale"@,
            ContractError::OracleOutlierDetected => "Oracle data is an outlier"@,
            ContractError::OracleNotConfigured => "Oracle not configured"@,
            ContractError::InvalidOracleContract => "Invalid oracle contract"@,
            ContractError::VotingPeriodEnded => "Voting period has ended"@,
            ContractError::AlreadyVoted => "Already voted on this proposal"@,
            ContractError::ProposalNotActive => "Proposal is not active"@,
            ContractError::QuorumNotMet => "Quorum not met"@,
            ContractError::ThresholdNotMet => "Threshold not met"@,
            ContractError::ProposalNotFound => "Proposal not found"@,
            ContractError::InvalidProposalType => "Invalid proposal type"@,
            ContractError::SlashingContractNotSet => "Slashing contract not set"@,
            ContractError::SlashingExecutionFailed => "Slashing execution failed"@,
            ContractError::InvalidVotingDuration => "Voting duration must be between 1 hour and 30 days"@,
            ContractError::TreasuryFundNotFound => "Treasury fund not found"@,
            ContractError::InsufficientTreasuryBalance => "Insufficient treasury balance"@,
            ContractError::InvalidAllocation => "Invalid allocation"@,
            ContractError::InvalidDistribution => "Invalid distribution"@,
            ContractError::TreasuryLocked => "Treasury is locked"@,
            ContractError::ValidatorNotFound => "Validator not found"@,
            ContractError::InvalidSlashingAmount => "Invalid slashing amount"@,
            ContractError::SlashingAlreadyExecuted => "Slashing already executed"@,
            ContractError::SlashingPeriodNotActive => "Slashing period not active"@,
            ContractError::SlashingExceedsStake => "Slashing amount exceeds validator stake"@,
            ContractError::SlashingPercentTooHigh => "Slashing percentage exceeds maximum allowed per event (10%)"@,
            ContractError::RiskPoolNotFound => "Risk pool not found"@,
            ContractError::InvalidRiskPoolState => "Invalid risk pool state"@,
            ContractError::InsufficientRiskPoolBalance => "Insufficient risk pool balance"@,
            ContractError::RiskPoolLocked => "Risk pool is locked"@,
            ContractError::InvalidReserveRatio => "Reserve ratio must be between 20% and 100%"@,
            ContractError::DepositBelowMinStake => "Deposit amount is below the minimum stake requirement"@,
            ContractError::WithdrawalExceedsBalance => "Withdrawal amount exceeds provider's available balance"@,
            ContractError::BridgeNotRegistered => "Bridge not registered"@,
            ContractError::ChainNotSupported => "Chain not supported"@,
            ContractError::MessageAlreadyProcessed => "Message already processed"@,
            ContractError::InsufficientConfirmations => "Insufficient confirmations"@,
            ContractError::AssetNotMapped => "Asset not mapped"@,
            ContractError::MessageExpired => "Cross-chain message expired"@,
            ContractError::InvalidMessageFormat => "Invalid message format"@,
            ContractError::BridgePaused => "Bridge is paused"@,
            ContractError::ValidatorAlreadyConfirmed => "Validator already confirmed"@,
            ContractError::CrossChainProposalNotFound => "Cross-chain proposal not found"@,
            ContractError::InvalidChainId => "Invalid chain ID"@,
            ContractError::NonceMismatch => "Nonce mismatch"@,
            ContractError::AmountMustBePositive => "Amount must be strictly positive (> 0)"@,
            ContractError::AmountOutOfBounds => "Amount is outside the allowed bounds"@,
            ContractError::InvalidPercentage => "Percentage must be between 0 and 100"@,
            ContractError::InvalidBasisPoints => "Basis points must be between 0 and 10 000"@,
            ContractError::TimestampNotFuture => "Timestamp must be in the future"@,
            ContractError::TimestampNotPast => "Timestamp must be in the past or present"@,
            ContractError::InvalidTimeRange => "Start time must be strictly before end time"@,
            ContractError::EmptyInput => "Input string or bytes cannot be empty"@,
            ContractError::InputTooLong => "Input exceeds maximum allowed length"@,
            ContractError::InputTooShort => "Input is shorter than the minimum required length"@,
            ContractError::InvalidPaginationParams => "Pagination limit must be between 1 and 1 000"@,
            ContractError::DuplicateAddress => "Both addresses in the pair must be different"@,
            ContractError::QuorumTooLow => "Quorum percentage must be at least 10%"@,
            ContractError::ThresholdTooLow => "Approval threshold must be greater than 50%"@,
        }
    }

    /// Returns a human-readable description of this error.
    pub fn message(&self) -> (r: &'static str)
        ensures
            r@ == self.spec_message(),
    {
        match self {
            ContractError::Unauthorized => "Caller is not authorized",
            ContractError::Paused => "Contract is paused",
            ContractError::FunctionPaused => "Specific function is paused",
            ContractError::InvalidInput => "Invalid input provided",
            ContractError::InsufficientFunds => "Insufficient funds",
            ContractError::NotFound => "Resource not found",
            ContractError::AlreadyExists => "Resource already exists",
            ContractError::InvalidState => "Invalid state for operation",
            ContractError::Overflow => "Arithmetic overflow",
            ContractError::NotInitialized => "Contract not initialized",
            ContractError::AlreadyInitialized => "Contract already initialized",
            ContractError::InvalidRole => "Invalid role",
            ContractError::RoleNotFound => "Role not found",
            ContractError::NotTrustedContract => "Contract not trusted",
            ContractError::InvalidAddress => "Invalid address",
            ContractError::Underflow => "Arithmetic underflow",
            ContractError::DivisionByZero => "Division by zero",
            ContractError::PolicyNotFound => "Policy not found",
            ContractError::InvalidPolicyState => "Invalid policy state",
            ContractError::InvalidCoverageAmount => "Coverage amount is outside the allowed range [1 XLM, 1 000 000 XLM]",
            ContractError::InvalidPremiumAmount => "Premium amount is outside the allowed range [0.1 XLM, 100 000 XLM]",
            ContractError::InvalidDuration => "Policy duration must be between 1 and 1 825 days",
            ContractError::CannotRenewPolicy => "Cannot renew this policy",
            ContractError::InvalidStateTransition => "Invalid state transition",
            ContractError::PremiumExceedsCoverage => "Premium amount must be less than coverage amount",
            ContractError::ClaimNotFound => "Claim not found",
            ContractError::InvalidClaimState => "Invalid claim state",
            ContractError::ClaimAmountExceedsCoverage => "Claim exceeds coverage",
            ContractError::ClaimPeriodExpired => "Claim period expired",
            ContractError::CannotSubmitClaim => "Cannot submit claim for this policy",
            ContractError::PolicyCoverageExpired => "Policy coverage has expired",
            ContractError::EvidenceError => "Evidence error",
            ContractError::EvidenceAlreadyExists => "Evidence already exists",
            ContractError::EvidenceNotFound => "Evidence not found",
            ContractError::InvalidEvidenceHash => "Evidence hash is invalid or is an all-zero placeholder",
            ContractError::ClaimExceedsCoverage => "Claim amount exceeds policy coverage",
            ContractError::OracleValidationFailed => "Oracle validation failed",
            ContractError::InsufficientOracleSubmissions => "Insufficient oracle submissions",
            ContractError::OracleDataStale => "Oracle data is stale",
            ContractError::OracleOutlierDetected => "Oracle data is an outlier",
            ContractError::OracleNotConfigured => "Oracle not configured",
            ContractError::InvalidOracleContract => "Invalid oracle contract",
            ContractError::VotingPeriodEnded => "Voting period has ended",
            ContractError::AlreadyVoted => "Already voted on this proposal",
            ContractError::ProposalNotActive => "Proposal is not active",
            ContractError::QuorumNotMet => "Quorum not met",
            ContractError::ThresholdNotMet => "Threshold not met",
            ContractError::ProposalNotFound => "Proposal not found",
            ContractError::InvalidProposalType => "Invalid proposal type",
            ContractError::SlashingContractNotSet => "Slashing contract not set",
            ContractError::SlashingExecutionFailed => "Slashing execution failed",
            ContractError::InvalidVotingDuration => "Voting duration must be between 1 hour and 30 days",
            ContractError::TreasuryFundNotFound => "Treasury fund not found",
            ContractError::InsufficientTreasuryBalance => "Insufficient treasury balance",
            ContractError::InvalidAllocation => "Invalid allocation",
            ContractError::InvalidDistribution => "Invalid distribution",
            ContractError::TreasuryLocked => "Treasury is locked",
            ContractError::ValidatorNotFound => "Validator not found",
            ContractError::InvalidSlashingAmount => "Invalid slashing amount",
            ContractError::SlashingAlreadyExecuted => "Slashing already executed",
            ContractError::SlashingPeriodNotActive => "Slashing period not active",
            ContractError::SlashingExceedsStake => "Slashing amount exceeds validator stake",
            ContractError::SlashingPercentTooHigh => "Slashing percentage exceeds maximum allowed per event (10%)",
            ContractError::RiskPoolNotFound => "Risk pool not found",
            ContractError::InvalidRiskPoolState => "Invalid risk pool state",
            ContractError::InsufficientRiskPoolBalance => "Insufficient risk pool balance",
            ContractError::RiskPoolLocked => "Risk pool is locked",
            ContractError::InvalidReserveRatio => "Reserve ratio must be between 20% and 100%",
            ContractError::DepositBelowMinStake => "Deposit amount is below the minimum stake requirement",
            ContractError::WithdrawalExceedsBalance => "Withdrawal amount exceeds provider's available balance",
            ContractError::BridgeNotRegistered => "Bridge not registered",
            ContractError::ChainNotSupported => "Chain not supported",
            ContractError::MessageAlreadyProcessed => "Message already processed",
            ContractError::InsufficientConfirmations => "Insufficient confirmations",
            ContractError::AssetNotMapped => "Asset not mapped",
            ContractError::MessageExpired => "Cross-chain message expired",
            ContractError::InvalidMessageFormat => "Invalid message format",
            ContractError::BridgePaused => "Bridge is paused",
            ContractError::ValidatorAlreadyConfirmed => "Validator already confirmed",
            ContractError::CrossChainProposalNotFound => "Cross-chain proposal not found",
            ContractError::InvalidChainId => "Invalid chain ID",
            ContractError::NonceMismatch => "Nonce mismatch",
            ContractError::AmountMustBePositive => "Amount must be strictly positive (> 0)",
            ContractError::AmountOutOfBounds => "Amount is outside the allowed bounds",
            ContractError::InvalidPercentage => "Percentage must be between 0 and 100",
            ContractError::InvalidBasisPoints => "Basis points must be between 0 and 10 000",
            ContractError::TimestampNotFuture => "Timestamp must be in the future",
            ContractError::TimestampNotPast => "Timestamp must be in the past or present",
            ContractError::InvalidTimeRange => "Start time must be strictly before end time",
            ContractError::EmptyInput => "Input string or bytes cannot be empty",
            ContractError::InputTooLong => "Input exceeds maximum allowed length",
            ContractError::InputTooShort => "Input is shorter than the minimum required length",
            ContractError::InvalidPaginationParams => "Pagination limit must be between 1 and 1 000",
            ContractError::DuplicateAddress => "Both addresses in the pair must be different",
            ContractError::QuorumTooLow => "Quorum percentage must be at least 10%",
            ContractError::ThresholdTooLow => "Approval threshold must be greater than 50%",
        }
    }
}

} // verus!
