//! Error codes of the error-handling and recovery contract.
//!
//! Ranges: 1-99 auth and access, 100-199 policy, 200-299 claims, 300-399
//! payments and premiums, 400-499 KYC and compliance, 500-599 data and
//! storage, 600-699 oracle and external, 700-799 system and configuration.
use vstd::prelude::*;

verus! {

/// Unified error codes shared across the insurance platform contracts.
#[derive(Clone, Copy, Debug, PartialEq, Eq, Structural)]
pub enum InsuranceError {
    /// Caller has not been granted any role on this contract
    Unauthorized,
    /// Caller's role does not permit this specific action
    InsufficientPermissions,
    /// Auth token or session has expired
    AuthExpired,
    /// Contract has already been initialized
    AlreadyInitialized,
    /// No policy exists with the provided ID
    PolicyNotFound,
    /// Policy is not in a state that allows this action
    PolicyInvalidState,
    /// Policy coverage period has ended
    PolicyExpired,
    /// Policy has already been cancelled
    PolicyAlreadyCancelled,
    /// Proposed coverage amount is outside allowed limits
    PolicyCoverageOutOfRange,
    /// No claim exists with the provided ID
    ClaimNotFound,
    /// Claim amount exceeds the policy's coverage limit
    ClaimExceedsLimit,
    /// A claim for this event was already submitted
    ClaimDuplicate,
    /// Claim is past the allowed filing deadline
    ClaimDeadlineExceeded,
    /// Claim is in a state that does not allow this action
    ClaimInvalidState,
    /// Required claim documentation is missing
    ClaimMissingDocuments,
    /// Provided amount is zero or negative
    PaymentInvalidAmount,
    /// Token or asset type is not accepted
    PaymentUnsupportedAsset,
    /// Premium payment was not received before the deadline
    PremiumPaymentOverdue,
    /// Requested refund amount exceeds what was paid
    RefundExceedsBalance,
    /// Policy holder has not completed KYC
    KycNotVerified,
    /// KYC has expired and must be renewed
    KycExpired,
    /// Submitted KYC documents were rejected
    KycDocumentRejected,
    /// Operation blocked due to regulatory restriction
    ComplianceViolation,
    /// Record could not be found in storage
    RecordNotFound,
    /// Provided data fails format or range validation
    InvalidData,
    /// Ledger entry TTL has lapsed
    StorageExpired,
    /// Oracle has not published data for this feed
    OracleDataMissing,
    /// Oracle data is older than the acceptable staleness window
    OracleDataStale,
    /// Cross-contract call returned an unexpected error
    ExternalCallFailed,
    /// Contract is paused for maintenance or emergency
    ContractPaused,
    /// Requested operation is not yet implemented
    NotImplemented,
    /// Numerical overflow detected
    ArithmeticOverflow,
    /// Value exceeds the maximum allowed
    LimitExceeded,
}

impl InsuranceError {
    /// The numeric code of this error.
    pub open spec fn spec_code(self) -> u32 {
        match self {
            InsuranceError::Unauthorized => 1,
            InsuranceError::InsufficientPermissions => 2,
            InsuranceError::AuthExpired => 3,
            InsuranceError::AlreadyInitialized => 4,
            InsuranceError::PolicyNotFound => 100,
            InsuranceError::PolicyInvalidState => 101,
            InsuranceError::PolicyExpired => 102,
            InsuranceError::PolicyAlreadyCancelled => 103,
            InsuranceError::PolicyCoverageOutOfRange => 104,
            InsuranceError::ClaimNotFound => 200,
            InsuranceError::ClaimExceedsLimit => 201,
            InsuranceError::ClaimDuplicate => 202,
            InsuranceError::ClaimDeadlineExceeded => 203,
            InsuranceError::ClaimInvalidState => 204,
            InsuranceError::ClaimMissingDocuments => 205,
            InsuranceError::PaymentInvalidAmount => 300,
            InsuranceError::PaymentUnsupportedAsset => 301,
            InsuranceError::PremiumPaymentOverdue => 302,
            InsuranceError::RefundExceedsBalance => 303,
            InsuranceError::KycNotVerified => 400,
            InsuranceError::KycExpired => 401,
            InsuranceError::KycDocumentRejected => 402,
            InsuranceError::ComplianceViolation => 403,
            InsuranceError::RecordNotFound => 500,
            InsuranceError::InvalidData => 501,
            InsuranceError::StorageExpired => 502,
            InsuranceError::OracleDataMissing => 600,
            InsuranceError::OracleDataStale => 601,
            InsuranceError::ExternalCallFailed => 602,
            InsuranceError::ContractPaused => 700,
            InsuranceError::NotImplemented => 701,
            InsuranceError::ArithmeticOverflow => 702,
            InsuranceError::LimitExceeded => 703,
        }
    }

    /// Returns the numeric code of this error, for logs and monitoring.
    pub fn code(&self) -> (r: u32)
        ensures
            r == self.spec_code(),
    {
        match self {
            InsuranceError::Unauthorized => 1,
            InsuranceError::InsufficientPermissions => 2,
            InsuranceError::AuthExpired => 3,
            InsuranceError::AlreadyInitialized => 4,
            InsuranceError::PolicyNotFound => 100,
            InsuranceError::PolicyInvalidState => 101,
            InsuranceError::PolicyExpired => 102,
            InsuranceError::PolicyAlreadyCancelled => 103,
            InsuranceError::PolicyCoverageOutOfRange => 104,
            InsuranceError::ClaimNotFound => 200,
            InsuranceError::ClaimExceedsLimit => 201,
            InsuranceError::ClaimDuplicate => 202,
            InsuranceError::ClaimDeadlineExceeded => 203,
            InsuranceError::ClaimInvalidState => 204,
            InsuranceError::ClaimMissingDocuments => 205,
            InsuranceError::PaymentInvalidAmount => 300,
            InsuranceError::PaymentUnsupportedAsset => 301,
            InsuranceError::PremiumPaymentOverdue => 302,
            InsuranceError::RefundExceedsBalance => 303,
            InsuranceError::KycNotVerified => 400,
            InsuranceError::KycExpired => 401,
            InsuranceError::KycDocumentRejected => 402,
            InsuranceError::ComplianceViolation => 403,
            InsuranceError::RecordNotFound => 500,
            InsuranceError::InvalidData => 501,
            InsuranceError::StorageExpired => 502,
            InsuranceError::OracleDataMissing => 600,
            InsuranceError::OracleDataStale => 601,
            InsuranceError::ExternalCallFailed => 602,
            InsuranceError::ContractPaused => 700,
            InsuranceError::NotImplemented => 701,
            InsuranceError::ArithmeticOverflow => 702,
            InsuranceError::LimitExceeded => 703,
        }
    }

    /// What went wrong, in words.
    pub open spec fn spec_message(self) -> Seq<char> {
        match self {
            InsuranceError::Unauthorized => "Caller is not authorized on this contract"@,
            InsuranceError::InsufficientPermissions => "Caller's role does not allow this action"@,
            InsuranceError::AuthExpired => "Authorization has expired; please re-authenticate"@,
            InsuranceError::AlreadyInitialized => "Contract has already been initialized"@,
            InsuranceError::PolicyNotFound => "No policy found with the given ID"@,
            InsuranceError::PolicyInvalidState => "Policy is in a state that does not permit this action"@,
            InsuranceError::PolicyExpired => "Policy coverage period has ended"@,
            InsuranceError::PolicyAlreadyCancelled => "Policy has already been cancelled"@,
            InsuranceError::PolicyCoverageOutOfRange => "Coverage amount is outside the permitted range"@,
            InsuranceError::ClaimNotFound => "No claim found with the given ID"@,
            InsuranceError::ClaimExceedsLimit => "Claim amount exceeds the policy coverage limit"@,
            InsuranceError::ClaimDuplicate => "A claim for this event already exists"@,
            InsuranceError::ClaimDeadlineExceeded => "Claim was submitted past the filing deadline"@,
            InsuranceError::ClaimInvalidState => "Claim is in a state that does not permit this action"@,
            InsuranceError::ClaimMissingDocuments => "Required documentation for the claim is missing"@,
            InsuranceError::PaymentInvalidAmount => "Payment amount must be greater than zero"@,
            InsuranceError::PaymentUnsupportedAsset => "This asset type is not accepted for payment"@,
            InsuranceError::PremiumPaymentOverdue => "Premium payment is past the due date"@,
            InsuranceError::RefundExceedsBalance => "Refund amount exceeds the available balance"@,
            InsuranceError::KycNotVerified => "Policy holder has not completed identity verification"@,
            InsuranceError::KycExpired => "Identity verification has expired and must be renewed"@,
            InsuranceError::KycDocumentRejected => "Submitted KYC documents were not accepted"@,
            InsuranceError::ComplianceViolation => "Operation is blocked by a regulatory restriction"@,
            InsuranceError::RecordNotFound => "The requested record does not exist in storage"@,
            InsuranceError::InvalidData => "Provided data is malformed or out of range"@,
            InsuranceError::StorageExpired => "Storage entry has expired; re-submit the data"@,
            InsuranceError::OracleDataMissing => "Oracle has not published data for this feed"@,
            InsuranceError::OracleDataStale => "Oracle data is too old to be used for this operation"@,
            InsuranceError::ExternalCallFailed => "A required external contract call failed"@,
            InsuranceError::ContractPaused => "Contract is paused; try again later"@,
            InsuranceError::NotImplemented => "This feature is not yet available"@,
            InsuranceError::ArithmeticOverflow => "Calculation resulted in an overflow"@,
            InsuranceError::LimitExceeded => "Value exceeds the maximum allowed limit"@,
        }
    }

    /// Returns a human-readable description of what went wrong.
    pub fn message(&self) -> (r: &'static str)
        ensures
            r@ == self.spec_message(),
    {
        match self {
            InsuranceError::Unauthorized => "Caller is not authorized on this contract",
            InsuranceError::InsufficientPermissions => "Caller's role does not allow this action",
            InsuranceError::AuthExpired => "Authorization has expired; please re-authenticate",
            InsuranceError::AlreadyInitialized => "Contract has already been initialized",
            InsuranceError::PolicyNotFound => "No policy found with the given ID",
            InsuranceError::PolicyInvalidState => "Policy is in a state that does not permit this action",
            InsuranceError::PolicyExpired => "Policy coverage period has ended",
            InsuranceError::PolicyAlreadyCancelled => "Policy has already been cancelled",
            InsuranceError::PolicyCoverageOutOfRange => "Coverage amount is outside the permitted range",
            InsuranceError::ClaimNotFound => "No claim found with the given ID",
            InsuranceError::ClaimExceedsLimit => "Claim amount exceeds the policy coverage limit",
            InsuranceError::ClaimDuplicate => "A claim for this event already exists",
            InsuranceError::ClaimDeadlineExceeded => "Claim was submitted past the filing deadline",
            InsuranceError::ClaimInvalidState => "Claim is in a state that does not permit this action",
            InsuranceError::ClaimMissingDocuments => "Required documentation for the claim is missing",
            InsuranceError::PaymentInvalidAmount => "Payment amount must be greater than zero",
            InsuranceError::PaymentUnsupportedAsset => "This asset type is not accepted for payment",
            InsuranceError::PremiumPaymentOverdue => "Premium payment is past the due date",
            InsuranceError::RefundExceedsBalance => "Refund amount exceeds the available balance",
            InsuranceError::KycNotVerified => "Policy holder has not completed identity verification",
            InsuranceError::KycExpired => "Identity verification has expired and must be renewed",
            InsuranceError::KycDocumentRejected => "Submitted KYC documents were not accepted",
            InsuranceError::ComplianceViolation => "Operation is blocked by a regulatory restriction",
            InsuranceError::RecordNotFound => "The requested record does not exist in storage",
            InsuranceError::InvalidData => "Provided data is malformed or out of range",
            InsuranceError::StorageExpired => "Storage entry has expired; re-submit the data",
            InsuranceError::OracleDataMissing => "Oracle has not published data for this feed",
            InsuranceError::OracleDataStale => "Oracle data is too old to be used for this operation",
            InsuranceError::ExternalCallFailed => "A required external contract call failed",
            InsuranceError::ContractPaused => "Contract is paused; try again later",
            InsuranceError::NotImplemented => "This feature is not yet available",
            InsuranceError::ArithmeticOverflow => "Calculation resulted in an overflow",
            InsuranceError::LimitExceeded => "Value exceeds the maximum allowed limit",
        }
    }

    /// The suggested recovery step, in words.
    pub open spec fn spec_hint(self) -> Seq<char> {
        match self {
            InsuranceError::Unauthorized => "Request access from the contract admin"@,
            InsuranceError::InsufficientPermissions => "Check which role is required and request it from admin"@,
            InsuranceError::AuthExpired => "Re-authenticate and retry the operation"@,
            InsuranceError::AlreadyInitialized => "No action needed; contract is ready"@,
            InsuranceError::PolicyNotFound => "Verify the policy ID and try again"@,
            InsuranceError::PolicyInvalidState => "Check the policy lifecycle state before retrying"@,
            InsuranceError::PolicyExpired => "Renew the policy before attempting this action"@,
            InsuranceError::PolicyAlreadyCancelled => "Create a new policy if coverage is still required"@,
            InsuranceError::PolicyCoverageOutOfRange => "Adjust the coverage amount to within allowed limits"@,
            InsuranceError::ClaimNotFound => "Verify the claim ID and try again"@,
            InsuranceError::ClaimExceedsLimit => "Reduce the claim amount to within coverage limits"@,
            InsuranceError::ClaimDuplicate => "Retrieve the existing claim instead of submitting a new one"@,
            InsuranceError::ClaimDeadlineExceeded => "Contact support for late-filing assistance"@,
            InsuranceError::ClaimInvalidState => "Check the claim status before retrying"@,
            InsuranceError::ClaimMissingDocuments => "Upload the required documents and resubmit"@,
            InsuranceError::PaymentInvalidAmount => "Provide a positive payment amount"@,
            InsuranceError::PaymentUnsupportedAsset => "Use an accepted asset (e.g., USDC)"@,
            InsuranceError::PremiumPaymentOverdue => "Pay the overdue premium to reinstate the policy"@,
            InsuranceError::RefundExceedsBalance => "Request a refund of at most the paid balance"@,
            InsuranceError::KycNotVerified => "Complete KYC verification to proceed"@,
            InsuranceError::KycExpired => "Renew identity verification to continue"@,
            InsuranceError::KycDocumentRejected => "Resubmit corrected documents for review"@,
            InsuranceError::ComplianceViolation => "Contact compliance team to resolve the restriction"@,
            InsuranceError::RecordNotFound => "Confirm the ID is correct and retry"@,
            InsuranceError::InvalidData => "Validate all field formats and ranges before retrying"@,
            InsuranceError::StorageExpired => "Re-submit the data to refresh the storage entry"@,
            InsuranceError::OracleDataMissing => "Wait for the oracle to publish and retry"@,
            InsuranceError::OracleDataStale => "Wait for a fresh oracle update and retry"@,
            InsuranceError::ExternalCallFailed => "Check the external contract status and retry"@,
            InsuranceError::ContractPaused => "Monitor for a resume announcement and retry later"@,
            InsuranceError::NotImplemented => "Use an alternative method or wait for the next release"@,
            InsuranceError::ArithmeticOverflow => "Reduce the input values and retry"@,
            InsuranceError::LimitExceeded => "Reduce the value to within the allowed limit"@,
        }
    }

    /// Returns the suggested recovery action for the caller.
    pub fn hint(&self) -> (r: &'static str)
        ensures
            r@ == self.spec_hint(),
    {
        match self {
            InsuranceError::Unauthorized => "Request access from the contract admin",
            InsuranceError::InsufficientPermissions => "Check which role is required and request it from admin",
            InsuranceError::AuthExpired => "Re-authenticate and retry the operation",
            InsuranceError::AlreadyInitialized => "No action needed; contract is ready",
            InsuranceError::PolicyNotFound => "Verify the policy ID and try again",
            InsuranceError::PolicyInvalidState => "Check the policy lifecycle state before retrying",
            InsuranceError::PolicyExpired => "Renew the policy before attempting this action",
            InsuranceError::PolicyAlreadyCancelled => "Create a new policy if coverage is still required",
            InsuranceError::PolicyCoverageOutOfRange => "Adjust the coverage amount to within allowed limits",
            InsuranceError::ClaimNotFound => "Verify the claim ID and try again",
            InsuranceError::ClaimExceedsLimit => "Reduce the claim amount to within coverage limits",
            InsuranceError::ClaimDuplicate => "Retrieve the existing claim instead of submitting a new one",
            InsuranceError::ClaimDeadlineExceeded => "Contact support for late-filing assistance",
            InsuranceError::ClaimInvalidState => "Check the claim status before retrying",
            InsuranceError::ClaimMissingDocuments => "Upload the required documents and resubmit",
            InsuranceError::PaymentInvalidAmount => "Provide a positive payment amount",
            InsuranceError::PaymentUnsupportedAsset => "Use an accepted asset (e.g., USDC)",
            InsuranceError::PremiumPaymentOverdue => "Pay the overdue premium to reinstate the policy",
            InsuranceError::RefundExceedsBalance => "Request a refund of at most the paid balance",
            InsuranceError::KycNotVerified => "Complete KYC verification to proceed",
            InsuranceError::KycExpired => "Renew identity verification to continue",
            InsuranceError::KycDocumentRejected => "Resubmit corrected documents for review",
            InsuranceError::ComplianceViolation => "Contact compliance team to resolve the restriction",
            InsuranceError::RecordNotFound => "Confirm the ID is correct and retry",
            InsuranceError::InvalidData => "Validate all field formats and ranges before retrying",
            InsuranceError::StorageExpired => "Re-submit the data to refresh the storage entry",
            InsuranceError::OracleDataMissing => "Wait for the oracle to publish and retry",
            InsuranceError::OracleDataStale => "Wait for a fresh oracle update and retry",
            InsuranceError::ExternalCallFailed => "Check the external contract status and retry",
            InsuranceError::ContractPaused => "Monitor for a resume announcement and retry later",
            InsuranceError::NotImplemented => "Use an alternative method or wait for the next release",
            InsuranceError::ArithmeticOverflow => "Reduce the input values and retry",
            InsuranceError::LimitExceeded => "Reduce the value to within the allowed limit",
        }
    }

    /// Whether the error is transient and safe to retry automatically.
    pub open spec fn spec_is_retryable(self) -> bool {
        ||| self == InsuranceError::OracleDataMissing
        ||| self == InsuranceError::OracleDataStale
        ||| self == InsuranceError::ExternalCallFailed
        ||| self == InsuranceError::ContractPaused
    }

    /// Returns whether the error is transient and safe to retry automatically.
    pub fn is_retryable(&self) -> (r: bool)
        ensures
            r == self.spec_is_retryable(),
    {
        match self {
            InsuranceError::OracleDataMissing
            | InsuranceError::OracleDataStale
            | InsuranceError::ExternalCallFailed
            | InsuranceError::ContractPaused => true,
            _ => false,
        }
    }

    /// Whether the error needs human intervention before a retry.
    pub open spec fn spec_requires_manual_action(self) -> bool {
        ||| self == InsuranceError::KycNotVerified
        ||| self == InsuranceError::KycExpired
        ||| self == InsuranceError::KycDocumentRejected
        ||| self == InsuranceError::ComplianceViolation
        ||| self == InsuranceError::ClaimMissingDocuments
        ||| self == InsuranceError::ClaimDeadlineExceeded
    }

    /// Returns whether the error needs human intervention before a retry.
    pub fn requires_manual_action(&self) -> (r: bool)
        ensures
            r == self.spec_requires_manual_action(),
    {
        match self {
            InsuranceError::KycNotVerified
            | InsuranceError::KycExpired
            | InsuranceError::KycDocumentRejected
            | InsuranceError::ComplianceViolation
            | InsuranceError::ClaimMissingDocuments
            | InsuranceError::ClaimDeadlineExceeded => true,
            _ => false,
        }
    }
}

} // verus!
