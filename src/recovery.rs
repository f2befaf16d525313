//! Classification of reported errors: how severe each is and what recovery
//! it calls for.
use crate::error_codes::InsuranceError;
use vstd::prelude::*;

verus! {

/// How serious an error is.
#[derive(Clone, Copy, Debug, PartialEq, Eq, Structural)]
pub enum ErrorSeverity {
    /// Informational; no immediate action required
    Info,
    /// Unexpected but non-blocking
    Warning,
    /// Operation failed; caller must take action
    Error,
    /// System-level failure; requires operator intervention
    Critical,
}

/// What was done, or should be done, to recover from an error.
#[derive(Clone, Copy, Debug, PartialEq, Eq, Structural)]
pub enum RecoveryAction {
    /// No recovery needed or possible
    Nothing,
    /// Operation was retried automatically and succeeded
    AutoRetried,
    /// State was rolled back to the last known-good snapshot
    StateRolledBack,
    /// Contract was paused pending operator review
    ContractPaused,
    /// Funds were redirected to the escrow/fallback address
    FundsEscrowed,
    /// Operator must intervene manually
    ManualInterventionRequired,
}

/// Current status of a recovery attempt.
#[derive(Clone, Copy, Debug, PartialEq, Eq, Structural)]
pub enum RecoveryStatus {
    /// Awaiting resolution
    Pending,
    /// Resolved
    Resolved,
    /// Recovery failed
    Failed,
    /// Handed to an operator
    EscalatedToOperator,
}

/// Severity assigned to each error.
pub open spec fn severity_of(error: InsuranceError) -> ErrorSeverity {
    match error {
        InsuranceError::ArithmeticOverflow
        | InsuranceError::ContractPaused
        | InsuranceError::ComplianceViolation => ErrorSeverity::Critical,
        InsuranceError::Unauthorized
        | InsuranceError::ClaimExceedsLimit
        | InsuranceError::PremiumPaymentOverdue
        | InsuranceError::ExternalCallFailed => ErrorSeverity::Error,
        InsuranceError::OracleDataStale
        | InsuranceError::KycExpired
        | InsuranceError::StorageExpired => ErrorSeverity::Warning,
        _ => ErrorSeverity::Info,
    }
}

/// Recovery action assigned to each error: retryable errors are retried,
/// errors needing a human go to an operator, and a few others have a
/// dedicated action.
pub open spec fn recovery_action_of(error: InsuranceError) -> RecoveryAction {
    if error.spec_is_retryable() {
        RecoveryAction::AutoRetried
    } else if error.spec_requires_manual_action() {
        RecoveryAction::ManualInterventionRequired
    } else {
        match error {
            InsuranceError::ArithmeticOverflow => RecoveryAction::StateRolledBack,
            InsuranceError::ContractPaused => RecoveryAction::ContractPaused,
            InsuranceError::PaymentInvalidAmount
            | InsuranceError::ClaimExceedsLimit => RecoveryAction::FundsEscrowed,
            _ => RecoveryAction::Nothing,
        }
    }
}

/// The error-recovery contract's classification rules.
pub struct RecoveryContract;

impl RecoveryContract {
    /// Severity of `error`.
    pub fn derive_severity(error: &InsuranceError) -> (r: ErrorSeverity)
        ensures
            r == severity_of(*error),
    {
        match error {
            InsuranceError::ArithmeticOverflow
            | InsuranceError::ContractPaused
            | InsuranceError::ComplianceViolation => ErrorSeverity::Critical,
            InsuranceError::Unauthorized
            | InsuranceError::ClaimExceedsLimit
            | InsuranceError::PremiumPaymentOverdue
            | InsuranceError::ExternalCallFailed => ErrorSeverity::Error,
            InsuranceError::OracleDataStale
            | InsuranceError::KycExpired
            | InsuranceError::StorageExpired => ErrorSeverity::Warning,
            _ => ErrorSeverity::Info,
        }
    }

    /// Recovery action for `error`.
    pub fn derive_recovery_action(error: &InsuranceError) -> (r: RecoveryAction)
        ensures
            r == recovery_action_of(*error),
    {
        if error.is_retryable() {
            return RecoveryAction::AutoRetried;
        }
        if error.requires_manual_action() {
            return RecoveryAction::ManualInterventionRequired;
        }
        match error {
            InsuranceError::ArithmeticOverflow => RecoveryAction::StateRolledBack,
            InsuranceError::ContractPaused => RecoveryAction::ContractPaused,
            InsuranceError::PaymentInvalidAmount
            | InsuranceError::ClaimExceedsLimit => RecoveryAction::FundsEscrowed,
            _ => RecoveryAction::Nothing,
        }
    }
}

} // verus!
