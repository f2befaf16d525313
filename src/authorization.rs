//! Protocol-wide roles and the permission matrix that says what each may do.
use vstd::prelude::*;

verus! {

/// Protocol-wide role of a principal.
#[derive(Clone, Copy, Debug, PartialEq, Eq, Structural)]
pub enum Role {
    /// Root administrator with full protocol access
    Admin,
    /// Governance contract or approved governance participant
    Governance,
    /// Risk pool manager authorized to handle liquidity operations
    RiskPoolManager,
    /// Policy manager authorized to create and manage policies
    PolicyManager,
    /// Claim processor authorized to approve/reject claims
    ClaimProcessor,
    /// Auditor authorized to view sensitive data and perform audits
    Auditor,
    /// Regular user (policyholder, liquidity provider, etc.)
    User,
}

/// Authorization errors.
#[derive(Clone, Copy, Debug, PartialEq, Eq, Structural)]
pub enum AuthError {
    /// The caller holds no role that allows the action.
    Unauthorized,
    /// The role given is not valid here.
    InvalidRole,
    /// The principal has no role.
    RoleNotFound,
    /// The calling contract is not trusted.
    NotTrustedContract,
}

impl Role {
    /// Whether this role may perform administrative actions.
    pub fn can_admin(&self) -> (r: bool)
        ensures
            r == (*self == Role::Admin),
    {
        matches!(self, Role::Admin)
    }

    /// Whether this role may manage policies.
    pub fn can_manage_policies(&self) -> (r: bool)
        ensures
            r == (*self == Role::Admin || *self == Role::PolicyManager),
    {
        matches!(self, Role::Admin | Role::PolicyManager)
    }

    /// Whether this role may process claims.
    pub fn can_process_claims(&self) -> (r: bool)
        ensures
            r == (*self == Role::Admin || *self == Role::ClaimProcessor),
    {
        matches!(self, Role::Admin | Role::ClaimProcessor)
    }

    /// Whether this role may manage the risk pool.
    pub fn can_manage_risk_pool(&self) -> (r: bool)
        ensures
            r == (*self == Role::Admin || *self == Role::RiskPoolManager),
    {
        matches!(self, Role::Admin | Role::RiskPoolManager)
    }

    /// Whether this role may take part in governance.
    pub fn can_govern(&self) -> (r: bool)
        ensures
            r == (*self == Role::Admin || *self == Role::Governance),
    {
        matches!(self, Role::Admin | Role::Governance)
    }

    /// Whether this role may submit claims; claim processors may not submit
    /// claims of their own.
    pub fn can_submit_claim(&self) -> (r: bool)
        ensures
            r == (*self != Role::ClaimProcessor),
    {
        !matches!(self, Role::ClaimProcessor)
    }

    /// Whether this role may audit system operations.
    pub fn can_audit(&self) -> (r: bool)
        ensures
            r == (*self == Role::Admin || *self == Role::Auditor),
    {
        matches!(self, Role::Admin | Role::Auditor)
    }

    /// Whether this role has read access.
    pub fn can_read(&self) -> (r: bool)
        ensures
            r == (*self == Role::Admin || *self == Role::Auditor || *self == Role::User),
    {
        matches!(self, Role::Admin | Role::Auditor | Role::User)
    }

    /// Whether this role has elevated permissions (admin or governance).
    pub fn has_elevated_permissions(&self) -> (r: bool)
        ensures
            r == (*self == Role::Admin || *self == Role::Governance),
    {
        matches!(self, Role::Admin | Role::Governance)
    }
}

} // verus!
