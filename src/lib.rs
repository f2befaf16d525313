//! Versioning and migration engine for insurance protocol contracts, with the
//! shared error tables and role permissions those contracts use.
pub mod versioning;
pub mod upgradeable;
pub mod migration_laws;
pub mod errors;
pub mod error_codes;
pub mod authorization;
pub mod recovery;
pub mod staking;
