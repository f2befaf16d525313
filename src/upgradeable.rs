//! Facade over the version manager for contracts that upgrade, and helpers
//! that build migration hooks.
use crate::versioning::{
    MigrationHook, MigrationState, VersionInfo, VersionManager, VersionTransition,
    VersioningError,
};
use vstd::prelude::*;

verus! {

/// Convenience entry points for upgradeable contracts; a contract starts at
/// version 1 unless it asks for another.
pub struct UpgradeableContract;

impl UpgradeableContract {
    /// Initializes the record at version 1.
    pub fn initialize<A>(vm: &mut VersionManager<A>, now: u64) -> (r: Result<(), VersioningError>)
        requires
            old(vm).wf(),
        ensures
            final(vm).wf(),
            old(vm)@.version is Some ==> r == Err::<(), VersioningError>(
                VersioningError::AlreadyInitialized,
            ) && final(vm)@ == old(vm)@,
            old(vm)@.version is None ==> r is Ok && final(vm)@
                == crate::versioning::VersionRecord::<A>::fresh(1, now),
    {
        vm.initialize(1, now)
    }

    /// Initializes the record at `version`.
    pub fn initialize_with_version<A>(vm: &mut VersionManager<A>, version: u32, now: u64) -> (r:
        Result<(), VersioningError>)
        requires
            old(vm).wf(),
        ensures
            final(vm).wf(),
            old(vm)@.version is Some ==> r == Err::<(), VersioningError>(
                VersioningError::AlreadyInitialized,
            ) && final(vm)@ == old(vm)@,
            old(vm)@.version is None && version == 0 ==> r == Err::<(), VersioningError>(
                VersioningError::InvalidVersionNumber,
            ) && final(vm)@ == old(vm)@,
            old(vm)@.version is None && version > 0 ==> r is Ok && final(vm)@
                == crate::versioning::VersionRecord::<A>::fresh(version, now),
    {
        vm.initialize(version, now)
    }

    /// The compatibility gate; see `VersionManager::ensure_compatible`.
    pub fn ensure_version_compatible<A>(vm: &VersionManager<A>, expected_version: u32) -> (r:
        Result<(), VersioningError>)
        ensures
            r == vm@.compatibility(expected_version),
    {
        vm.ensure_compatible(expected_version)
    }

    /// Upgrades from `current_version` to `new_version`, running `hook` on
    /// the contract's data. `migrator_authenticated` reports whether
    /// `migrator` proved their identity; without it the call fails with
    /// `UnauthorizedUpgrade` before anything else is checked.
    pub fn upgrade<A, D, H: MigrationHook<D>>(
        vm: &mut VersionManager<A>,
        current_version: u32,
        new_version: u32,
        migrator: A,
        migrator_authenticated: bool,
        now: u64,
        data: &mut D,
        hook: H,
    ) -> (r: Result<(), VersioningError>)
        requires
            old(vm).wf(),
        ensures
            final(vm).wf(),
            !migrator_authenticated ==> {
                &&& r == Err::<(), VersioningError>(VersioningError::UnauthorizedUpgrade)
                &&& final(vm)@ == old(vm)@
                &&& *final(data) == *old(data)
            },
            migrator_authenticated && old(vm)@.migration_check(current_version, new_version) is Err
                ==> {
                &&& r == old(vm)@.migration_check(current_version, new_version)
                &&& final(vm)@ == old(vm)@
                &&& *final(data) == *old(data)
            },
            migrator_authenticated && old(vm)@.migration_check(current_version, new_version) is Ok
                ==> {
                &&& r == hook.outcome(*old(data))
                &&& *final(data) == hook.transformed(*old(data))
                &&& r is Err ==> final(vm)@ == old(vm)@.with_state(
                    MigrationState::RollbackRequired,
                )
                &&& r is Ok ==> old(vm)@.migrated_to(
                    final(vm)@,
                    current_version,
                    new_version,
                    migrator,
                    now,
                )
            },
    {
        if !migrator_authenticated {
            return Err(VersioningError::UnauthorizedUpgrade);
        }
        vm.migrate(current_version, new_version, migrator, now, data, hook)
    }

    /// The current version.
    pub fn current_version<A>(vm: &VersionManager<A>) -> (r: Result<u32, VersioningError>)
        ensures
            r == match vm@.version {
                Some(v) => Ok::<u32, VersioningError>(v),
                None => Err(VersioningError::NotInitialized),
            },
    {
        vm.current_version()
    }

    /// Summary of the record.
    pub fn version_info<A>(vm: &VersionManager<A>) -> (r: Result<VersionInfo, VersioningError>)
        ensures
            r == match vm@.version {
                Some(v) => Ok::<VersionInfo, VersioningError>(
                    VersionInfo {
                        current_version: v,
                        migration_count: vm@.history.len() as u32,
                        last_migration_time: vm@.last_migration_time,
                        migration_state: crate::versioning::state_code(vm@.migration_state),
                    },
                ),
                None => Err(VersioningError::NotInitialized),
            },
    {
        vm.version_info()
    }

    /// The migration history, most recent first.
    pub fn version_history<A>(vm: &VersionManager<A>) -> (r: Result<
        &Vec<VersionTransition<A>>,
        VersioningError,
    >)
        ensures
            vm@.version is None ==> r is Err && r->Err_0 == VersioningError::NotInitialized,
            vm@.version is Some ==> r is Ok && r->Ok_0@ == vm@.history,
    {
        vm.version_history()
    }

    /// Clears the migration state after manual recovery; see
    /// `VersionManager::reset_migration_state`.
    pub fn reset_migration_state<A>(vm: &mut VersionManager<A>, admin_authenticated: bool) -> (r:
        Result<(), VersioningError>)
        requires
            old(vm).wf(),
        ensures
            final(vm).wf(),
            !admin_authenticated ==> r == Err::<(), VersioningError>(
                VersioningError::UnauthorizedUpgrade,
            ) && final(vm)@ == old(vm)@,
            admin_authenticated ==> r is Ok && final(vm)@ == old(vm)@.with_state(
                MigrationState::Idle,
            ),
    {
        vm.reset_migration_state(admin_authenticated)
    }
}

/// Storage patterns that stay readable across upgrades implement this to
/// report whether their layout matches a version.
pub trait VersionSafeStorage<D> {
    /// Checks that the layout of `data` is the one of `expected_version`.
    fn check_layout_compatibility(&self, data: &D, expected_version: u32) -> (r: Result<
        (),
        VersioningError,
    >);
}

/// The no-op transformation: succeeds and leaves the data as it is.
pub fn default_migration_hook<D>(data: &mut D) -> (r: Result<(), VersioningError>)
    ensures
        r == Ok::<(), VersioningError>(()),
        *final(data) == *old(data),
{
    Ok(())
}

/// Hook for a version bump that needs no data transformation.
#[derive(Clone, Copy, Debug, PartialEq, Eq)]
pub struct DefaultMigrationHook;

impl<D> MigrationHook<D> for DefaultMigrationHook {
    open spec fn outcome(&self, data: D) -> Result<(), VersioningError> {
        Ok(())
    }

    open spec fn transformed(&self, data: D) -> D {
        data
    }

    fn run(&self, data: &mut D) -> (r: Result<(), VersioningError>) {
        default_migration_hook(data)
    }
}

/// Hook that records a description of the migration and changes no data.
#[derive(Clone, Debug, PartialEq, Eq)]
pub struct LoggedMigrationHook {
    /// What the migration does.
    pub description: String,
}

/// Builds a hook that carries `description` and performs no transformation.
pub fn logged_migration_hook(description: &str) -> (r: LoggedMigrationHook)
    ensures
        r.description@ == description@,
{
    LoggedMigrationHook { description: String::from_str(description) }
}

impl<D> MigrationHook<D> for LoggedMigrationHook {
    open spec fn outcome(&self, data: D) -> Result<(), VersioningError> {
        Ok(())
    }

    open spec fn transformed(&self, data: D) -> D {
        data
    }

    fn run(&self, data: &mut D) -> (r: Result<(), VersioningError>) {
        Ok(())
    }
}

/// Two hooks run in sequence.
#[derive(Clone, Debug, PartialEq, Eq)]
pub struct ComposedHooks<H1, H2> {
    /// Runs first.
    pub first: H1,
    /// Runs only when `first` succeeded.
    pub second: H2,
}

/// Builds a hook that runs `first` and then `second`, stopping at the first
/// error and returning it.
pub fn compose_hooks<H1, H2>(first: H1, second: H2) -> (r: ComposedHooks<H1, H2>)
    ensures
        r.first == first,
        r.second == second,
{
    ComposedHooks { first, second }
}

impl<D, H1: MigrationHook<D>, H2: MigrationHook<D>> MigrationHook<D> for ComposedHooks<H1, H2> {
    /// `first`'s error if it fails, else what `second` returns on the data
    /// `first` left.
    open spec fn outcome(&self, data: D) -> Result<(), VersioningError> {
        match self.first.outcome(data) {
            Err(e) => Err(e),
            Ok(()) => self.second.outcome(self.first.transformed(data)),
        }
    }

    /// The data as `first` left it if it fails, else as `second` left it
    /// after running on `first`'s result.
    open spec fn transformed(&self, data: D) -> D {
        match self.first.outcome(data) {
            Err(_) => self.first.transformed(data),
            Ok(()) => self.second.transformed(self.first.transformed(data)),
        }
    }

    fn run(&self, data: &mut D) -> (r: Result<(), VersioningError>) {
        match self.first.run(data) {
            Err(e) => Err(e),
            Ok(()) => self.second.run(data),
        }
    }
}

} // verus!
