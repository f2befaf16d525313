//! Contract versioning and migration engine.
//!
//! A [`VersionManager`] is the versioning record of one contract instance: the
//! current version, the bounded migration history, the migration state and the
//! time of the last migration. Every operation is a method on that record, so
//! independent instances never share state. Persisting the record, reading the
//! ledger clock and authenticating principals are left to the host; the engine
//! receives their outcomes as plain values.
use vstd::prelude::*;

verus! {

/// Maximum number of transitions kept in the migration history.
pub const MAX_VERSION_HISTORY: usize = 100;

/// Errors reported by the versioning engine.
#[derive(Clone, Copy, Debug, PartialEq, Eq, Structural)]
pub enum VersioningError {
    /// The version record is absent.
    NotInitialized,
    /// The version record is already present.
    AlreadyInitialized,
    /// The stored version differs from the expected or declared one.
    VersionMismatch,
    /// A migration is currently executing.
    MigrationInProgress,
    /// General migration failure, for composing wrappers.
    MigrationFailed,
    /// The required proof of identity was not given.
    UnauthorizedUpgrade,
    /// Zero initial version, non-increasing target, or unknown state code.
    InvalidVersionNumber,
    /// The migration hook reported a failure.
    MigrationHookFailed,
    /// A hook's own post-migration validation failed.
    SchemaValidationFailed,
    /// The contract is frozen after a failed migration.
    RollbackFailed,
}

/// State of the migration machinery of one contract.
#[derive(Clone, Copy, Debug, PartialEq, Eq, Structural)]
pub enum MigrationState {
    /// Steady state; no migration has run or the state was reset.
    Idle,
    /// A migration hook is executing.
    InProgress,
    /// The last migration succeeded.
    Complete,
    /// A hook failed; the contract is frozen until an administrator resets it.
    RollbackRequired,
}

/// Storage code of a migration state.
pub open spec fn state_code(state: MigrationState) -> u32 {
    match state {
        MigrationState::Idle => 0,
        MigrationState::InProgress => 1,
        MigrationState::Complete => 2,
        MigrationState::RollbackRequired => 3,
    }
}

/// Converts a migration state to its storage code.
pub fn migration_state_to_u32(state: MigrationState) -> (r: u32)
    ensures
        r == state_code(state),
{
    match state {
        MigrationState::Idle => 0,
        MigrationState::InProgress => 1,
        MigrationState::Complete => 2,
        MigrationState::RollbackRequired => 3,
    }
}

/// Converts a storage code back to a migration state.
pub fn u32_to_migration_state(value: u32) -> (r: Result<MigrationState, VersioningError>)
    ensures
        value <= 3 ==> r is Ok && state_code(r->Ok_0) == value,
        value > 3 ==> r == Err::<MigrationState, VersioningError>(
            VersioningError::InvalidVersionNumber,
        ),
{
    match value {
        0 => Ok(MigrationState::Idle),
        1 => Ok(MigrationState::InProgress),
        2 => Ok(MigrationState::Complete),
        3 => Ok(MigrationState::RollbackRequired),
        _ => Err(VersioningError::InvalidVersionNumber),
    }
}

/// One completed migration, as kept in the history.
#[derive(Clone, Debug, PartialEq, Eq)]
pub struct VersionTransition<A> {
    /// Source version.
    pub from_version: u32,
    /// Target version.
    pub to_version: u32,
    /// Principal that authorized the migration.
    pub migrated_by: A,
    /// Ledger timestamp at which the migration ran.
    pub migration_timestamp: u64,
    /// Whether the migration completed; true for every recorded entry.
    pub success: bool,
    /// Free-text description of the migration.
    pub message: String,
}

/// Read-only summary of a version record.
#[derive(Clone, Copy, Debug, PartialEq, Eq, Structural)]
pub struct VersionInfo {
    /// Current contract version.
    pub current_version: u32,
    /// Number of transitions in the history.
    pub migration_count: u32,
    /// Timestamp of the last successful migration (or of initialization).
    pub last_migration_time: u64,
    /// Storage code of the current migration state.
    pub migration_state: u32,
}

/// Message recorded with every successful migration.
pub open spec fn success_message() -> Seq<char> {
    "Migration successful"@
}

/// Mathematical model of a version record.
pub struct VersionRecord<A> {
    /// The current version, absent until initialization.
    pub version: Option<u32>,
    /// Completed transitions, most recent first.
    pub history: Seq<VersionTransition<A>>,
    /// The migration state.
    pub migration_state: MigrationState,
    /// Timestamp of the last successful migration (or of initialization).
    pub last_migration_time: u64,
}

impl<A> VersionRecord<A> {
    /// The invariant of every record: a stored version is positive and the
    /// history stays within its bound.
    pub open spec fn wf(self) -> bool {
        &&& (self.version matches Some(v) ==> v > 0)
        &&& self.history.len() <= MAX_VERSION_HISTORY
    }

    /// Outcome of the compatibility gate for `expected`.
    pub open spec fn compatibility(self, expected: u32) -> Result<(), VersioningError> {
        if self.migration_state == MigrationState::InProgress {
            Err(VersioningError::MigrationInProgress)
        } else if self.migration_state == MigrationState::RollbackRequired {
            Err(VersioningError::RollbackFailed)
        } else {
            match self.version {
                None => Err(VersioningError::NotInitialized),
                Some(v) => if v == expected {
                    Ok(())
                } else {
                    Err(VersioningError::VersionMismatch)
                },
            }
        }
    }

    /// Outcome of the preconditions of a migration from `from` to `to`.
    pub open spec fn migration_check(self, from: u32, to: u32) -> Result<(), VersioningError> {
        if to <= from {
            Err(VersioningError::InvalidVersionNumber)
        } else {
            match self.version {
                None => Err(VersioningError::NotInitialized),
                Some(v) => if v != from {
                    Err(VersioningError::VersionMismatch)
                } else if self.migration_state == MigrationState::InProgress {
                    Err(VersioningError::MigrationInProgress)
                } else {
                    Ok(())
                },
            }
        }
    }

    /// The same record with another migration state.
    pub open spec fn with_state(self, state: MigrationState) -> Self {
        VersionRecord { migration_state: state, ..self }
    }

    /// The record right after initialization at `version` and time `now`.
    pub open spec fn fresh(version: u32, now: u64) -> Self {
        VersionRecord {
            version: Some(version),
            history: Seq::empty(),
            migration_state: MigrationState::Idle,
            last_migration_time: now,
        }
    }

    /// Whether `entry` records a successful migration from `from` to `to`,
    /// authorized by `migrator` at time `now`.
    pub open spec fn is_transition(
        entry: VersionTransition<A>,
        from: u32,
        to: u32,
        migrator: A,
        now: u64,
    ) -> bool {
        &&& entry.from_version == from
        &&& entry.to_version == to
        &&& entry.migrated_by == migrator
        &&& entry.migration_timestamp == now
        &&& entry.success
        &&& entry.message@ == success_message()
    }

    /// The entries kept when a new one is prepended: all of them, or the
    /// newest `MAX_VERSION_HISTORY - 1` once the history is full.
    pub open spec fn retained(self) -> Seq<VersionTransition<A>> {
        if self.history.len() >= MAX_VERSION_HISTORY {
            self.history.take(MAX_VERSION_HISTORY - 1)
        } else {
            self.history
        }
    }

    /// Whether `next` is this record after a successful migration from
    /// `from` to `to`, authorized by `migrator` at time `now`.
    pub open spec fn migrated_to(self, next: Self, from: u32, to: u32, migrator: A, now: u64) -> bool {
        &&& next.version == Some(to)
        &&& next.history.len() == self.retained().len() + 1
        &&& Self::is_transition(next.history[0], from, to, migrator, now)
        &&& next.history.drop_first() == self.retained()
        &&& next.last_migration_time == now
        &&& next.migration_state == MigrationState::Complete
    }
}

/// Transformation logic run once during a migration.
///
/// The hook receives the contract's own data, rewrites it into the layout of
/// the target version, and reports failure by returning an error.
pub trait MigrationHook<D> {
    /// What the hook returns when run on `data`. A hook that states no
    /// outcome has an unknown one.
    closed spec fn outcome(&self, data: D) -> Result<(), VersioningError> {
        arbitrary()
    }

    /// The data as the hook leaves it when run on `data`. A hook that states
    /// no transformation has an unknown one.
    closed spec fn transformed(&self, data: D) -> D {
        arbitrary()
    }

    /// Runs the transformation on `data`.
    fn run(&self, data: &mut D) -> (r: Result<(), VersioningError>)
        ensures
            r == self.outcome(*old(data)),
            *final(data) == self.transformed(*old(data)),
    ;
}

/// The versioning record of one contract instance.
pub struct VersionManager<A> {
    version: Option<u32>,
    history: Vec<VersionTransition<A>>,
    migration_state: MigrationState,
    last_migration_time: u64,
}

impl<A> View for VersionManager<A> {
    type V = VersionRecord<A>;

    closed spec fn view(&self) -> VersionRecord<A> {
        VersionRecord {
            version: self.version,
            history: self.history@,
            migration_state: self.migration_state,
            last_migration_time: self.last_migration_time,
        }
    }
}

impl<A> VersionManager<A> {
    /// The invariant of the record.
    pub open spec fn wf(&self) -> bool {
        self@.wf()
    }

    /// A record that has not been initialized yet.
    pub fn new() -> (r: Self)
        ensures
            r.wf(),
            r@.version is None,
            r@.history.len() == 0,
            r@.migration_state == MigrationState::Idle,
            r@.last_migration_time == 0,
    {
        VersionManager {
            version: None,
            history: Vec::new(),
            migration_state: MigrationState::Idle,
            last_migration_time: 0,
        }
    }

    /// Rebuilds a record from its stored parts.
    pub fn restore(
        version: Option<u32>,
        history: Vec<VersionTransition<A>>,
        migration_state: MigrationState,
        last_migration_time: u64,
    ) -> (r: Self)
        requires
            version matches Some(v) ==> v > 0,
            history.len() <= MAX_VERSION_HISTORY,
        ensures
            r.wf(),
            r@.version == version,
            r@.history == history@,
            r@.migration_state == migration_state,
            r@.last_migration_time == last_migration_time,
    {
        VersionManager { version, history, migration_state, last_migration_time }
    }

    /// Initializes the record at `initial_version`, at ledger time `now`.
    ///
    /// Fails with `AlreadyInitialized` when the record is already initialized, and
    /// with `InvalidVersionNumber` when `initial_version` is zero.
    pub fn initialize(&mut self, initial_version: u32, now: u64) -> (r: Result<(), VersioningError>)
        requires
            old(self).wf(),
        ensures
            final(self).wf(),
            old(self)@.version is Some ==> r == Err::<(), VersioningError>(
                VersioningError::AlreadyInitialized,
            ) && final(self)@ == old(self)@,
            old(self)@.version is None && initial_version == 0 ==> r == Err::<
                (),
                VersioningError,
            >(VersioningError::InvalidVersionNumber) && final(self)@ == old(self)@,
            old(self)@.version is None && initial_version > 0 ==> r is Ok && final(self)@
                == VersionRecord::<A>::fresh(initial_version, now),
    {
        if self.version.is_some() {
            return Err(VersioningError::AlreadyInitialized);
        }
        if initial_version == 0 {
            return Err(VersioningError::InvalidVersionNumber);
        }
        self.version = Some(initial_version);
        self.history = Vec::new();
        self.migration_state = MigrationState::Idle;
        self.last_migration_time = now;
        proof {
            assert(self.history@ =~= Seq::<VersionTransition<A>>::empty());
        }
        Ok(())
    }

    /// Whether the record has been initialized.
    pub fn is_initialized(&self) -> (r: bool)
        ensures
            r == self@.version is Some,
    {
        self.version.is_some()
    }

    /// The current version.
    pub fn current_version(&self) -> (r: Result<u32, VersioningError>)
        ensures
            r == match self@.version {
                Some(v) => Ok::<u32, VersioningError>(v),
                None => Err(VersioningError::NotInitialized),
            },
    {
        match self.version {
            Some(v) => Ok(v),
            None => Err(VersioningError::NotInitialized),
        }
    }

    /// The migration history, most recent first.
    pub fn version_history(&self) -> (r: Result<&Vec<VersionTransition<A>>, VersioningError>)
        ensures
            self@.version is None ==> r is Err && r->Err_0 == VersioningError::NotInitialized,
            self@.version is Some ==> r is Ok && r->Ok_0@ == self@.history,
    {
        if self.version.is_some() {
            Ok(&self.history)
        } else {
            Err(VersioningError::NotInitialized)
        }
    }

    /// The current migration state.
    pub fn migration_state(&self) -> (r: MigrationState)
        ensures
            r == self@.migration_state,
    {
        self.migration_state
    }

    /// Timestamp of the last successful migration, or of initialization.
    pub fn last_migration_time(&self) -> (r: u64)
        ensures
            r == self@.last_migration_time,
    {
        self.last_migration_time
    }

    /// Summary of the record.
    pub fn version_info(&self) -> (r: Result<VersionInfo, VersioningError>)
        ensures
            r == match self@.version {
                Some(v) => Ok::<VersionInfo, VersioningError>(
                    VersionInfo {
                        current_version: v,
                        migration_count: self@.history.len() as u32,
                        last_migration_time: self@.last_migration_time,
                        migration_state: state_code(self@.migration_state),
                    },
                ),
                None => Err(VersioningError::NotInitialized),
            },
    {
        match self.version {
            Some(v) => Ok(
                VersionInfo {
                    current_version: v,
                    migration_count: self.history.len() as u32,
                    last_migration_time: self.last_migration_time,
                    migration_state: migration_state_to_u32(self.migration_state),
                },
            ),
            None => Err(VersioningError::NotInitialized),
        }
    }

    /// The compatibility gate that every state-changing domain operation
    /// passes first. A migration in flight or a frozen contract blocks
    /// before the version is compared.
    pub fn ensure_compatible(&self, expected_version: u32) -> (r: Result<(), VersioningError>)
        ensures
            r == self@.compatibility(expected_version),
    {
        match self.migration_state {
            MigrationState::InProgress => Err(VersioningError::MigrationInProgress),
            MigrationState::RollbackRequired => Err(VersioningError::RollbackFailed),
            _ => match self.version {
                None => Err(VersioningError::NotInitialized),
                Some(v) => if v == expected_version {
                    Ok(())
                } else {
                    Err(VersioningError::VersionMismatch)
                },
            },
        }
    }

    /// Checks that `new_version` is above `current`.
    fn validate_version_upgrade(current: u32, new_version: u32) -> (r: Result<(), VersioningError>)
        ensures
            r is Ok <==> current < new_version,
            r is Err ==> r->Err_0 == VersioningError::InvalidVersionNumber,
    {
        if new_version <= current {
            return Err(VersioningError::InvalidVersionNumber);
        }
        Ok(())
    }

    /// Checks the preconditions of a migration and, when they hold, marks the
    /// migration as in progress.
    pub fn begin_migration(&mut self, from_version: u32, to_version: u32) -> (r: Result<
        (),
        VersioningError,
    >)
        requires
            old(self).wf(),
        ensures
            final(self).wf(),
            r == old(self)@.migration_check(from_version, to_version),
            r is Ok ==> final(self)@ == old(self)@.with_state(MigrationState::InProgress),
            r is Err ==> final(self)@ == old(self)@,
    {
        Self::validate_version_upgrade(from_version, to_version)?;
        let current = self.current_version()?;
        if current != from_version {
            return Err(VersioningError::VersionMismatch);
        }
        if self.migration_state == MigrationState::InProgress {
            return Err(VersioningError::MigrationInProgress);
        }
        self.migration_state = MigrationState::InProgress;
        Ok(())
    }

    /// Settles a migration in progress given what its hook returned.
    ///
    /// A failed hook freezes the contract in `RollbackRequired` and its error
    /// is returned; version and history stay as they were. A successful hook
    /// moves the version to `to_version`, prepends a transition to the
    /// history (evicting the oldest entry at the bound), stamps the time and
    /// marks the migration complete.
    pub fn complete_migration(
        &mut self,
        from_version: u32,
        to_version: u32,
        migrator: A,
        now: u64,
        hook_result: Result<(), VersioningError>,
    ) -> (r: Result<(), VersioningError>)
        requires
            old(self).wf(),
            old(self)@.migration_state == MigrationState::InProgress,
            old(self)@.version == Some(from_version),
            from_version < to_version,
        ensures
            final(self).wf(),
            r == hook_result,
            r is Err ==> final(self)@ == old(self)@.with_state(MigrationState::RollbackRequired),
            r is Ok ==> old(self)@.migrated_to(final(self)@, from_version, to_version, migrator, now),
    {
        match hook_result {
            Err(e) => {
                self.migration_state = MigrationState::RollbackRequired;
                return Err(e);
            },
            Ok(()) => {},
        }
        self.version = Some(to_version);
        let transition = VersionTransition {
            from_version,
            to_version,
            migrated_by: migrator,
            migration_timestamp: now,
            success: true,
            message: String::from_str("Migration successful"),
        };
        let ghost before = self@;
        if self.history.len() >= MAX_VERSION_HISTORY {
            self.history.truncate(MAX_VERSION_HISTORY - 1);
        }
        assert(self.history@ == before.retained());
        self.history.insert(0, transition);
        assert(self.history@.drop_first() =~= before.retained());
        self.last_migration_time = now;
        self.migration_state = MigrationState::Complete;
        hook_result
    }

    /// Migrates the contract from `from_version` to `to_version`, running
    /// `hook` on the contract's data in between.
    ///
    /// The preconditions are checked in order: the target must be above the
    /// source (`InvalidVersionNumber`), the record initialized
    /// (`NotInitialized`) and at `from_version` (`VersionMismatch`), and no
    /// migration may be in progress (`MigrationInProgress`). Then the state
    /// becomes `InProgress`, the hook runs, and the migration is settled as
    /// `complete_migration` describes: the hook's own error is returned.
    pub fn migrate<D, H: MigrationHook<D>>(
        &mut self,
        from_version: u32,
        to_version: u32,
        migrator: A,
        now: u64,
        data: &mut D,
        hook: H,
    ) -> (r: Result<(), VersioningError>)
        requires
            old(self).wf(),
        ensures
            final(self).wf(),
            old(self)@.migration_check(from_version, to_version) is Err ==> {
                &&& r == old(self)@.migration_check(from_version, to_version)
                &&& final(self)@ == old(self)@
                &&& *final(data) == *old(data)
            },
            old(self)@.migration_check(from_version, to_version) is Ok ==> {
                &&& r == hook.outcome(*old(data))
                &&& *final(data) == hook.transformed(*old(data))
                &&& r is Err ==> final(self)@ == old(self)@.with_state(
                    MigrationState::RollbackRequired,
                )
                &&& r is Ok ==> old(self)@.migrated_to(
                    final(self)@,
                    from_version,
                    to_version,
                    migrator,
                    now,
                )
            },
            r is Ok ==> from_version < to_version && old(self)@.version == Some(from_version),
    {
        self.begin_migration(from_version, to_version)?;
        let hook_result = hook.run(data);
        self.complete_migration(from_version, to_version, migrator, now, hook_result)
    }

    /// Clears the migration state back to `None`, the recovery step after a
    /// failed migration has been repaired by hand. `admin_authenticated`
    /// reports whether the administrator proved their identity; without it
    /// the call fails with `UnauthorizedUpgrade` and changes nothing.
    pub fn reset_migration_state(&mut self, admin_authenticated: bool) -> (r: Result<
        (),
        VersioningError,
    >)
        requires
            old(self).wf(),
        ensures
            final(self).wf(),
            !admin_authenticated ==> r == Err::<(), VersioningError>(
                VersioningError::UnauthorizedUpgrade,
            ) && final(self)@ == old(self)@,
            admin_authenticated ==> r is Ok && final(self)@ == old(self)@.with_state(
                MigrationState::Idle,
            ),
    {
        if !admin_authenticated {
            return Err(VersioningError::UnauthorizedUpgrade);
        }
        self.migration_state = MigrationState::Idle;
        Ok(())
    }
}

} // verus!
