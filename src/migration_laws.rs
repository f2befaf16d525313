//! Laws of the migration state machine, stated over the record model and
//! proved.
use crate::versioning::{MigrationState, VersionRecord, VersioningError, MAX_VERSION_HISTORY};
use vstd::prelude::*;

verus! {

/// Whether `next` follows `prev` by one successful migration, the one that
/// `next`'s newest history entry records.
pub open spec fn migration_step<A>(prev: VersionRecord<A>, next: VersionRecord<A>) -> bool {
    let e = next.history[0];
    &&& prev.migration_check(e.from_version, e.to_version) is Ok
    &&& prev.migrated_to(next, e.from_version, e.to_version, e.migrated_by, e.migration_timestamp)
}

/// Whether `states` is a run of successful migrations, each state following
/// the one before it.
pub open spec fn migration_run<A>(states: Seq<VersionRecord<A>>) -> bool {
    forall|i: int| 0 <= i < states.len() - 1 ==> #[trigger] migration_step(states[i], states[i + 1])
}

/// A successful migration is one step of a run, and it raises the version.
pub proof fn lemma_successful_migration_is_step<A>(
    prev: VersionRecord<A>,
    next: VersionRecord<A>,
    from: u32,
    to: u32,
    migrator: A,
    now: u64,
)
    requires
        prev.migration_check(from, to) is Ok,
        prev.migrated_to(next, from, to, migrator, now),
    ensures
        migration_step(prev, next),
        prev.version is Some && next.version is Some,
        prev.version->Some_0 < next.version->Some_0,
{
}

/// Along a run of successful migrations the version strictly increases.
pub proof fn lemma_run_versions_increase<A>(states: Seq<VersionRecord<A>>)
    requires
        migration_run(states),
        states.len() >= 2,
    ensures
        forall|i: int, j: int|
            0 <= i < j < states.len() ==> {
                &&& (#[trigger] states[i]).version is Some
                &&& (#[trigger] states[j]).version is Some
                &&& states[i].version->Some_0 < states[j].version->Some_0
            },
    decreases states.len(),
{
    let n = states.len();
    let m = n - 2;
    assert(migration_step(states[m], states[m + 1]));
    if n > 2 {
        let prefix = states.drop_last();
        assert forall|i: int| 0 <= i < prefix.len() - 1 implies #[trigger] migration_step(
            prefix[i],
            prefix[i + 1],
        ) by {
            assert(prefix[i] == states[i] && prefix[i + 1] == states[i + 1]);
            assert(migration_step(states[i], states[i + 1]));
        }
        lemma_run_versions_increase(prefix);
        assert forall|i: int, j: int| 0 <= i < j < n implies {
            &&& (#[trigger] states[i]).version is Some
            &&& (#[trigger] states[j]).version is Some
            &&& states[i].version->Some_0 < states[j].version->Some_0
        } by {
            if j < n - 1 {
                assert(prefix[i] == states[i] && prefix[j] == states[j]);
            } else if i < n - 2 {
                assert(prefix[i] == states[i] && prefix[n - 2] == states[n - 2]);
            }
        }
    }
}

/// No migration to a version at or below its source passes the checks.
pub proof fn lemma_no_downgrade<A>(rec: VersionRecord<A>, from: u32, to: u32)
    requires
        to <= from,
    ensures
        rec.migration_check(from, to) == Err::<(), VersioningError>(
            VersioningError::InvalidVersionNumber,
        ),
{
}

/// While a migration is in progress no other migration can start, and a
/// well-formed request at the current version is refused as
/// `MigrationInProgress`.
pub proof fn lemma_in_progress_excludes_migration<A>(rec: VersionRecord<A>, from: u32, to: u32)
    requires
        rec.migration_state == MigrationState::InProgress,
    ensures
        rec.migration_check(from, to) is Err,
        from < to && rec.version == Some(from) ==> rec.migration_check(from, to) == Err::<
            (),
            VersioningError,
        >(VersioningError::MigrationInProgress),
        rec.compatibility(from) == Err::<(), VersioningError>(VersioningError::MigrationInProgress),
{
}

/// A failed hook leaves the version and the history as they were, and the
/// compatibility gate then reports `RollbackFailed` for every expected
/// version, the old one included.
pub proof fn lemma_hook_failure_fails_closed<A>(before: VersionRecord<A>, expected: u32)
    ensures
        ({
            let after = before.with_state(MigrationState::RollbackRequired);
            &&& after.version == before.version
            &&& after.history == before.history
            &&& after.compatibility(expected) == Err::<(), VersioningError>(
                VersioningError::RollbackFailed,
            )
        }),
{
}

/// Along a run of successful migrations that starts with an empty history,
/// the history holds the newest transitions, at most the bound of them,
/// most recent first.
pub proof fn lemma_run_history_bounded<A>(states: Seq<VersionRecord<A>>)
    requires
        migration_run(states),
        states.len() >= 1,
        states[0].history.len() == 0,
    ensures
        ({
            let last = states[states.len() - 1];
            let k = states.len() - 1;
            &&& last.history.len() == if k <= MAX_VERSION_HISTORY {
                k
            } else {
                MAX_VERSION_HISTORY as int
            }
            &&& forall|j: int|
                0 <= j < last.history.len() ==> #[trigger] last.history[j] == states[k - j].history[0]
        }),
    decreases states.len(),
{
    let n = states.len();
    if n > 1 {
        let prefix = states.drop_last();
        assert forall|i: int| 0 <= i < prefix.len() - 1 implies #[trigger] migration_step(
            prefix[i],
            prefix[i + 1],
        ) by {
            assert(prefix[i] == states[i] && prefix[i + 1] == states[i + 1]);
            assert(migration_step(states[i], states[i + 1]));
        }
        lemma_run_history_bounded(prefix);
        let prev = states[n - 2];
        let last = states[n - 1];
        assert(prefix[n - 2] == prev);
        let m = n - 2;
        assert(migration_step(states[m], states[m + 1]));
        let kept = prev.retained();
        assert(last.history.drop_first() == kept);
        assert forall|j: int| 0 <= j < last.history.len() implies #[trigger] last.history[j]
            == states[n - 1 - j].history[0] by {
            if j > 0 {
                assert(last.history[j] == last.history.drop_first()[j - 1]);
                assert(kept[j - 1] == prev.history[j - 1]);
                assert(prefix[n - 2 - (j - 1)] == states[n - 1 - j]);
            }
        }
    }
}

/// Along a run of successful migrations that starts with an empty history,
/// the history is a chain: each entry starts at the version where the next
/// older entry ended, and the newest entry ends at the current version.
pub proof fn lemma_run_history_chained<A>(states: Seq<VersionRecord<A>>)
    requires
        migration_run(states),
        states.len() >= 2,
        states[0].history.len() == 0,
    ensures
        ({
            let last = states[states.len() - 1];
            &&& last.version == Some(last.history[0].to_version)
            &&& forall|j: int|
                0 <= j < last.history.len() - 1 ==> (#[trigger] last.history[j]).from_version
                    == last.history[j + 1].to_version
        }),
{
    lemma_run_history_bounded(states);
    let k = states.len() - 1;
    let last = states[k];
    let m = k - 1;
    assert(migration_step(states[m], states[m + 1]));
    assert forall|j: int| 0 <= j < last.history.len() - 1 implies (
    #[trigger] last.history[j]).from_version == last.history[j + 1].to_version by {
        let i = k - j - 1;
        assert(migration_step(states[i], states[i + 1]));
        let h = i - 1;
        assert(migration_step(states[h], states[h + 1]));
        assert(states[k - (j + 1)] == states[i]);
    }
}

/// A contract steady at version `v` passes the compatibility gate for `v`.
pub proof fn lemma_steady_compatible<A>(rec: VersionRecord<A>, v: u32)
    requires
        rec.version == Some(v),
        rec.migration_state == MigrationState::Idle || rec.migration_state
            == MigrationState::Complete,
    ensures
        rec.compatibility(v) == Ok::<(), VersioningError>(()),
{
}

/// After a reset, a frozen contract passes the compatibility gate again at
/// its current version, which the reset does not change.
pub proof fn lemma_reset_unfreezes<A>(rec: VersionRecord<A>, v: u32)
    requires
        rec.migration_state == MigrationState::RollbackRequired,
        rec.version == Some(v),
    ensures
        rec.compatibility(v) == Err::<(), VersioningError>(VersioningError::RollbackFailed),
        rec.with_state(MigrationState::Idle).version == rec.version,
        rec.with_state(MigrationState::Idle).compatibility(v) == Ok::<(), VersioningError>(()),
{
}

} // verus!
