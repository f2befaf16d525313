use std::collections::BTreeMap;

use stellar_insured_contracts::upgradeable::{
    compose_hooks, default_migration_hook, logged_migration_hook, DefaultMigrationHook,
    UpgradeableContract,
};
use stellar_insured_contracts::versioning::{
    migration_state_to_u32, u32_to_migration_state, MigrationHook, MigrationState, VersionInfo,
    VersionManager, VersioningError, MAX_VERSION_HISTORY,
};

type Data = BTreeMap<String, i64>;

fn admin() -> String {
    "GADMIN".to_string()
}

fn fresh(version: u32) -> VersionManager<String> {
    let mut vm = VersionManager::new();
    vm.initialize(version, 1_000).unwrap();
    vm
}

struct FailingHook(VersioningError);

impl<D> MigrationHook<D> for FailingHook {
    fn run(&self, _data: &mut D) -> Result<(), VersioningError> {
        Err(self.0)
    }
}

/// Moves "balance" into "balance_v2" in cents, and removes the old key.
struct CentsHook;

impl MigrationHook<Data> for CentsHook {
    fn run(&self, data: &mut Data) -> Result<(), VersioningError> {
        let old = data.remove("balance").ok_or(VersioningError::SchemaValidationFailed)?;
        data.insert("balance_v2".to_string(), old * 100);
        Ok(())
    }
}

/// Appends its tag to the "steps" entry, as a record of the order of runs.
struct StepHook(i64);

impl MigrationHook<Data> for StepHook {
    fn run(&self, data: &mut Data) -> Result<(), VersioningError> {
        let steps = data.entry("steps".to_string()).or_insert(0);
        *steps = *steps * 10 + self.0;
        Ok(())
    }
}

fn migrate_default(vm: &mut VersionManager<String>, from: u32, to: u32, now: u64) -> Result<(), VersioningError> {
    let mut data = Data::new();
    vm.migrate(from, to, admin(), now, &mut data, DefaultMigrationHook)
}

#[test]
fn test_version_initialization_success() {
    let mut vm: VersionManager<String> = VersionManager::new();
    assert_eq!(vm.initialize(1, 10), Ok(()));
    assert_eq!(vm.current_version(), Ok(1));
    assert!(vm.is_initialized());
}

#[test]
fn test_version_initialization_multiple_times_fails() {
    let mut vm = fresh(1);
    assert_eq!(vm.initialize(1, 10), Err(VersioningError::AlreadyInitialized));
    assert_eq!(vm.initialize(5, 10), Err(VersioningError::AlreadyInitialized));
    assert_eq!(vm.current_version(), Ok(1));
}

#[test]
fn test_version_zero_initialization_fails() {
    let mut vm: VersionManager<String> = VersionManager::new();
    assert_eq!(vm.initialize(0, 10), Err(VersioningError::InvalidVersionNumber));
    assert_eq!(vm.current_version(), Err(VersioningError::NotInitialized));
}

#[test]
fn test_version_with_custom_number() {
    let vm = fresh(7);
    assert_eq!(vm.current_version(), Ok(7));
}

#[test]
fn test_current_version_returns_correct_value() {
    let vm = fresh(1);
    assert_eq!(vm.current_version(), Ok(1));
}

#[test]
fn test_version_info_structure() {
    let vm = fresh(1);
    assert_eq!(
        vm.version_info(),
        Ok(VersionInfo {
            current_version: 1,
            migration_count: 0,
            last_migration_time: 1_000,
            migration_state: 0,
        })
    );
}

#[test]
fn test_version_history_initially_empty() {
    let vm = fresh(1);
    assert_eq!(vm.version_history().unwrap().len(), 0);
}

#[test]
fn test_version_info_uninitialized_fails() {
    let vm: VersionManager<String> = VersionManager::new();
    assert_eq!(vm.version_info(), Err(VersioningError::NotInitialized));
    assert_eq!(vm.version_history().err(), Some(VersioningError::NotInitialized));
}

#[test]
fn test_ensure_compatible_same_version() {
    let vm = fresh(1);
    assert_eq!(vm.ensure_compatible(1), Ok(()));
}

#[test]
fn test_ensure_compatible_different_version() {
    let vm = fresh(1);
    assert_eq!(vm.ensure_compatible(2), Err(VersioningError::VersionMismatch));
}

#[test]
fn test_ensure_compatible_during_migration() {
    let vm: VersionManager<String> =
        VersionManager::restore(Some(1), Vec::new(), MigrationState::InProgress, 0);
    assert_eq!(vm.ensure_compatible(1), Err(VersioningError::MigrationInProgress));
}

#[test]
fn test_ensure_compatible_after_migration_complete() {
    let mut vm = fresh(1);
    migrate_default(&mut vm, 1, 2, 2_000).unwrap();
    assert_eq!(vm.migration_state(), MigrationState::Complete);
    assert_eq!(vm.ensure_compatible(2), Ok(()));
}

#[test]
fn test_ensure_compatible_rollback_state() {
    let vm: VersionManager<String> =
        VersionManager::restore(Some(1), Vec::new(), MigrationState::RollbackRequired, 0);
    assert_eq!(vm.ensure_compatible(1), Err(VersioningError::RollbackFailed));
}

#[test]
fn test_simple_migration_v1_to_v2() {
    let mut vm = fresh(1);
    assert_eq!(migrate_default(&mut vm, 1, 2, 2_000), Ok(()));
    assert_eq!(vm.current_version(), Ok(2));
    assert_eq!(vm.migration_state(), MigrationState::Complete);
    assert_eq!(vm.version_history().unwrap().len(), 1);
}

#[test]
fn test_migration_v1_to_v3() {
    let mut vm = fresh(1);
    assert_eq!(migrate_default(&mut vm, 1, 3, 2_000), Ok(()));
    assert_eq!(vm.current_version(), Ok(3));
}

#[test]
fn test_migration_sequential_v1_to_v2_to_v3() {
    let mut vm = fresh(1);
    migrate_default(&mut vm, 1, 2, 2_000).unwrap();
    migrate_default(&mut vm, 2, 3, 3_000).unwrap();
    assert_eq!(vm.current_version(), Ok(3));
    assert_eq!(vm.version_history().unwrap().len(), 2);
}

#[test]
fn test_migration_invalid_downgrade() {
    let mut vm = fresh(2);
    assert_eq!(migrate_default(&mut vm, 2, 1, 2_000), Err(VersioningError::InvalidVersionNumber));
    assert_eq!(vm.current_version(), Ok(2));
    assert_eq!(vm.migration_state(), MigrationState::Idle);
}

#[test]
fn test_migration_same_version() {
    let mut vm = fresh(2);
    assert_eq!(migrate_default(&mut vm, 2, 2, 2_000), Err(VersioningError::InvalidVersionNumber));
    assert_eq!(vm.current_version(), Ok(2));
}

#[test]
fn test_migration_with_custom_hook() {
    let mut vm = fresh(1);
    let mut data = Data::new();
    data.insert("balance".to_string(), 5);
    assert_eq!(vm.migrate(1, 2, admin(), 2_000, &mut data, CentsHook), Ok(()));
    assert_eq!(data.get("balance_v2"), Some(&500));
    assert_eq!(vm.current_version(), Ok(2));
}

#[test]
fn test_migration_hook_failure() {
    let mut vm = fresh(1);
    let mut data = Data::new();
    let r = vm.migrate(1, 2, admin(), 2_000, &mut data, FailingHook(VersioningError::MigrationHookFailed));
    assert_eq!(r, Err(VersioningError::MigrationHookFailed));
    assert_eq!(vm.current_version(), Ok(1));
    assert_eq!(vm.migration_state(), MigrationState::RollbackRequired);
    assert_eq!(vm.version_history().unwrap().len(), 0);
}

#[test]
fn test_migration_state_transitions() {
    let mut vm = fresh(1);
    assert_eq!(vm.migration_state(), MigrationState::Idle);
    assert_eq!(vm.begin_migration(1, 2), Ok(()));
    assert_eq!(vm.migration_state(), MigrationState::InProgress);
    assert_eq!(vm.complete_migration(1, 2, admin(), 2_000, Ok(())), Ok(()));
    assert_eq!(vm.migration_state(), MigrationState::Complete);
    assert_eq!(vm.current_version(), Ok(2));
}

#[test]
fn test_migration_prevents_execution_during_upgrade() {
    let mut vm = fresh(1);
    vm.begin_migration(1, 2).unwrap();
    assert_eq!(vm.ensure_compatible(1), Err(VersioningError::MigrationInProgress));
    assert_eq!(vm.ensure_compatible(2), Err(VersioningError::MigrationInProgress));
}

#[test]
fn test_migration_history_records_transition() {
    let mut vm = fresh(1);
    migrate_default(&mut vm, 1, 2, 2_000).unwrap();
    let entry = &vm.version_history().unwrap()[0];
    assert_eq!(entry.from_version, 1);
    assert_eq!(entry.to_version, 2);
    assert_eq!(entry.migration_timestamp, 2_000);
    assert_eq!(entry.migrated_by, admin());
    assert!(entry.success);
    assert_eq!(entry.message, "Migration successful");
}

#[test]
fn test_migration_history_chronological_order() {
    let mut vm = fresh(1);
    migrate_default(&mut vm, 1, 2, 2_000).unwrap();
    migrate_default(&mut vm, 2, 3, 3_000).unwrap();
    migrate_default(&mut vm, 3, 4, 4_000).unwrap();
    let history = vm.version_history().unwrap();
    let froms: Vec<u32> = history.iter().map(|t| t.from_version).collect();
    assert_eq!(froms, vec![3, 2, 1]);
}

#[test]
fn test_migration_history_preserves_metadata() {
    let mut vm = fresh(1);
    let mut data = Data::new();
    vm.migrate(1, 2, "GFIRST".to_string(), 2_000, &mut data, DefaultMigrationHook).unwrap();
    vm.migrate(2, 3, "GSECOND".to_string(), 3_000, &mut data, DefaultMigrationHook).unwrap();
    let history = vm.version_history().unwrap();
    assert_eq!(history[0].migrated_by, "GSECOND");
    assert_eq!(history[0].migration_timestamp, 3_000);
    assert_eq!(history[1].migrated_by, "GFIRST");
    assert_eq!(history[1].migration_timestamp, 2_000);
}

#[test]
fn test_migration_history_max_size() {
    let mut vm = fresh(1);
    for v in 1..=101u32 {
        migrate_default(&mut vm, v, v + 1, 1_000 + v as u64).unwrap();
    }
    assert_eq!(vm.current_version(), Ok(102));
    let history = vm.version_history().unwrap();
    assert_eq!(history.len(), MAX_VERSION_HISTORY);
    assert_eq!(history[0].from_version, 101);
    assert_eq!(history[0].to_version, 102);
    assert_eq!(history[99].from_version, 2);
    assert!(history.iter().all(|t| t.from_version != 1));
}

#[test]
fn test_last_migration_time_updates() {
    let mut vm = fresh(1);
    assert_eq!(vm.last_migration_time(), 1_000);
    migrate_default(&mut vm, 1, 2, 2_000).unwrap();
    assert_eq!(vm.last_migration_time(), 2_000);
    migrate_default(&mut vm, 2, 3, 3_500).unwrap();
    assert_eq!(vm.version_info().unwrap().last_migration_time, 3_500);
}

#[test]
fn test_migration_requires_authorization() {
    let mut vm = fresh(1);
    let mut data = Data::new();
    let r = UpgradeableContract::upgrade(&mut vm, 1, 2, admin(), false, 2_000, &mut data, DefaultMigrationHook);
    assert_eq!(r, Err(VersioningError::UnauthorizedUpgrade));
    assert_eq!(vm.current_version(), Ok(1));
    assert_eq!(vm.migration_state(), MigrationState::Idle);
}

#[test]
fn test_migration_records_migrator_address() {
    let mut vm = fresh(1);
    let mut data = Data::new();
    vm.migrate(1, 2, "GMIGRATOR".to_string(), 2_000, &mut data, DefaultMigrationHook).unwrap();
    assert_eq!(vm.version_history().unwrap()[0].migrated_by, "GMIGRATOR");
}

#[test]
fn test_reset_migration_state_admin_only() {
    let mut vm: VersionManager<String> =
        VersionManager::restore(Some(1), Vec::new(), MigrationState::RollbackRequired, 0);
    assert_eq!(vm.reset_migration_state(false), Err(VersioningError::UnauthorizedUpgrade));
    assert_eq!(vm.migration_state(), MigrationState::RollbackRequired);
}

#[test]
fn test_reset_migration_state_succeeds_for_admin() {
    let mut vm: VersionManager<String> =
        VersionManager::restore(Some(1), Vec::new(), MigrationState::RollbackRequired, 0);
    assert_eq!(vm.reset_migration_state(true), Ok(()));
    assert_eq!(vm.migration_state(), MigrationState::Idle);
}

#[test]
fn test_error_not_initialized() {
    let vm: VersionManager<String> = VersionManager::new();
    assert_eq!(vm.current_version(), Err(VersioningError::NotInitialized));
    assert_eq!(vm.ensure_compatible(1), Err(VersioningError::NotInitialized));
}

#[test]
fn test_error_version_mismatch() {
    let mut vm = fresh(1);
    assert_eq!(vm.ensure_compatible(3), Err(VersioningError::VersionMismatch));
    assert_eq!(migrate_default(&mut vm, 2, 3, 2_000), Err(VersioningError::VersionMismatch));
}

#[test]
fn test_error_migration_in_progress() {
    let mut vm: VersionManager<String> =
        VersionManager::restore(Some(1), Vec::new(), MigrationState::InProgress, 0);
    assert_eq!(migrate_default(&mut vm, 1, 2, 2_000), Err(VersioningError::MigrationInProgress));
    assert_eq!(vm.current_version(), Ok(1));
    assert_eq!(vm.migration_state(), MigrationState::InProgress);
}

#[test]
fn test_error_invalid_version_number() {
    let mut vm = fresh(3);
    assert_eq!(migrate_default(&mut vm, 3, 2, 2_000), Err(VersioningError::InvalidVersionNumber));
}

#[test]
fn test_error_migration_hook_failed() {
    let mut vm = fresh(1);
    let mut data = Data::new();
    let r = vm.migrate(1, 2, admin(), 2_000, &mut data, FailingHook(VersioningError::MigrationHookFailed));
    assert_eq!(r, Err(VersioningError::MigrationHookFailed));
}

#[test]
fn test_multi_contract_deployment_scenario() {
    let mut treasury: VersionManager<String> = VersionManager::new();
    let mut policy: VersionManager<String> = VersionManager::new();
    let mut claims: VersionManager<String> = VersionManager::new();
    assert_eq!(UpgradeableContract::initialize(&mut treasury, 10), Ok(()));
    assert_eq!(UpgradeableContract::initialize(&mut policy, 10), Ok(()));
    assert_eq!(UpgradeableContract::initialize(&mut claims, 10), Ok(()));
    for vm in [&treasury, &policy, &claims] {
        assert_eq!(UpgradeableContract::current_version(vm), Ok(1));
    }
}

#[test]
fn test_coordinated_upgrade_scenario() {
    let mut contracts: Vec<VersionManager<String>> = (0..3).map(|_| fresh(1)).collect();
    let mut data = Data::new();
    for vm in contracts.iter_mut() {
        let r = UpgradeableContract::upgrade(vm, 1, 2, admin(), true, 2_000, &mut data, DefaultMigrationHook);
        assert_eq!(r, Ok(()));
    }
    for vm in &contracts {
        assert_eq!(vm.current_version(), Ok(2));
        assert_eq!(vm.version_history().unwrap().len(), 1);
    }
}

#[test]
fn test_partial_upgrade_rollback_scenario() {
    let mut treasury = fresh(1);
    let mut policy = fresh(1);
    let mut data = Data::new();
    assert_eq!(treasury.migrate(1, 2, admin(), 2_000, &mut data, DefaultMigrationHook), Ok(()));
    assert_eq!(
        policy.migrate(1, 2, admin(), 2_000, &mut data, FailingHook(VersioningError::MigrationHookFailed)),
        Err(VersioningError::MigrationHookFailed)
    );
    assert_eq!(treasury.current_version(), Ok(2));
    assert_eq!(policy.current_version(), Ok(1));
    assert_eq!(treasury.version_history().unwrap().len(), 1);
    assert_eq!(policy.version_history().unwrap().len(), 0);
    assert_eq!(policy.migration_state(), MigrationState::RollbackRequired);
}

#[test]
fn test_data_migration_scenario() {
    let mut vm = fresh(1);
    let mut data = Data::new();
    data.insert("balance".to_string(), 42);
    assert_eq!(vm.migrate(1, 2, admin(), 2_000, &mut data, CentsHook), Ok(()));
    assert_eq!(data.get("balance"), None);
    assert_eq!(data.get("balance_v2"), Some(&4_200));
    assert_eq!(vm.ensure_compatible(2), Ok(()));
}

#[test]
fn test_upgradeable_contract_initialize() {
    let mut vm: VersionManager<String> = VersionManager::new();
    assert_eq!(UpgradeableContract::initialize(&mut vm, 10), Ok(()));
    assert_eq!(UpgradeableContract::current_version(&vm), Ok(1));
    assert_eq!(UpgradeableContract::initialize(&mut vm, 10), Err(VersioningError::AlreadyInitialized));
}

#[test]
fn test_upgradeable_contract_version_check() {
    let mut vm: VersionManager<String> = VersionManager::new();
    UpgradeableContract::initialize_with_version(&mut vm, 4, 10).unwrap();
    assert_eq!(UpgradeableContract::ensure_version_compatible(&vm, 4), Ok(()));
    assert_eq!(
        UpgradeableContract::ensure_version_compatible(&vm, 1),
        Err(VersioningError::VersionMismatch)
    );
}

#[test]
fn test_upgradeable_contract_upgrade() {
    let mut vm: VersionManager<String> = VersionManager::new();
    UpgradeableContract::initialize(&mut vm, 10).unwrap();
    let mut data = Data::new();
    data.insert("balance".to_string(), 3);
    let r = UpgradeableContract::upgrade(&mut vm, 1, 2, admin(), true, 2_000, &mut data, CentsHook);
    assert_eq!(r, Ok(()));
    assert_eq!(data.get("balance_v2"), Some(&300));
    assert_eq!(UpgradeableContract::current_version(&vm), Ok(2));
    assert_eq!(UpgradeableContract::version_history(&vm).unwrap().len(), 1);
    assert_eq!(UpgradeableContract::version_info(&vm).unwrap().migration_state, 2);
}

#[test]
fn test_migration_state_to_u32() {
    assert_eq!(migration_state_to_u32(MigrationState::Idle), 0);
    assert_eq!(migration_state_to_u32(MigrationState::InProgress), 1);
    assert_eq!(migration_state_to_u32(MigrationState::Complete), 2);
    assert_eq!(migration_state_to_u32(MigrationState::RollbackRequired), 3);
}

#[test]
fn test_u32_to_migration_state() {
    assert_eq!(u32_to_migration_state(0).unwrap(), MigrationState::Idle);
    assert_eq!(u32_to_migration_state(1).unwrap(), MigrationState::InProgress);
    assert_eq!(u32_to_migration_state(2).unwrap(), MigrationState::Complete);
    assert_eq!(u32_to_migration_state(3).unwrap(), MigrationState::RollbackRequired);
}

#[test]
fn test_u32_to_migration_state_invalid() {
    assert!(u32_to_migration_state(99).is_err());
    assert_eq!(u32_to_migration_state(4), Err(VersioningError::InvalidVersionNumber));
}

#[test]
fn test_version_storage_doesnt_conflict_with_app_data() {
    let mut data = Data::new();
    data.insert("VERSION".to_string(), 77);
    let mut vm: VersionManager<String> = VersionManager::new();
    vm.initialize(1, 10).unwrap();
    vm.migrate(1, 2, admin(), 20, &mut data, DefaultMigrationHook).unwrap();
    assert_eq!(data.get("VERSION"), Some(&77));
    assert_eq!(data.len(), 1);
    assert_eq!(vm.current_version(), Ok(2));
}

#[test]
fn test_migrate_hook_can_access_old_and_new_storage() {
    let mut vm = fresh(1);
    let mut data = Data::new();
    data.insert("balance".to_string(), 9);
    data.insert("owner_id".to_string(), 12);
    vm.migrate(1, 2, admin(), 2_000, &mut data, CentsHook).unwrap();
    assert_eq!(data.get("owner_id"), Some(&12));
    assert_eq!(data.get("balance_v2"), Some(&900));
}

#[test]
fn test_doc_example_simple_initialization() {
    let mut vm: VersionManager<String> = VersionManager::new();
    vm.initialize(1, 0).unwrap();
    assert_eq!(vm.current_version(), Ok(1));
}

#[test]
fn test_doc_example_version_check() {
    let vm = fresh(1);
    assert_eq!(vm.ensure_compatible(1), Ok(()));
}

#[test]
fn test_doc_example_execute_migration() {
    let mut vm = fresh(1);
    let mut data = Data::new();
    assert_eq!(vm.migrate(1, 2, admin(), 2_000, &mut data, DefaultMigrationHook), Ok(()));
    assert_eq!(vm.current_version(), Ok(2));
}

#[test]
fn test_default_migration_hook() {
    let mut data = Data::new();
    data.insert("k".to_string(), 1);
    let before = data.clone();
    assert_eq!(default_migration_hook(&mut data), Ok(()));
    assert_eq!(data, before);
    assert_eq!(DefaultMigrationHook.run(&mut data), Ok(()));
    assert_eq!(data, before);
}

#[test]
fn test_migration_state_conversions() {
    assert_eq!(migration_state_to_u32(MigrationState::Idle), 0);
    assert_eq!(migration_state_to_u32(MigrationState::InProgress), 1);
    assert_eq!(migration_state_to_u32(MigrationState::Complete), 2);
    assert_eq!(migration_state_to_u32(MigrationState::RollbackRequired), 3);

    assert_eq!(u32_to_migration_state(0).unwrap(), MigrationState::Idle);
    assert_eq!(u32_to_migration_state(1).unwrap(), MigrationState::InProgress);
    assert_eq!(u32_to_migration_state(2).unwrap(), MigrationState::Complete);
    assert_eq!(u32_to_migration_state(3).unwrap(), MigrationState::RollbackRequired);
}

#[test]
fn composed_no_op_hooks_succeed() {
    let mut data = Data::new();
    data.insert("k".to_string(), 4);
    let hook = compose_hooks(DefaultMigrationHook, logged_migration_hook("noop"));
    assert_eq!(hook.run(&mut data), Ok(()));
    assert_eq!(data.get("k"), Some(&4));
    assert_eq!(data.len(), 1);
}

#[test]
fn composed_hook_error_freezes_migration() {
    let mut vm = fresh(1);
    let mut data = Data::new();
    let hook = compose_hooks(StepHook(1), FailingHook(VersioningError::SchemaValidationFailed));
    let r = vm.migrate(1, 2, admin(), 2_000, &mut data, hook);
    assert_eq!(r, Err(VersioningError::SchemaValidationFailed));
    assert_eq!(data.get("steps"), Some(&1));
    assert_eq!(vm.migration_state(), MigrationState::RollbackRequired);
    assert_eq!(vm.current_version(), Ok(1));
}

#[test]
fn logged_hook_keeps_description_and_data() {
    let hook = logged_migration_hook("rename keys");
    assert_eq!(hook.description, "rename keys");
    let mut data = Data::new();
    data.insert("a".to_string(), 1);
    assert_eq!(hook.run(&mut data), Ok(()));
    assert_eq!(data.get("a"), Some(&1));
}

#[test]
fn composed_hooks_run_in_order() {
    let mut vm = fresh(1);
    let mut data = Data::new();
    let hook = compose_hooks(StepHook(1), StepHook(2));
    assert_eq!(vm.migrate(1, 2, admin(), 2_000, &mut data, hook), Ok(()));
    assert_eq!(data.get("steps"), Some(&12));
}

#[test]
fn composed_hooks_stop_at_first_error() {
    let mut data = Data::new();
    let hook = compose_hooks(FailingHook(VersioningError::SchemaValidationFailed), StepHook(2));
    assert_eq!(hook.run(&mut data), Err(VersioningError::SchemaValidationFailed));
    assert_eq!(data.get("steps"), None);
    let hook = compose_hooks(StepHook(1), FailingHook(VersioningError::MigrationFailed));
    assert_eq!(hook.run(&mut data), Err(VersioningError::MigrationFailed));
    assert_eq!(data.get("steps"), Some(&1));
}

#[test]
fn scenario_initialize_migrate_then_stale_migrate() {
    let mut vm: VersionManager<String> = VersionManager::new();
    vm.initialize(1, 100).unwrap();
    assert_eq!(vm.current_version(), Ok(1));
    assert_eq!(vm.version_history().unwrap().len(), 0);
    assert_eq!(migrate_default(&mut vm, 1, 2, 200), Ok(()));
    assert_eq!(vm.current_version(), Ok(2));
    let history = vm.version_history().unwrap();
    assert_eq!(history.len(), 1);
    assert_eq!((history[0].from_version, history[0].to_version, history[0].success), (1, 2, true));
    assert_eq!(migrate_default(&mut vm, 1, 2, 300), Err(VersioningError::VersionMismatch));
}

#[test]
fn scenario_failed_hook_freezes_contract() {
    let mut vm: VersionManager<String> = VersionManager::new();
    vm.initialize(1, 100).unwrap();
    let mut data = Data::new();
    let r = vm.migrate(1, 2, admin(), 200, &mut data, FailingHook(VersioningError::MigrationHookFailed));
    assert_eq!(r, Err(VersioningError::MigrationHookFailed));
    assert_eq!(vm.current_version(), Ok(1));
    assert_eq!(vm.ensure_compatible(1), Err(VersioningError::RollbackFailed));
}

#[test]
fn failed_hook_leaves_version_and_history() {
    let mut vm = fresh(1);
    migrate_default(&mut vm, 1, 2, 2_000).unwrap();
    let mut data = Data::new();
    let r = vm.migrate(2, 3, admin(), 3_000, &mut data, FailingHook(VersioningError::SchemaValidationFailed));
    assert_eq!(r, Err(VersioningError::SchemaValidationFailed));
    assert_eq!(vm.current_version(), Ok(2));
    assert_eq!(vm.version_history().unwrap().len(), 1);
    assert_eq!(vm.last_migration_time(), 2_000);
    assert_eq!(vm.ensure_compatible(2), Err(VersioningError::RollbackFailed));
    assert_eq!(migrate_default(&mut vm, 2, 3, 4_000).is_ok(), true);
}

#[test]
fn repeated_compatibility_checks_do_not_change_state() {
    let mut vm = fresh(5);
    migrate_default(&mut vm, 5, 6, 2_000).unwrap();
    let info = vm.version_info();
    for _ in 0..10 {
        assert_eq!(vm.ensure_compatible(6), Ok(()));
    }
    assert_eq!(vm.version_info(), info);
}

#[test]
fn reset_clears_freeze_and_keeps_version() {
    let mut vm = fresh(1);
    let mut data = Data::new();
    let _ = vm.migrate(1, 2, admin(), 2_000, &mut data, FailingHook(VersioningError::MigrationHookFailed));
    assert_eq!(vm.ensure_compatible(1), Err(VersioningError::RollbackFailed));
    assert_eq!(UpgradeableContract::reset_migration_state(&mut vm, true), Ok(()));
    assert_eq!(vm.current_version(), Ok(1));
    assert_eq!(vm.ensure_compatible(1), Ok(()));
}

#[test]
fn versions_strictly_increase_over_migrations() {
    let mut vm = fresh(1);
    let mut last = 1;
    for (from, to) in [(1u32, 3u32), (3, 4), (4, 10)] {
        assert_eq!(migrate_default(&mut vm, from, to, 0), Ok(()));
        let now = vm.current_version().unwrap();
        assert!(now > last);
        last = now;
    }
    assert_eq!(migrate_default(&mut vm, 10, 9, 0), Err(VersioningError::InvalidVersionNumber));
}

#[test]
fn in_progress_blocks_every_migration_request() {
    let mut vm: VersionManager<String> =
        VersionManager::restore(Some(3), Vec::new(), MigrationState::InProgress, 0);
    assert_eq!(migrate_default(&mut vm, 3, 4, 0), Err(VersioningError::MigrationInProgress));
    assert_eq!(migrate_default(&mut vm, 2, 4, 0), Err(VersioningError::VersionMismatch));
    assert_eq!(vm.begin_migration(3, 4), Err(VersioningError::MigrationInProgress));
}

#[test]
fn complete_state_allows_next_migration() {
    let mut vm = fresh(1);
    migrate_default(&mut vm, 1, 2, 0).unwrap();
    assert_eq!(vm.migration_state(), MigrationState::Complete);
    assert_eq!(migrate_default(&mut vm, 2, 3, 0), Ok(()));
}

#[test]
fn migrate_on_uninitialized_record_fails() {
    let mut vm: VersionManager<String> = VersionManager::new();
    assert_eq!(migrate_default(&mut vm, 1, 2, 0), Err(VersioningError::NotInitialized));
}
