use cursor_reset::account::LoginStatus;
use cursor_reset::jsonconf::{update_config_files, UpdateError};
use cursor_reset::machine::{generate_identity_set, CursorMachine, ResetError, ResetPhase};
use cursor_reset::service::CursorService;
use cursor_reset::store::{BackupStore, ConfigContents};

fn hex16(s: &str) -> bool {
    s.len() == 16 && s.chars().all(|c| c.is_ascii_hexdigit() && !c.is_ascii_uppercase())
}

#[test]
fn successful_reset_writes_three_valid_identifiers() {
    let mut machine = CursorMachine::new();
    assert_eq!(machine.phase, ResetPhase::Idle);
    assert!(machine.on_privilege_check(true).is_ok());
    // A failed termination only warns; the attempt goes on.
    assert!(machine.on_terminate_attempt(false));
    machine.on_backup_done();
    let ids = machine.generate_ids();
    assert!(hex16(&ids.machine_id));
    assert!(hex16(&ids.device_id));
    assert!(hex16(&ids.mac_machine_id));
    machine.on_write_result(true);
    assert_eq!(machine.phase, ResetPhase::Written);

    let account = machine.finish("operator".to_string(), 20250101120000);
    assert_eq!(account.email, "operator");
    assert_eq!(account.machine_id, ids.machine_id);
    assert_eq!(account.device_id, ids.device_id);
    assert_eq!(account.mac_machine_id, ids.mac_machine_id);
    assert!(hex16(&account.machine_id));
    assert_eq!(account.access_token, "");
    assert_eq!(account.refresh_token, "");
    assert!(account.is_active);
    assert_eq!(account.login_status, LoginStatus::LoggedIn);
    assert_eq!(account.created_at_stamp, 20250101120000);
}

#[test]
fn missing_privileges_refuse_the_attempt() {
    let mut machine = CursorMachine::new();
    assert_eq!(
        machine.on_privilege_check(false),
        Err(ResetError::PermissionDenied)
    );
    assert_eq!(machine.phase, ResetPhase::Denied);
}

#[test]
fn failed_write_with_good_restore_is_rolled_back() {
    let mut machine = CursorMachine::new();
    machine.on_privilege_check(true).unwrap();
    machine.on_terminate_attempt(true);
    machine.on_backup_done();
    let _ids = machine.generate_ids();
    machine.on_write_result(false);
    assert_eq!(machine.on_restore_result(true), ResetError::RolledBack);
    assert_eq!(machine.phase, ResetPhase::RolledBack);
}

#[test]
fn failed_write_and_failed_restore_are_irrecoverable() {
    let mut machine = CursorMachine::new();
    machine.on_privilege_check(true).unwrap();
    machine.on_terminate_attempt(true);
    machine.on_backup_done();
    let _ids = machine.generate_ids();
    machine.on_write_result(false);
    assert_eq!(machine.on_restore_result(false), ResetError::Irrecoverable);
    assert_eq!(machine.phase, ResetPhase::Irrecoverable);
}

#[test]
fn identity_sets_are_independently_sampled() {
    let a = generate_identity_set();
    assert!(hex16(&a.machine_id));
    assert!(hex16(&a.device_id));
    assert!(hex16(&a.mac_machine_id));
}

#[test]
fn update_writes_keys_into_absent_files() {
    let ids = generate_identity_set();
    let (storage, state, state_written) = update_config_files(&None, &None, &ids).unwrap();
    assert!(state_written);

    let s: serde_json::Value = serde_json::from_str(&storage).unwrap();
    assert_eq!(s["telemetryMachineId"].as_str().unwrap(), ids.machine_id);
    assert_eq!(s["telemetryDevDeviceId"].as_str().unwrap(), ids.device_id);
    assert_eq!(
        s["telemetryMacMachineId"].as_str().unwrap(),
        ids.mac_machine_id
    );

    let t: serde_json::Value = serde_json::from_str(&state).unwrap();
    assert_eq!(t["machineId"].as_str().unwrap(), ids.machine_id);
    assert_eq!(t["deviceId"].as_str().unwrap(), ids.device_id);
    assert_eq!(t["macMachineId"].as_str().unwrap(), ids.mac_machine_id);
}

#[test]
fn update_preserves_unrelated_keys() {
    let ids = generate_identity_set();
    let storage_before = "{\"keepMe\": 7, \"telemetryMachineId\": \"old\"}".to_string();
    let state_before = "{\"other\": [1, 2]}".to_string();
    let (storage, state, state_written) =
        update_config_files(&Some(storage_before), &Some(state_before), &ids).unwrap();
    assert!(state_written);

    let s: serde_json::Value = serde_json::from_str(&storage).unwrap();
    assert_eq!(s["keepMe"].as_i64().unwrap(), 7);
    assert_eq!(s["telemetryMachineId"].as_str().unwrap(), ids.machine_id);

    let t: serde_json::Value = serde_json::from_str(&state).unwrap();
    assert_eq!(t["other"][1].as_i64().unwrap(), 2);
    assert_eq!(t["machineId"].as_str().unwrap(), ids.machine_id);
}

#[test]
fn update_refuses_broken_documents() {
    let ids = generate_identity_set();
    assert_eq!(
        update_config_files(&Some("not json".to_string()), &None, &ids),
        Err(UpdateError::StorageParse)
    );
    assert_eq!(
        update_config_files(&Some("[1, 2]".to_string()), &None, &ids),
        Err(UpdateError::StorageNotObject)
    );
    assert_eq!(
        update_config_files(&None, &Some("nor this".to_string()), &ids),
        Err(UpdateError::StateParse)
    );
}

#[test]
fn update_skips_a_non_object_state_root() {
    // The documented ambiguity: a state file whose root is not an object is
    // re-rendered unchanged, with no keys written.
    let ids = generate_identity_set();
    let (_, state, state_written) =
        update_config_files(&None, &Some("[1, 2]".to_string()), &ids).unwrap();
    assert!(!state_written);
    let t: serde_json::Value = serde_json::from_str(&state).unwrap();
    assert!(t.is_array());
    assert_eq!(t[0].as_i64().unwrap(), 1);
}

#[test]
fn service_restores_through_the_store() {
    let service = CursorService::new();
    let mut store = BackupStore::new();
    let live = ConfigContents {
        storage: Some(b"snapshot".to_vec()),
        state: None,
    };
    store.backup(&live, 20250101120000);
    let mut damaged = ConfigContents {
        storage: Some(b"garbage".to_vec()),
        state: None,
    };
    service.restore_backup(&store, &mut damaged);
    assert_eq!(damaged.storage, Some(b"snapshot".to_vec()));
    assert_eq!(damaged.state, None);
}
