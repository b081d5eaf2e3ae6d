use cursor_reset::store::{
    backup_file_name, parse_backup_name, BackupEntry, BackupStore, ConfigContents, FileKind,
};

fn contents(storage: Option<&str>, state: Option<&str>) -> ConfigContents {
    ConfigContents {
        storage: storage.map(|s| s.as_bytes().to_vec()),
        state: state.map(|s| s.as_bytes().to_vec()),
    }
}

#[test]
fn backup_then_restore_round_trip() {
    let live = contents(Some("{\"a\":1}"), Some("{\"b\":2}"));
    let mut store = BackupStore::new();
    store.backup(&live, 20250101120000);

    let mut after = contents(Some("{\"a\":1}"), Some("{\"b\":2}"));
    store.restore(&mut after);
    assert_eq!(after.storage, Some(b"{\"a\":1}".to_vec()));
    assert_eq!(after.state, Some(b"{\"b\":2}".to_vec()));
}

#[test]
fn restore_rolls_back_a_failed_mutation() {
    let live = contents(Some("original storage"), Some("original state"));
    let mut store = BackupStore::new();
    store.backup(&live, 20250101120000);

    // A failed rewrite left garbage behind; restore brings back the
    // pre-attempt contents of both files.
    let mut damaged = contents(Some("half-writ"), None);
    store.restore(&mut damaged);
    assert_eq!(damaged.storage, Some(b"original storage".to_vec()));
    assert_eq!(damaged.state, Some(b"original state".to_vec()));
}

#[test]
fn restore_from_empty_directory_is_a_no_op() {
    let store = BackupStore::new();
    let mut live = contents(Some("keep me"), None);
    store.restore(&mut live);
    assert_eq!(live.storage, Some(b"keep me".to_vec()));
    assert_eq!(live.state, None);
}

#[test]
fn restore_of_one_kind_leaves_the_other_alone() {
    // Only the storage file existed when the backup was taken; restoring
    // must not touch the state file and must not fail for it.
    let live = contents(Some("storage bytes"), None);
    let mut store = BackupStore::new();
    store.backup(&live, 20250102030405);

    let mut after = contents(Some("changed"), Some("untouched state"));
    store.restore(&mut after);
    assert_eq!(after.storage, Some(b"storage bytes".to_vec()));
    assert_eq!(after.state, Some(b"untouched state".to_vec()));
}

#[test]
fn restore_picks_the_most_recent_backup() {
    let mut store = BackupStore::new();
    store.backup(&contents(Some("older"), None), 20240101000000);
    store.backup(&contents(Some("newer"), None), 20250101000000);

    let mut live = contents(None, None);
    store.restore(&mut live);
    assert_eq!(live.storage, Some(b"newer".to_vec()));
    assert_eq!(live.state, None);
}

#[test]
fn missing_live_files_are_skipped_by_backup() {
    let mut store = BackupStore::new();
    store.backup(&contents(None, None), 20250101000000);
    assert_eq!(store.len(), 0);
    store.backup(&contents(None, Some("s")), 20250101000001);
    assert_eq!(store.len(), 1);
}

#[test]
fn backup_names_are_exact() {
    assert_eq!(
        backup_file_name(FileKind::Storage, 20250101120000),
        "storage_20250101_120000.json"
    );
    assert_eq!(
        backup_file_name(FileKind::State, 20231231235959),
        "state_20231231_235959.json"
    );
}

#[test]
fn backup_names_parse_back() {
    assert_eq!(
        parse_backup_name("storage_20250101_120000.json"),
        Some((FileKind::Storage, 20250101120000))
    );
    assert_eq!(
        parse_backup_name("state_20231231_235959.json"),
        Some((FileKind::State, 20231231235959))
    );
}

#[test]
fn name_order_follows_timestamp_order() {
    // Zero-padded fields make the lexicographic order of names the order
    // of their timestamps, so "max by name" picks the most recent backup.
    let older = backup_file_name(FileKind::Storage, 20240930235959);
    let newer = backup_file_name(FileKind::Storage, 20241001000000);
    assert!(older < newer);
    let older = backup_file_name(FileKind::State, 19991231235959);
    let newer = backup_file_name(FileKind::State, 20000101000000);
    assert!(older < newer);
}

#[test]
fn non_backup_names_are_refused() {
    assert_eq!(parse_backup_name("other.json"), None);
    assert_eq!(parse_backup_name("storage_2025.json"), None);
    assert_eq!(parse_backup_name("storage_20250101_120000.txt"), None);
    assert_eq!(parse_backup_name("state_20250101x120000.json"), None);
    assert_eq!(parse_backup_name("storage_2025010a_120000.json"), None);
    assert_eq!(parse_backup_name(""), None);
}

#[test]
fn entries_can_be_rebuilt_from_names() {
    // The surrounding program lists the backup directory and rebuilds the
    // store from each file's parsed name and bytes.
    let (kind, stamp) = parse_backup_name("storage_20250101_120000.json").unwrap();
    let mut store = BackupStore::new();
    store.push_entry(BackupEntry {
        kind,
        stamp,
        content: b"from disk".to_vec(),
    });
    let mut live = contents(None, None);
    store.restore(&mut live);
    assert_eq!(live.storage, Some(b"from disk".to_vec()));
}
