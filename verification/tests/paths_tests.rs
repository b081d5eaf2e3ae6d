use cursor_reset::paths::{
    backup_dir_path, default_path_table, get_cursor_paths, replace_all_str, ConfigError, OsPaths,
    PathTable,
};
use cursor_reset::platform::{interpret_admin_check, terminate_command, trim_ascii, OsKind};

#[test]
fn linux_paths_join_under_home() {
    let table = default_path_table();
    let (storage, state) = get_cursor_paths(&table, OsKind::Linux, "/home/u").unwrap();
    assert_eq!(
        storage,
        "/home/u/.config/Cursor/User/globalStorage/storage.json"
    );
    assert_eq!(state, "/home/u/.config/Cursor/User/globalStorage/state.json");
}

#[test]
fn macos_paths_join_under_home() {
    let table = default_path_table();
    let (storage, _) = get_cursor_paths(&table, OsKind::Macos, "/Users/u").unwrap();
    assert_eq!(
        storage,
        "/Users/u/Library/Application Support/Cursor/User/globalStorage/storage.json"
    );
}

#[test]
fn windows_paths_substitute_the_placeholder() {
    let table = default_path_table();
    let (storage, state) = get_cursor_paths(&table, OsKind::Windows, "C:\\Users\\u").unwrap();
    assert_eq!(
        storage,
        "C:\\Users\\u\\AppData\\Roaming\\Cursor\\User\\globalStorage\\storage.json"
    );
    assert_eq!(
        state,
        "C:\\Users\\u\\AppData\\Roaming\\Cursor\\User\\globalStorage\\state.json"
    );
}

#[test]
fn resolution_errors_are_exact() {
    let table = default_path_table();
    assert_eq!(
        get_cursor_paths(&table, OsKind::Other, "/home/u"),
        Err(ConfigError::UnsupportedOs)
    );

    let empty = PathTable {
        windows: None,
        macos: None,
        linux: None,
    };
    assert_eq!(
        get_cursor_paths(&empty, OsKind::Linux, "/home/u"),
        Err(ConfigError::MissingOsSection)
    );

    let no_storage = PathTable {
        windows: None,
        macos: None,
        linux: Some(OsPaths {
            storage_path: None,
            state_path: Some("x".to_string()),
        }),
    };
    assert_eq!(
        get_cursor_paths(&no_storage, OsKind::Linux, "/home/u"),
        Err(ConfigError::MissingStoragePath)
    );

    let no_state = PathTable {
        windows: None,
        macos: None,
        linux: Some(OsPaths {
            storage_path: Some("x".to_string()),
            state_path: None,
        }),
    };
    assert_eq!(
        get_cursor_paths(&no_state, OsKind::Linux, "/home/u"),
        Err(ConfigError::MissingStatePath)
    );
}

#[test]
fn replace_all_handles_repeats_like_str_replace() {
    assert_eq!(replace_all_str("a%X%b%X%c", "%X%", "-"), "a-b-c");
    assert_eq!(replace_all_str("%X%%X%", "%X%", "y"), "yy");
    assert_eq!(replace_all_str("nothing here", "%X%", "y"), "nothing here");
    assert_eq!(replace_all_str("aaa", "aa", "b"), "ba");
    assert_eq!(
        replace_all_str("a%X%b", "%X%", "-"),
        "a%X%b".replace("%X%", "-")
    );
}

#[test]
fn backup_directory_sits_under_home() {
    assert_eq!(backup_dir_path("/home/u"), "/home/u/.cursor_backup");
}

#[test]
fn admin_output_reading_is_exact() {
    assert!(interpret_admin_check(OsKind::Windows, "True\r\n"));
    assert!(interpret_admin_check(OsKind::Windows, "  true "));
    assert!(!interpret_admin_check(OsKind::Windows, "False\r\n"));
    assert!(!interpret_admin_check(OsKind::Windows, ""));
    assert!(interpret_admin_check(OsKind::Linux, "0\n"));
    assert!(!interpret_admin_check(OsKind::Linux, "1000\n"));
    assert!(interpret_admin_check(OsKind::Macos, " 0 "));
    assert!(!interpret_admin_check(OsKind::Other, "0"));
}

#[test]
fn trimming_matches_std() {
    for s in ["  a b  ", "\r\nx\r\n", "", "   ", "no-ws"] {
        assert_eq!(trim_ascii(s), s.trim());
    }
}

#[test]
fn terminate_commands_per_system() {
    let (prog, args) = terminate_command(OsKind::Windows).unwrap();
    assert_eq!(prog, "taskkill");
    assert_eq!(args, vec!["/F", "/IM", "Cursor.exe"]);

    let (prog, args) = terminate_command(OsKind::Macos).unwrap();
    assert_eq!(prog, "pkill");
    assert_eq!(args, vec!["-9", "Cursor"]);

    let (prog, args) = terminate_command(OsKind::Linux).unwrap();
    assert_eq!(prog, "pkill");
    assert_eq!(args, vec!["-9", "cursor"]);

    assert!(terminate_command(OsKind::Other).is_none());
}
