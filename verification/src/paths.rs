//! Resolving the two configuration file locations from the user-editable
//! per-OS mapping: section lookup, placeholder substitution, and joining
//! with the home directory.

use vstd::prelude::*;
use crate::chars::matches_at;
use crate::platform::OsKind;

verus! {

/// The two path fields of one operating system's section; a missing field
/// is `None`.
pub struct OsPaths {
    pub storage_path: Option<String>,
    pub state_path: Option<String>,
}

/// The per-OS mapping read from the path configuration file; a missing
/// section is `None`.
pub struct PathTable {
    pub windows: Option<OsPaths>,
    pub macos: Option<OsPaths>,
    pub linux: Option<OsPaths>,
}

/// Why no configuration file locations could be resolved.
#[derive(Clone, Copy, PartialEq, Eq, Structural, Debug)]
pub enum ConfigError {
    /// The running operating system is none of the supported three.
    UnsupportedOs,
    /// The mapping has no section for the running operating system.
    MissingOsSection,
    /// The section has no `storage_path` field.
    MissingStoragePath,
    /// The section has no `state_path` field.
    MissingStatePath,
}

/// The section of the mapping for one operating system.
pub open spec fn section_of(t: PathTable, os: OsKind) -> Option<OsPaths> {
    match os {
        OsKind::Windows => t.windows,
        OsKind::Macos => t.macos,
        OsKind::Linux => t.linux,
        OsKind::Other => None,
    }
}

/// Every occurrence of `pat` in `s` replaced by `rep`, leftmost first and
/// without overlap, as str::replace does it.
pub open spec fn replace_all(s: Seq<char>, pat: Seq<char>, rep: Seq<char>) -> Seq<char>
    decreases s.len(),
    when pat.len() >= 1
{
    if s.len() < pat.len() {
        s
    } else if s.subrange(0, pat.len() as int) == pat {
        rep + replace_all(s.skip(pat.len() as int), pat, rep)
    } else {
        seq![s[0]] + replace_all(s.skip(1), pat, rep)
    }
}

/// Replaces every occurrence of `pat` in `s` by `rep`.
pub fn replace_all_str(s: &str, pat: &str, rep: &str) -> (r: String)
    requires
        pat@.len() >= 1,
    ensures
        r@ == replace_all(s@, pat@, rep@),
{
    let n = s.unicode_len();
    let plen = pat.unicode_len();
    let mut out = String::new();
    let mut i: usize = 0;
    proof {
        assert(s@.skip(0) =~= s@);
        assert(out@ + replace_all(s@, pat@, rep@) =~= replace_all(s@, pat@, rep@));
    }
    while i < n
        invariant
            0 <= i <= n,
            n == s@.len(),
            plen == pat@.len(),
            plen >= 1,
            replace_all(s@, pat@, rep@) == out@ + replace_all(s@.skip(i as int), pat@, rep@),
        decreases n - i,
    {
        let ghost rest = s@.skip(i as int);
        if plen <= n - i && matches_at(s, i, pat) {
            proof {
                assert(rest.subrange(0, plen as int) =~= s@.subrange(i as int, i + plen));
                assert(rest.skip(plen as int) =~= s@.skip(i + plen));
                assert(replace_all(rest, pat@, rep@) == rep@ + replace_all(
                    s@.skip(i + plen),
                    pat@,
                    rep@,
                ));
            }
            out.append(rep);
            i = i + plen;
        } else {
            proof {
                assert(rest.skip(1) =~= s@.skip(i + 1));
                if rest.len() >= plen {
                    assert(rest.subrange(0, plen as int) =~= s@.subrange(i as int, i + plen));
                    assert(rest.subrange(0, plen as int) != pat@);
                    assert(replace_all(rest, pat@, rep@) == seq![s@[i as int]] + replace_all(
                        s@.skip(i + 1),
                        pat@,
                        rep@,
                    ));
                } else {
                    assert(replace_all(rest, pat@, rep@) =~= rest);
                    assert(replace_all(s@.skip(i + 1), pat@, rep@) =~= s@.skip(i + 1));
                    assert(rest =~= seq![s@[i as int]] + s@.skip(i + 1));
                }
            }
            out.append(s.substring_char(i, i + 1));
            i = i + 1;
        }
    }
    proof {
        assert(s@.skip(i as int) =~= Seq::<char>::empty());
        assert(replace_all(s@.skip(i as int), pat@, rep@) =~= Seq::<char>::empty());
        assert(out@ =~= out@ + Seq::<char>::empty());
    }
    out
}

/// The roaming application-data directory the Windows placeholder stands
/// for.
pub open spec fn windows_appdata(home: Seq<char>) -> Seq<char> {
    home + "\\AppData\\Roaming"@
}

/// A configured path made absolute: on Windows the `%APPDATA%` placeholder
/// is substituted and the path then stands on its own; elsewhere the path
/// is joined under the home directory.
pub open spec fn spec_resolve_path(p: Seq<char>, os: OsKind, home: Seq<char>) -> Seq<char> {
    if os == OsKind::Windows {
        replace_all(p, "%APPDATA%"@, windows_appdata(home))
    } else {
        home + "/"@ + p
    }
}

fn resolve_path(p: &str, os: OsKind, home: &str) -> (r: String)
    ensures
        r@ == spec_resolve_path(p@, os, home@),
{
    match os {
        OsKind::Windows => {
            proof {
                reveal_strlit("%APPDATA%");
            }
            let mut appdata = String::from_str(home);
            appdata.append("\\AppData\\Roaming");
            replace_all_str(p, "%APPDATA%", appdata.as_str())
        },
        _ => {
            let mut s = String::from_str(home);
            s.append("/");
            s.append(p);
            s
        },
    }
}

/// The two resolved configuration file locations for the running operating
/// system: the section is looked up, both fields must be present, and each
/// is made absolute. The first returned path is the storage file, the
/// second the state file.
pub fn get_cursor_paths(table: &PathTable, os: OsKind, home: &str) -> (r: Result<
    (String, String),
    ConfigError,
>)
    ensures
        match r {
            Ok(paths) => {
                &&& os != OsKind::Other
                &&& section_of(*table, os) matches Some(sec)
                    && (sec.storage_path matches Some(sp) && paths.0@ == spec_resolve_path(
                    sp@,
                    os,
                    home@,
                )) && (sec.state_path matches Some(tp) && paths.1@ == spec_resolve_path(
                    tp@,
                    os,
                    home@,
                ))
            },
            Err(ConfigError::UnsupportedOs) => os == OsKind::Other,
            Err(ConfigError::MissingOsSection) => os != OsKind::Other && section_of(*table, os)
                is None,
            Err(ConfigError::MissingStoragePath) => section_of(*table, os) matches Some(sec)
                && sec.storage_path is None,
            Err(ConfigError::MissingStatePath) => section_of(*table, os) matches Some(sec)
                && sec.storage_path is Some && sec.state_path is None,
        },
{
    let section = match os {
        OsKind::Windows => &table.windows,
        OsKind::Macos => &table.macos,
        OsKind::Linux => &table.linux,
        OsKind::Other => {
            return Err(ConfigError::UnsupportedOs);
        },
    };
    let sec = match section {
        Some(sec) => sec,
        None => {
            return Err(ConfigError::MissingOsSection);
        },
    };
    let storage_raw = match &sec.storage_path {
        Some(p) => p,
        None => {
            return Err(ConfigError::MissingStoragePath);
        },
    };
    let state_raw = match &sec.state_path {
        Some(p) => p,
        None => {
            return Err(ConfigError::MissingStatePath);
        },
    };
    let storage = resolve_path(storage_raw.as_str(), os, home);
    let state = resolve_path(state_raw.as_str(), os, home);
    Ok((storage, state))
}

/// The default mapping materialized on first use when no configuration
/// file exists yet.
pub fn default_path_table() -> (r: PathTable)
    ensures
        r.windows matches Some(w) && (w.storage_path matches Some(p) && p@
            == "%APPDATA%\\Cursor\\User\\globalStorage\\storage.json"@) && (w.state_path
            matches Some(p) && p@ == "%APPDATA%\\Cursor\\User\\globalStorage\\state.json"@),
        r.macos matches Some(m) && (m.storage_path matches Some(p) && p@
            == "Library/Application Support/Cursor/User/globalStorage/storage.json"@) && (
        m.state_path matches Some(p) && p@
            == "Library/Application Support/Cursor/User/globalStorage/state.json"@),
        r.linux matches Some(l) && (l.storage_path matches Some(p) && p@
            == ".config/Cursor/User/globalStorage/storage.json"@) && (l.state_path matches Some(p)
            && p@ == ".config/Cursor/User/globalStorage/state.json"@),
{
    PathTable {
        windows: Some(
            OsPaths {
                storage_path: Some(
                    String::from_str("%APPDATA%\\Cursor\\User\\globalStorage\\storage.json"),
                ),
                state_path: Some(
                    String::from_str("%APPDATA%\\Cursor\\User\\globalStorage\\state.json"),
                ),
            },
        ),
        macos: Some(
            OsPaths {
                storage_path: Some(
                    String::from_str(
                        "Library/Application Support/Cursor/User/globalStorage/storage.json",
                    ),
                ),
                state_path: Some(
                    String::from_str(
                        "Library/Application Support/Cursor/User/globalStorage/state.json",
                    ),
                ),
            },
        ),
        linux: Some(
            OsPaths {
                storage_path: Some(
                    String::from_str(".config/Cursor/User/globalStorage/storage.json"),
                ),
                state_path: Some(String::from_str(".config/Cursor/User/globalStorage/state.json")),
            },
        ),
    }
}

/// The fixed backup directory under the user's home directory.
pub fn backup_dir_path(home: &str) -> (r: String)
    ensures
        r@ == home@ + "/.cursor_backup"@,
{
    let mut s = String::from_str(home);
    s.append("/.cursor_backup");
    s
}

} // verus!
