//! Guards on the directory paths that file operations may touch, and the
//! health report of the database file.

use vstd::prelude::*;
use vstd::string::*;
use crate::text::{contains, contains_text};

verus! {

/// The database file's name inside the application data directory.
pub const DB_FILENAME: &'static str = "orion.db";

/// The journal mode the database is expected to run in.
pub const EXPECTED_JOURNAL_MODE: &'static str = "wal";

/// The outcome of checking path `path` (described as `label`): it must lie
/// in the Orion tree (contain `Orion`) and hold no `..` sequence, checked in
/// that order.
pub open spec fn orion_path_outcome(path: Seq<char>, label: Seq<char>, r: Result<(), String>) -> bool {
    if !contains_text(path, "Orion"@) {
        r matches Err(e) && e@ == label + " path must be within the Orion directory: "@ + path
    } else if contains_text(path, ".."@) {
        r matches Err(e) && e@ == label + " path contains invalid traversal sequence: "@ + path
    } else {
        r is Ok
    }
}

/// Checks that a path lies within the Orion directory structure and does
/// not try to leave it.
pub fn validate_orion_path(path: &str, label: &str) -> (r: Result<(), String>)
    ensures
        orion_path_outcome(path@, label@, r),
{
    if !contains(path, "Orion") {
        return Err(
            String::from_str(label).concat(" path must be within the Orion directory: ").concat(
                path,
            ),
        );
    }
    if contains(path, "..") {
        return Err(
            String::from_str(label).concat(" path contains invalid traversal sequence: ").concat(
                path,
            ),
        );
    }
    Ok(())
}

/// The operating system's error number for a rename across file systems.
pub const CROSS_DEVICE_ERROR: i32 = 18;

/// The message for a directory move that failed with `detail`, the system's
/// description of the error; `os_code` is its error number, if any.
pub open spec fn move_failure_text(os_code: Option<i32>, detail: Seq<char>) -> Seq<char> {
    if os_code == Some(CROSS_DEVICE_ERROR) {
        "Cannot move across different volumes. Source and destination must be on the same filesystem: "@
            + detail
    } else {
        "Failed to move directory: "@ + detail
    }
}

/// The message for a directory move that failed.
pub fn move_failure_message(os_code: Option<i32>, detail: &str) -> (r: String)
    ensures
        r@ == move_failure_text(os_code, detail@),
{
    match os_code {
        Some(code) if code == CROSS_DEVICE_ERROR => String::from_str(
            "Cannot move across different volumes. Source and destination must be on the same filesystem: ",
        ).concat(detail),
        _ => String::from_str("Failed to move directory: ").concat(detail),
    }
}

/// The database file as found on disk.
pub struct DbHealthStatus {
    pub initialized: bool,
    pub journal_mode: String,
    pub foreign_keys_enabled: bool,
    pub db_path: String,
    pub db_size_bytes: u64,
}

/// The health report for the database file at `db_path`: a missing file is
/// uninitialized, with no journal mode, no foreign keys and size zero; an
/// existing one reports the expected journal mode and foreign keys, and its
/// size.
pub fn health_status(db_path: String, exists: bool, size_bytes: u64) -> (r: DbHealthStatus)
    ensures
        r.db_path == db_path,
        r.initialized == exists,
        r.foreign_keys_enabled == exists,
        exists ==> r.journal_mode@ == EXPECTED_JOURNAL_MODE@ && r.db_size_bytes == size_bytes,
        !exists ==> r.journal_mode@ == Seq::<char>::empty() && r.db_size_bytes == 0,
{
    if !exists {
        DbHealthStatus {
            initialized: false,
            journal_mode: String::new(),
            foreign_keys_enabled: false,
            db_path,
            db_size_bytes: 0,
        }
    } else {
        DbHealthStatus {
            initialized: true,
            journal_mode: String::from_str(EXPECTED_JOURNAL_MODE),
            foreign_keys_enabled: true,
            db_path,
            db_size_bytes: size_bytes,
        }
    }
}

} // verus!
