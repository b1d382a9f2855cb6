//! Run-level sync bookkeeping: the result summary of one run, the settings
//! a run is driven by, and the pure decisions behind per-file re-sync and
//! log rotation.

use vstd::prelude::*;

use crate::clock::now_ts;
use crate::text::str_eq;

verus! {

/// The summary of one sync run.
pub struct SyncResult {
    /// Epoch seconds when the run completed.
    pub timestamp: i64,
    pub added_files: Vec<String>,
    pub updated_files: Vec<String>,
    pub failed_files: Vec<String>,
    pub errors: Vec<String>,
}

impl SyncResult {
    /// Creates an empty summary stamped with the current time.
    pub fn new() -> (r: Self)
        ensures
            r.added_files@.len() == 0,
            r.updated_files@.len() == 0,
            r.failed_files@.len() == 0,
            r.errors@.len() == 0,
    {
        SyncResult {
            timestamp: now_ts(),
            added_files: Vec::new(),
            updated_files: Vec::new(),
            failed_files: Vec::new(),
            errors: Vec::new(),
        }
    }
}

/// One file's sync failure, for the run summary.
pub struct SyncFailure {
    pub file: String,
    pub error: String,
    pub details: String,
}

/// The settings one sync run is driven by.
pub struct SyncConfig {
    /// Base URL for resolving relative paths.
    pub base_url: Option<String>,
    /// Source of the assets: a URL or a file path.
    pub assets_source: String,
    /// Destination path for synced files.
    pub desti_path: String,
    /// Authentication credentials.
    pub auth: Option<(String, String)>,
    /// Time-to-live for automatic sync, in seconds.
    pub ttl: Option<u64>,
    /// Where to write the report file.
    pub report_file: Option<String>,
    /// Maximum number of log files to keep.
    pub max_logs: u32,
}

/// The metadata a source declares for one file.
pub struct AssetMeta {
    pub filesize: u64,
    /// Expected permission bits, in octal notation.
    pub permissions: String,
    /// Expected modification stamp, epoch seconds.
    pub changed: i64,
}

/// What can be observed of an existing destination file.
pub struct FileState {
    pub len: u64,
    /// Observed permission bits, in octal notation.
    pub permissions: String,
    /// Observed modification time, epoch seconds.
    pub modified: i64,
}

/// A destination file must be rewritten when it is missing, or when its
/// size, permissions or modification time differ from what the source
/// declares.
pub open spec fn spec_needs_sync(meta: AssetMeta, state: Option<FileState>) -> bool {
    match state {
        None => true,
        Some(st) => st.len != meta.filesize || st.permissions@ != meta.permissions@ || st.modified
            != meta.changed,
    }
}

/// Decides whether a file needs sync, from the declared metadata and the
/// observed state of the destination (`None` when it does not exist).
pub fn needs_sync(meta: &AssetMeta, state: &Option<FileState>) -> (r: bool)
    ensures
        r == spec_needs_sync(*meta, *state),
{
    match state {
        None => true,
        Some(st) => {
            if st.len != meta.filesize {
                true
            } else if !str_eq(st.permissions.as_str(), meta.permissions.as_str()) {
                true
            } else {
                st.modified != meta.changed
            }
        },
    }
}

/// How many of the oldest log entries must be removed so that at most
/// `max_logs` remain.
pub fn rotate_excess(num_entries: usize, max_logs: u32) -> (r: usize)
    ensures
        r == if num_entries > max_logs {
            num_entries - max_logs
        } else {
            0int
        },
{
    let m = max_logs as usize;
    if num_entries > m {
        num_entries - m
    } else {
        0
    }
}

} // verus!
