//! Report bookkeeping: the record shapes exported at the end of a run, the
//! writer that derives its report paths, and the log-rotation rule.

use vstd::prelude::*;

use crate::text::{with_extension, with_extension_of};

verus! {

/// One sync operation, as exported in the run report.
pub struct SyncRecord {
    pub sync_id: String,
    /// Epoch seconds of the operation.
    pub timestamp: i64,
    /// Kind of operation performed on the file.
    pub operation: String,
    pub file_path: String,
    pub file_size: u64,
    pub status: String,
    pub error: Option<String>,
    pub source: String,
    pub destination: String,
    pub md5: String,
    pub config_id: String,
}

/// One failure, as exported in the run report.
pub struct FailureRecord {
    /// Epoch seconds of the failure.
    pub timestamp: i64,
    pub file: String,
    pub error_type: String,
    pub error_message: String,
    pub details: String,
    pub config_id: String,
}

/// Derives the pair of report paths a run writes to.
pub struct ReportWriter {
    pub csv_path: String,
    pub json_path: String,
}

impl ReportWriter {
    /// Derives the CSV and JSON paths from one base path.
    pub fn new(base_path: String, report_type: &str) -> (w: Self)
        ensures
            w.csv_path@ == with_extension_of(base_path@, "csv"@),
            w.json_path@ == with_extension_of(base_path@, "json"@),
    {
        let _ = report_type;
        let csv_path = with_extension(base_path.as_str(), "csv");
        let json_path = with_extension(base_path.as_str(), "json");
        ReportWriter { csv_path, json_path }
    }
}

/// The log directory's rotation policy.
pub struct LogManager {
    pub log_dir: String,
    pub max_logs: u32,
}

impl LogManager {
    /// Creates a manager for `log_dir` keeping at most `max_logs` logs.
    pub fn new(log_dir: String, max_logs: u32) -> (m: Self)
        ensures
            m.log_dir == log_dir,
            m.max_logs == max_logs,
    {
        LogManager { log_dir, max_logs }
    }

    /// How many of the oldest files rotation removes: log files come in
    /// CSV/JSON pairs, and enough whole pairs go so that at most
    /// `max_logs` pairs remain.
    pub fn files_to_remove(&self, num_entries: usize) -> (r: usize)
        ensures
            r == if num_entries / 2 > self.max_logs {
                (num_entries / 2 - self.max_logs) * 2
            } else {
                0int
            },
    {
        let pairs = num_entries / 2;
        let m = self.max_logs as usize;
        if pairs > m {
            (pairs - m) * 2
        } else {
            0
        }
    }
}

} // verus!
