//! The persisted per-destination settings, and the time-to-live rule that
//! decides whether a watch run is due for another sync.

use vstd::prelude::*;

use crate::clock::now_ts;

verus! {

/// The stored settings for one sync destination.
pub struct CliConfig {
    pub id: String,
    pub base_url: Option<String>,
    pub desti_path: String,
    pub source_username: Option<String>,
    pub source_password: Option<String>,
    pub download_username: Option<String>,
    pub download_password: Option<String>,
    /// Maximum number of log files to keep.
    pub max_logs: u32,
    /// Maximum number of concurrent downloads.
    pub max_concurrent: usize,
    /// Delay between downloads in milliseconds.
    pub download_delay: u64,
    /// Download timeout in seconds.
    pub download_timeout: u64,
    /// Maximum retry attempts for failed downloads.
    pub max_retries: usize,
    /// Time-to-live for automatic sync, in seconds.
    pub ttl: Option<u64>,
    /// Epoch seconds of the last successful sync.
    pub last_sync: Option<i64>,
}

impl CliConfig {
    /// Creates a configuration with the default settings.
    pub fn new(id: String, desti_path: String) -> (c: Self)
        ensures
            c.id == id,
            c.base_url is None,
            c.desti_path == desti_path,
            c.source_username is None,
            c.source_password is None,
            c.download_username is None,
            c.download_password is None,
            c.max_logs == 10,
            c.max_concurrent == 5,
            c.download_delay == 100,
            c.download_timeout == 30,
            c.max_retries == 3,
            c.ttl is None,
            c.last_sync is None,
    {
        CliConfig {
            id,
            base_url: None,
            desti_path,
            source_username: None,
            source_password: None,
            download_username: None,
            download_password: None,
            max_logs: 10,
            max_concurrent: 5,
            download_delay: 100,
            download_timeout: 30,
            max_retries: 3,
            ttl: None,
            last_sync: None,
        }
    }

    /// The time-to-live rule: a sync is due at `now` when no TTL or no
    /// previous sync is recorded, when the clock moved backwards, or when
    /// at least `ttl` seconds have passed since the last sync.
    pub open spec fn spec_needs_sync_at(self, now: i64) -> bool {
        match (self.ttl, self.last_sync) {
            (Some(t), Some(ls)) => now < ls || now - ls >= t,
            _ => true,
        }
    }

    /// Decides whether a sync is due at the given time.
    pub fn needs_sync_at(&self, now: i64) -> (r: bool)
        ensures
            r == self.spec_needs_sync_at(now),
    {
        match (self.ttl, self.last_sync) {
            (Some(t), Some(ls)) => {
                if now < ls {
                    true
                } else {
                    let diff: i128 = (now as i128) - (ls as i128);
                    diff >= (t as i128)
                }
            },
            _ => true,
        }
    }

    /// Decides whether a sync is due now. Of the clock-dependent part
    /// nothing can be promised; a missing TTL, a missing last-sync stamp,
    /// or a zero TTL always means due.
    pub fn needs_sync(&self) -> (r: bool)
        ensures
            (self.ttl is None || self.last_sync is None) ==> r,
            self.ttl == Some(0u64) ==> r,
    {
        let now = now_ts();
        self.needs_sync_at(now)
    }

    /// Stamps the configuration with the current time as its last sync.
    pub fn update_last_sync(&mut self)
        ensures
            final(self).last_sync is Some,
            final(self).id == old(self).id,
            final(self).base_url == old(self).base_url,
            final(self).desti_path == old(self).desti_path,
            final(self).source_username == old(self).source_username,
            final(self).source_password == old(self).source_password,
            final(self).download_username == old(self).download_username,
            final(self).download_password == old(self).download_password,
            final(self).max_logs == old(self).max_logs,
            final(self).max_concurrent == old(self).max_concurrent,
            final(self).download_delay == old(self).download_delay,
            final(self).download_timeout == old(self).download_timeout,
            final(self).max_retries == old(self).max_retries,
            final(self).ttl == old(self).ttl,
    {
        self.last_sync = Some(now_ts());
    }
}

} // verus!
