//! The download scheduler: a state machine that admits tasks under a
//! concurrency cap, rejects oversized records without a fetch, retries
//! failed fetches with exponential backoff up to a retry cap, and records
//! every exhausted task exactly once.
//!
//! The caller performs the actual network and filesystem work: it asks for
//! the next task with [`Downloader::start_next`], carries out the returned
//! fetch job, and reports what happened with [`Downloader::finish`].

use base64::Engine;
use vstd::arithmetic::power2::{lemma2_to64, lemma2_to64_rest, lemma_pow2_adds, lemma_pow2_strictly_increases, pow2};
use vstd::pervasive::VecAdditionalExecFns;
use vstd::prelude::*;
use vstd::string::StringExecFns;

use crate::schema::DrupalFileAsset;
use crate::text::{spec_decimal, u64_to_string};

verus! {

/// One failed download, as recorded for the end-of-run report.
pub struct FailedDownload {
    pub filename: String,
    pub path: String,
    pub error: String,
    pub timestamp: i64,
}

impl Clone for FailedDownload {
    fn clone(&self) -> (res: Self)
        ensures
            res == *self,
    {
        FailedDownload {
            filename: self.filename.clone(),
            path: self.path.clone(),
            error: self.error.clone(),
            timestamp: self.timestamp,
        }
    }
}

/// The immutable per-run settings of the scheduler.
pub struct DownloadConfig {
    /// Bound on simultaneous in-flight downloads; must be positive.
    pub max_concurrent: usize,
    /// Pacing delay after each completed task, in milliseconds.
    pub download_delay: u64,
    /// Per-request deadline, in seconds.
    pub download_timeout: u64,
    /// Cap on fetch attempts per file.
    pub max_retries: usize,
    /// Optional ceiling on a record's declared size; exceeding it is a hard
    /// rejection, never fetched.
    pub max_file_size: Option<u64>,
    /// Base URL every record's fetch URL is resolved against.
    pub base_url: Option<String>,
    pub username: Option<String>,
    pub password: Option<String>,
}

impl Clone for DownloadConfig {
    fn clone(&self) -> (res: Self)
        ensures
            res == *self,
    {
        DownloadConfig {
            max_concurrent: self.max_concurrent,
            download_delay: self.download_delay,
            download_timeout: self.download_timeout,
            max_retries: self.max_retries,
            max_file_size: self.max_file_size,
            base_url: match &self.base_url {
                Some(u) => Some(u.clone()),
                None => None,
            },
            username: match &self.username {
                Some(u) => Some(u.clone()),
                None => None,
            },
            password: match &self.password {
                Some(u) => Some(u.clone()),
                None => None,
            },
        }
    }
}

impl Default for DownloadConfig {
    fn default() -> (c: Self)
        ensures
            c.max_concurrent == 4,
            c.download_delay == 100,
            c.download_timeout == 30,
            c.max_retries == 3,
            c.max_file_size is None,
            c.base_url is None,
            c.username is None,
            c.password is None,
    {
        DownloadConfig {
            max_concurrent: 4,
            download_delay: 100,
            download_timeout: 30,
            max_retries: 3,
            max_file_size: None,
            base_url: None,
            username: None,
            password: None,
        }
    }
}

/// What the standard base64 alphabet (with padding) encodes a string to.
pub uninterp spec fn base64_of(s: Seq<char>) -> Seq<char>;

/// Relies on base64's `Engine::encode` with the `STANDARD` engine: the
/// standard alphabet with padding, a function of the input bytes alone.
#[verifier::external_body]
fn base64_encode(s: &str) -> (r: String)
    ensures
        r@ == base64_of(s@),
{
    base64::engine::general_purpose::STANDARD.encode(s)
}

/// The value of a basic-authentication header for the given credentials.
pub open spec fn basic_auth_of(user: Seq<char>, pass: Seq<char>) -> Seq<char> {
    "Basic "@ + base64_of(user + seq![':'] + pass)
}

/// Builds the basic-authentication header value for the given credentials.
pub fn basic_auth_header(user: &str, pass: &str) -> (r: String)
    ensures
        r@ == basic_auth_of(user@, pass@),
{
    proof {
        reveal_strlit(":");
        assert(":"@ =~= seq![':']);
    }
    let mut creds = String::from_str(user);
    creds.append(":");
    creds.append(pass);
    proof {
        assert(creds@ =~= user@ + seq![':'] + pass@);
    }
    let enc = base64_encode(creds.as_str());
    let mut r = String::from_str("Basic ");
    r.append(enc.as_str());
    r
}

/// Resolves the fetch URL for a record — `base/path`, or `base/filename`
/// when no relative path is declared — or explains why it cannot be.
pub fn get_download_url(asset: &DrupalFileAsset, config: &DownloadConfig) -> (r: Result<
    String,
    String,
>)
    ensures
        config.base_url matches Some(b) ==> (r matches Ok(u) && u@ == asset.resolved_under(b@)),
        config.base_url is None ==> (r matches Err(m) && m@
            == "Base URL is required for downloading assets"@),
{
    match &config.base_url {
        Some(b) => Ok(asset.resolve_under(b.as_str())),
        None => Err(String::from_str("Base URL is required for downloading assets")),
    }
}

/// The backoff before the next try, after `attempts_made` attempts: it
/// starts at one time unit and doubles with each attempt, saturating once
/// it can no longer be represented.
pub open spec fn backoff_of(attempts_made: int) -> int {
    if attempts_made - 1 < 64 {
        pow2((attempts_made - 1) as nat) as int
    } else {
        u64::MAX as int
    }
}

/// Computes the backoff delay after `attempts_made` failed attempts.
pub fn backoff_delay(attempts_made: usize) -> (r: u64)
    requires
        attempts_made >= 1,
    ensures
        r == backoff_of(attempts_made as int),
{
    let k = attempts_made - 1;
    if k >= 64 {
        return u64::MAX;
    }
    if k == 64 - 1 {
        proof {
            lemma2_to64_rest();
        }
        return 0x8000_0000_0000_0000u64;
    }
    let mut r: u64 = 1;
    let mut i: usize = 0;
    proof {
        lemma2_to64();
    }
    while i < k
        invariant
            i <= k,
            k < 63,
            r == pow2(i as nat),
        decreases k - i,
    {
        proof {
            lemma2_to64();
            lemma2_to64_rest();
            if (i as nat) < 62 {
                lemma_pow2_strictly_increases(i as nat, 62);
            }
            lemma_pow2_adds(i as nat, 1);
        }
        r = r * 2;
        i = i + 1;
    }
    r
}

/// Where one download task stands.
#[derive(Clone, Copy, PartialEq, Eq, Structural, Debug)]
pub enum TaskState {
    /// Not yet admitted.
    Pending,
    /// Owned by a worker; a fetch attempt is running or about to retry.
    InFlight,
    /// Terminal: the file was materialized.
    Succeeded,
    /// Terminal: rejected or exhausted; recorded exactly once.
    Failed,
}

/// One task's state paired with the number of fetch attempts it has made.
#[derive(Clone, Copy, PartialEq, Eq, Structural, Debug)]
pub struct Task {
    pub state: TaskState,
    pub attempts: usize,
}

/// The work `start_next` hands to the caller: perform one fetch attempt.
pub struct FetchJob {
    /// Index of the task this job belongs to.
    pub index: usize,
    /// The resolved fetch URL.
    pub url: String,
    /// The resolved destination path.
    pub dest_path: String,
    /// The basic-authentication header value, when credentials are set.
    pub auth_header: Option<String>,
    /// The per-request deadline, in seconds.
    pub timeout: u64,
}

/// What `start_next` decided for the first pending task.
pub enum StartOutcome {
    /// Fetch this job now.
    Fetch(FetchJob),
    /// The task at this index was rejected without any fetch and recorded
    /// as failed.
    Rejected(usize),
}

/// What the caller observed for one fetch attempt.
pub enum FetchOutcome {
    /// The body was fetched and written; `length` is its byte count.
    Delivered { length: u64 },
    /// The server answered with a non-success status.
    HttpStatus { status: u16 },
    /// The request, the write, or the directory creation failed.
    TransportError { message: String },
}

/// What `finish` decided for a reported attempt.
#[derive(Clone, Copy, PartialEq, Eq, Structural, Debug)]
pub enum FinishDecision {
    /// The task succeeded and is terminal.
    Completed,
    /// Retry the same job after waiting `backoff` time units.
    Retry { backoff: u64 },
    /// The retry cap is reached; the task is failed and recorded.
    Exhausted,
}

/// How many tasks of `tasks` are in state `st`.
pub open spec fn count_state(tasks: Seq<Task>, st: TaskState) -> int
    decreases tasks.len(),
{
    if tasks.len() == 0 {
        0
    } else {
        count_state(tasks.drop_last(), st) + (if tasks.last().state == st {
            1int
        } else {
            0int
        })
    }
}

proof fn lemma_count_state_update(tasks: Seq<Task>, i: int, t: Task, st: TaskState)
    requires
        0 <= i < tasks.len(),
    ensures
        count_state(tasks.update(i, t), st) == count_state(tasks, st) + (if t.state == st {
            1int
        } else {
            0int
        }) - (if tasks[i].state == st {
            1int
        } else {
            0int
        }),
    decreases tasks.len(),
{
    if i == tasks.len() - 1 {
        assert(tasks.update(i, t).drop_last() =~= tasks.drop_last());
        assert(tasks.update(i, t).last() == t);
    } else {
        assert(tasks.update(i, t).drop_last() =~= tasks.drop_last().update(i, t));
        assert(tasks.drop_last()[i] == tasks[i]);
        lemma_count_state_update(tasks.drop_last(), i, t, st);
        assert(tasks.update(i, t).last() == tasks.last());
    }
}

/// Whether a record's declared size exceeds the configured ceiling.
pub open spec fn size_rejected(a: DrupalFileAsset, config: DownloadConfig) -> bool {
    match (config.max_file_size, a.size) {
        (Some(limit), Some(s)) => s > limit,
        _ => false,
    }
}

/// The failure message for a task rejected before any fetch.
pub open spec fn reject_error_of(a: DrupalFileAsset, config: DownloadConfig) -> Seq<char> {
    if size_rejected(a, config) {
        "declared size "@ + spec_decimal(a.size.unwrap() as int) + " exceeds limit "@
            + spec_decimal(config.max_file_size.unwrap() as int)
    } else {
        "no download attempts permitted"@
    }
}

/// Whether an observed fetch outcome counts as success for this record:
/// the body was delivered and matches the declared size, when one is known.
pub open spec fn outcome_ok(a: DrupalFileAsset, o: FetchOutcome) -> bool {
    match o {
        FetchOutcome::Delivered { length } => match a.size {
            Some(expected) => length == expected,
            None => true,
        },
        _ => false,
    }
}

/// The failure message for an unsuccessful fetch outcome; `base` is the
/// base URL the fetch was resolved against, named for an HTTP failure.
pub open spec fn outcome_error_of(a: DrupalFileAsset, o: FetchOutcome, base: Seq<char>) -> Seq<
    char,
> {
    match o {
        FetchOutcome::Delivered { length } => "size mismatch: expected "@ + spec_decimal(
            a.size.unwrap() as int,
        ) + ", got "@ + spec_decimal(length as int),
        FetchOutcome::HttpStatus { status } => "HTTP "@ + spec_decimal(status as int) + " for "@
            + a.resolved_under(base),
        FetchOutcome::TransportError { message } => message@,
    }
}

/// The download scheduler: the per-run configuration, the records of the
/// batch with one task each, and the failure recorder.
pub struct Downloader {
    pub config: DownloadConfig,
    pub dest_root: String,
    pub assets: Vec<DrupalFileAsset>,
    pub tasks: Vec<Task>,
    pub failures: Vec<FailedDownload>,
}

impl Downloader {
    /// The scheduler's invariant, established by `new` and `begin_run` and
    /// preserved by `start_next` and `finish`:
    /// - at most `max_concurrent` tasks are in flight;
    /// - no task ever makes more than `max_retries` fetch attempts;
    /// - a failed task made exactly `max_retries` attempts, or none when it
    ///   was rejected before fetching;
    /// - the failure recorder holds exactly one record per failed task.
    pub open spec fn wf(self) -> bool {
        &&& self.config.max_concurrent >= 1
        &&& self.tasks@.len() == self.assets@.len()
        &&& count_state(self.tasks@, TaskState::InFlight) <= self.config.max_concurrent
        &&& self.failures@.len() == count_state(self.tasks@, TaskState::Failed)
        &&& forall|i: int|
            0 <= i < self.tasks@.len() ==> (#[trigger] self.tasks@[i]).attempts
                <= self.config.max_retries
        &&& forall|i: int|
            0 <= i < self.tasks@.len() && (#[trigger] self.tasks@[i]).state == TaskState::Pending
                ==> self.tasks@[i].attempts == 0
        &&& forall|i: int|
            0 <= i < self.tasks@.len() && (#[trigger] self.tasks@[i]).state == TaskState::InFlight
                ==> self.tasks@[i].attempts >= 1
        &&& forall|i: int|
            0 <= i < self.tasks@.len() && (#[trigger] self.tasks@[i]).state == TaskState::Succeeded
                ==> self.tasks@[i].attempts >= 1
        &&& forall|i: int|
            0 <= i < self.tasks@.len() && (#[trigger] self.tasks@[i]).state == TaskState::Failed
                ==> (self.tasks@[i].attempts == self.config.max_retries || self.tasks@[i].attempts
                    == 0)
    }

    /// Whether every task has reached a terminal state.
    pub open spec fn spec_done(self) -> bool {
        forall|i: int|
            0 <= i < self.tasks@.len() ==> ((#[trigger] self.tasks@[i]).state
                == TaskState::Succeeded || self.tasks@[i].state == TaskState::Failed)
    }

    /// Creates a scheduler with an empty batch.
    pub fn new(config: DownloadConfig) -> (d: Downloader)
        requires
            config.max_concurrent >= 1,
        ensures
            d.wf(),
            d.config == config,
            d.dest_root@.len() == 0,
            d.assets@.len() == 0,
            d.tasks@.len() == 0,
            d.failures@.len() == 0,
    {
        Downloader {
            config,
            dest_root: String::new(),
            assets: Vec::new(),
            tasks: Vec::new(),
            failures: Vec::new(),
        }
    }

    /// Loads a fresh batch: every record gets one pending task, and the
    /// failure recorder starts empty.
    pub fn begin_run(&mut self, assets: Vec<DrupalFileAsset>, destination: String)
        requires
            old(self).wf(),
        ensures
            final(self).wf(),
            final(self).config == old(self).config,
            final(self).dest_root == destination,
            final(self).assets == assets,
            final(self).tasks@.len() == assets@.len(),
            forall|i: int|
                0 <= i < final(self).tasks@.len() ==> (#[trigger] final(self).tasks@[i]) == (Task {
                    state: TaskState::Pending,
                    attempts: 0,
                }),
            final(self).failures@.len() == 0,
    {
        let n = assets.len();
        let mut tasks: Vec<Task> = Vec::new();
        let mut i: usize = 0;
        while i < n
            invariant
                i <= n,
                tasks@.len() == i,
                forall|j: int|
                    0 <= j < i ==> (#[trigger] tasks@[j]) == (Task {
                        state: TaskState::Pending,
                        attempts: 0,
                    }),
                count_state(tasks@, TaskState::InFlight) == 0,
                count_state(tasks@, TaskState::Failed) == 0,
            decreases n - i,
        {
            let ghost pre = tasks@;
            tasks.push(Task { state: TaskState::Pending, attempts: 0 });
            proof {
                assert(tasks@.drop_last() =~= pre);
            }
            i = i + 1;
        }
        self.assets = assets;
        self.tasks = tasks;
        self.failures = Vec::new();
        self.dest_root = destination;
    }

    /// Counts the tasks currently in flight.
    pub fn in_flight_count(&self) -> (r: usize)
        ensures
            r == count_state(self.tasks@, TaskState::InFlight),
    {
        let n = self.tasks.len();
        let mut count: usize = 0;
        let mut i: usize = 0;
        proof {
            assert(self.tasks@.subrange(0, 0) =~= Seq::<Task>::empty());
        }
        while i < n
            invariant
                i <= n,
                n == self.tasks@.len(),
                count <= i,
                count == count_state(self.tasks@.subrange(0, i as int), TaskState::InFlight),
            decreases n - i,
        {
            proof {
                assert(self.tasks@.subrange(0, i + 1 as int).drop_last() =~= self.tasks@.subrange(
                    0,
                    i as int,
                ));
            }
            if self.tasks[i].state == TaskState::InFlight {
                count = count + 1;
            }
            i = i + 1;
        }
        proof {
            assert(self.tasks@.subrange(0, n as int) =~= self.tasks@);
        }
        count
    }

    /// Whether every task has reached a terminal state.
    pub fn is_done(&self) -> (r: bool)
        ensures
            r == self.spec_done(),
    {
        let n = self.tasks.len();
        let mut i: usize = 0;
        while i < n
            invariant
                i <= n,
                n == self.tasks@.len(),
                forall|j: int|
                    0 <= j < i ==> ((#[trigger] self.tasks@[j]).state == TaskState::Succeeded
                        || self.tasks@[j].state == TaskState::Failed),
            decreases n - i,
        {
            let st = self.tasks[i].state;
            if !(st == TaskState::Succeeded || st == TaskState::Failed) {
                return false;
            }
            i = i + 1;
        }
        true
    }

    /// Admits the first pending task, if the concurrency cap allows one
    /// more. A record whose declared size exceeds the ceiling — or one
    /// admitted under a zero retry cap — is failed and recorded on the
    /// spot, with no fetch; otherwise the caller receives the fetch job.
    pub fn start_next(&mut self, now: i64) -> (r: Option<StartOutcome>)
        requires
            old(self).wf(),
            old(self).config.base_url is Some,
        ensures
            final(self).wf(),
            final(self).config == old(self).config,
            final(self).dest_root == old(self).dest_root,
            final(self).assets == old(self).assets,
            final(self).tasks@.len() == old(self).tasks@.len(),
            r is None <==> (count_state(old(self).tasks@, TaskState::InFlight) == old(
                self,
            ).config.max_concurrent || forall|i: int|
                0 <= i < old(self).tasks@.len() ==> (#[trigger] old(self).tasks@[i]).state
                    != TaskState::Pending),
            r is None ==> *final(self) == *old(self),
            r matches Some(StartOutcome::Rejected(i)) ==> {
                &&& i < old(self).tasks@.len()
                &&& old(self).tasks@[i as int].state == TaskState::Pending
                &&& forall|j: int|
                    0 <= j < i ==> (#[trigger] old(self).tasks@[j]).state != TaskState::Pending
                &&& (size_rejected(old(self).assets@[i as int], old(self).config) || old(
                    self,
                ).config.max_retries == 0)
                &&& final(self).tasks@ == old(self).tasks@.update(
                    i as int,
                    Task { state: TaskState::Failed, attempts: 0 },
                )
                &&& final(self).failures@.len() == old(self).failures@.len() + 1
                &&& final(self).failures@.drop_last() == old(self).failures@
                &&& final(self).failures@.last().filename == old(self).assets@[i as int].filename
                &&& final(self).failures@.last().path == old(self).assets@[i as int].path
                &&& final(self).failures@.last().error@ == reject_error_of(
                    old(self).assets@[i as int],
                    old(self).config,
                )
                &&& final(self).failures@.last().timestamp == now
            },
            r matches Some(StartOutcome::Fetch(job)) ==> {
                &&& job.index < old(self).tasks@.len()
                &&& old(self).tasks@[job.index as int].state == TaskState::Pending
                &&& forall|j: int|
                    0 <= j < job.index ==> (#[trigger] old(self).tasks@[j]).state
                        != TaskState::Pending
                &&& !size_rejected(old(self).assets@[job.index as int], old(self).config)
                &&& old(self).config.max_retries >= 1
                &&& count_state(old(self).tasks@, TaskState::InFlight) < old(
                    self,
                ).config.max_concurrent
                &&& final(self).tasks@ == old(self).tasks@.update(
                    job.index as int,
                    Task { state: TaskState::InFlight, attempts: 1 },
                )
                &&& final(self).failures@ == old(self).failures@
                &&& job.url@ == old(self).assets@[job.index as int].resolved_under(
                    old(self).config.base_url.unwrap()@,
                )
                &&& job.dest_path@ == old(self).assets@[job.index as int].local_path_of(
                    old(self).dest_root@,
                )
                &&& job.timeout == old(self).config.download_timeout
                &&& (match (old(self).config.username, old(self).config.password) {
                    (Some(u), Some(p)) => job.auth_header matches Some(h) && h@ == basic_auth_of(
                        u@,
                        p@,
                    ),
                    _ => job.auth_header is None,
                })
            },
    {
        let cap = self.config.max_concurrent;
        let infl = self.in_flight_count();
        if infl >= cap {
            return None;
        }
        let n = self.tasks.len();
        let mut i: usize = 0;
        while i < n
            invariant
                i <= n,
                n == self.tasks@.len(),
                *self == *old(self),
                count_state(self.tasks@, TaskState::InFlight) < self.config.max_concurrent,
                self.wf(),
                self.config.base_url is Some,
                forall|j: int|
                    0 <= j < i ==> (#[trigger] self.tasks@[j]).state != TaskState::Pending,
            decreases n - i,
        {
            if self.tasks[i].state == TaskState::Pending {
                return Some(self.take_up(i, now));
            }
            i = i + 1;
        }
        None
    }

    /// Admits the pending task at `index`: either rejects it on the spot
    /// (size ceiling exceeded, or a zero retry cap) or marks it in flight
    /// and returns its fetch job.
    fn take_up(&mut self, index: usize, now: i64) -> (r: StartOutcome)
        requires
            old(self).wf(),
            old(self).config.base_url is Some,
            index < old(self).tasks@.len(),
            old(self).tasks@[index as int].state == TaskState::Pending,
            count_state(old(self).tasks@, TaskState::InFlight) < old(self).config.max_concurrent,
        ensures
            final(self).wf(),
            final(self).config == old(self).config,
            final(self).dest_root == old(self).dest_root,
            final(self).assets == old(self).assets,
            final(self).tasks@.len() == old(self).tasks@.len(),
            r matches StartOutcome::Rejected(i) ==> {
                &&& i == index
                &&& (size_rejected(old(self).assets@[index as int], old(self).config) || old(
                    self,
                ).config.max_retries == 0)
                &&& final(self).tasks@ == old(self).tasks@.update(
                    index as int,
                    Task { state: TaskState::Failed, attempts: 0 },
                )
                &&& final(self).failures@.len() == old(self).failures@.len() + 1
                &&& final(self).failures@.drop_last() == old(self).failures@
                &&& final(self).failures@.last().filename == old(
                    self,
                ).assets@[index as int].filename
                &&& final(self).failures@.last().path == old(self).assets@[index as int].path
                &&& final(self).failures@.last().error@ == reject_error_of(
                    old(self).assets@[index as int],
                    old(self).config,
                )
                &&& final(self).failures@.last().timestamp == now
            },
            r matches StartOutcome::Fetch(job) ==> {
                &&& job.index == index
                &&& !size_rejected(old(self).assets@[index as int], old(self).config)
                &&& old(self).config.max_retries >= 1
                &&& final(self).tasks@ == old(self).tasks@.update(
                    index as int,
                    Task { state: TaskState::InFlight, attempts: 1 },
                )
                &&& final(self).failures@ == old(self).failures@
                &&& job.url@ == old(self).assets@[index as int].resolved_under(
                    old(self).config.base_url.unwrap()@,
                )
                &&& job.dest_path@ == old(self).assets@[index as int].local_path_of(
                    old(self).dest_root@,
                )
                &&& job.timeout == old(self).config.download_timeout
                &&& (match (old(self).config.username, old(self).config.password) {
                    (Some(u), Some(p)) => job.auth_header matches Some(h) && h@ == basic_auth_of(
                        u@,
                        p@,
                    ),
                    _ => job.auth_header is None,
                })
            },
    {
        let over_limit = match (self.config.max_file_size, self.assets[index].size) {
            (Some(limit), Some(s)) => s > limit,
            _ => false,
        };
        if over_limit || self.config.max_retries == 0 {
            let error = if over_limit {
                let mut e = String::from_str("declared size ");
                let declared = match self.assets[index].size {
                    Some(s) => s,
                    None => 0,
                };
                let limit = match self.config.max_file_size {
                    Some(l) => l,
                    None => 0,
                };
                let ds = u64_to_string(declared);
                e.append(ds.as_str());
                e.append(" exceeds limit ");
                let ls = u64_to_string(limit);
                e.append(ls.as_str());
                e
            } else {
                String::from_str("no download attempts permitted")
            };
            let record = FailedDownload {
                filename: self.assets[index].filename.clone(),
                path: self.assets[index].path.clone(),
                error,
                timestamp: now,
            };
            proof {
                lemma_count_state_update(
                    self.tasks@,
                    index as int,
                    Task { state: TaskState::Failed, attempts: 0 },
                    TaskState::InFlight,
                );
                lemma_count_state_update(
                    self.tasks@,
                    index as int,
                    Task { state: TaskState::Failed, attempts: 0 },
                    TaskState::Failed,
                );
            }
            self.tasks.set(index, Task { state: TaskState::Failed, attempts: 0 });
            self.failures.push(record);
            StartOutcome::Rejected(index)
        } else {
            let base = match &self.config.base_url {
                Some(b) => b,
                None => vstd::pervasive::unreached(),
            };
            let url = self.assets[index].resolve_under(base.as_str());
            let dest_path = self.assets[index].get_local_path(self.dest_root.as_str());
            let auth_header = match (&self.config.username, &self.config.password) {
                (Some(u), Some(p)) => Some(basic_auth_header(u.as_str(), p.as_str())),
                _ => None,
            };
            let timeout = self.config.download_timeout;
            proof {
                lemma_count_state_update(
                    self.tasks@,
                    index as int,
                    Task { state: TaskState::InFlight, attempts: 1 },
                    TaskState::InFlight,
                );
                lemma_count_state_update(
                    self.tasks@,
                    index as int,
                    Task { state: TaskState::InFlight, attempts: 1 },
                    TaskState::Failed,
                );
            }
            self.tasks.set(index, Task { state: TaskState::InFlight, attempts: 1 });
            StartOutcome::Fetch(FetchJob { index, url, dest_path, auth_header, timeout })
        }
    }

    /// Takes the caller's report for one fetch attempt of the in-flight
    /// task at `index` and decides: success is terminal; a failure is
    /// retried with exponential backoff while attempts remain, and is
    /// otherwise failed and recorded.
    pub fn finish(&mut self, index: usize, outcome: FetchOutcome, now: i64) -> (d: FinishDecision)
        requires
            old(self).wf(),
            old(self).config.base_url is Some,
            index < old(self).tasks@.len(),
            old(self).tasks@[index as int].state == TaskState::InFlight,
        ensures
            final(self).wf(),
            final(self).config == old(self).config,
            final(self).dest_root == old(self).dest_root,
            final(self).assets == old(self).assets,
            final(self).tasks@.len() == old(self).tasks@.len(),
            outcome_ok(old(self).assets@[index as int], outcome) ==> {
                &&& d == FinishDecision::Completed
                &&& final(self).tasks@ == old(self).tasks@.update(
                    index as int,
                    Task {
                        state: TaskState::Succeeded,
                        attempts: old(self).tasks@[index as int].attempts,
                    },
                )
                &&& final(self).failures@ == old(self).failures@
            },
            !outcome_ok(old(self).assets@[index as int], outcome) && old(
                self,
            ).tasks@[index as int].attempts < old(self).config.max_retries ==> {
                &&& (d matches FinishDecision::Retry { backoff } && backoff == backoff_of(
                    old(self).tasks@[index as int].attempts as int,
                ))
                &&& final(self).tasks@ == old(self).tasks@.update(
                    index as int,
                    Task {
                        state: TaskState::InFlight,
                        attempts: (old(self).tasks@[index as int].attempts + 1) as usize,
                    },
                )
                &&& final(self).failures@ == old(self).failures@
            },
            !outcome_ok(old(self).assets@[index as int], outcome) && old(
                self,
            ).tasks@[index as int].attempts >= old(self).config.max_retries ==> {
                &&& d == FinishDecision::Exhausted
                &&& final(self).tasks@ == old(self).tasks@.update(
                    index as int,
                    Task {
                        state: TaskState::Failed,
                        attempts: old(self).tasks@[index as int].attempts,
                    },
                )
                &&& final(self).failures@.len() == old(self).failures@.len() + 1
                &&& final(self).failures@.drop_last() == old(self).failures@
                &&& final(self).failures@.last().filename == old(
                    self,
                ).assets@[index as int].filename
                &&& final(self).failures@.last().path == old(self).assets@[index as int].path
                &&& final(self).failures@.last().error@ == outcome_error_of(
                    old(self).assets@[index as int],
                    outcome,
                    old(self).config.base_url.unwrap()@,
                )
                &&& final(self).failures@.last().timestamp == now
            },
    {
        let attempts = self.tasks[index].attempts;
        let ok = match &outcome {
            FetchOutcome::Delivered { length } => match self.assets[index].size {
                Some(expected) => *length == expected,
                None => true,
            },
            _ => false,
        };
        if ok {
            proof {
                lemma_count_state_update(
                    self.tasks@,
                    index as int,
                    Task { state: TaskState::Succeeded, attempts },
                    TaskState::InFlight,
                );
                lemma_count_state_update(
                    self.tasks@,
                    index as int,
                    Task { state: TaskState::Succeeded, attempts },
                    TaskState::Failed,
                );
            }
            self.tasks.set(index, Task { state: TaskState::Succeeded, attempts });
            FinishDecision::Completed
        } else if attempts < self.config.max_retries {
            proof {
                lemma_count_state_update(
                    self.tasks@,
                    index as int,
                    Task { state: TaskState::InFlight, attempts: (attempts + 1) as usize },
                    TaskState::InFlight,
                );
                lemma_count_state_update(
                    self.tasks@,
                    index as int,
                    Task { state: TaskState::InFlight, attempts: (attempts + 1) as usize },
                    TaskState::Failed,
                );
            }
            let backoff = backoff_delay(attempts);
            self.tasks.set(index, Task { state: TaskState::InFlight, attempts: attempts + 1 });
            FinishDecision::Retry { backoff }
        } else {
            let error = match outcome {
                FetchOutcome::Delivered { length } => {
                    let mut e = String::from_str("size mismatch: expected ");
                    let expected = match self.assets[index].size {
                        Some(s) => s,
                        None => 0,
                    };
                    let es = u64_to_string(expected);
                    e.append(es.as_str());
                    e.append(", got ");
                    let gs = u64_to_string(length);
                    e.append(gs.as_str());
                    e
                },
                FetchOutcome::HttpStatus { status } => {
                    let mut e = String::from_str("HTTP ");
                    let ss = u64_to_string(status as u64);
                    e.append(ss.as_str());
                    e.append(" for ");
                    let base = match &self.config.base_url {
                        Some(b) => b,
                        None => vstd::pervasive::unreached(),
                    };
                    let url = self.assets[index].resolve_under(base.as_str());
                    e.append(url.as_str());
                    e
                },
                FetchOutcome::TransportError { message } => message,
            };
            let record = FailedDownload {
                filename: self.assets[index].filename.clone(),
                path: self.assets[index].path.clone(),
                error,
                timestamp: now,
            };
            proof {
                lemma_count_state_update(
                    self.tasks@,
                    index as int,
                    Task { state: TaskState::Failed, attempts },
                    TaskState::InFlight,
                );
                lemma_count_state_update(
                    self.tasks@,
                    index as int,
                    Task { state: TaskState::Failed, attempts },
                    TaskState::Failed,
                );
            }
            self.tasks.set(index, Task { state: TaskState::Failed, attempts });
            self.failures.push(record);
            FinishDecision::Exhausted
        }
    }

    /// Hands out the accumulated failure records, consuming the scheduler:
    /// the one-time end-of-run drain.
    pub fn drain(self) -> (r: Vec<FailedDownload>)
        ensures
            r@ == self.failures@,
    {
        self.failures
    }
}

/// Concurrency bound: in every reachable scheduler state, the number of
/// tasks in flight never exceeds `max_concurrent`.
pub proof fn lemma_concurrency_bound(d: Downloader)
    requires
        d.wf(),
    ensures
        count_state(d.tasks@, TaskState::InFlight) <= d.config.max_concurrent,
{
}

/// Retry bound: no task ever makes more than `max_retries` fetch attempts;
/// a failed task made exactly `max_retries` (or none, when rejected before
/// fetching); and the failure recorder holds exactly one record per failed
/// task.
pub proof fn lemma_retry_bound(d: Downloader)
    requires
        d.wf(),
    ensures
        forall|i: int|
            0 <= i < d.tasks@.len() ==> (#[trigger] d.tasks@[i]).attempts
                <= d.config.max_retries,
        forall|i: int|
            0 <= i < d.tasks@.len() && (#[trigger] d.tasks@[i]).state == TaskState::Failed ==> (
            d.tasks@[i].attempts == d.config.max_retries || d.tasks@[i].attempts == 0),
        d.failures@.len() == count_state(d.tasks@, TaskState::Failed),
{
}

} // verus!
