use cli_file_sync::downloader::{
    backoff_delay, basic_auth_header, get_download_url, DownloadConfig, Downloader, FetchOutcome,
    FinishDecision, StartOutcome,
};
use cli_file_sync::schema::DrupalFileAsset;

fn asset(id: &str, filename: &str, path: &str, size: Option<u64>) -> DrupalFileAsset {
    DrupalFileAsset {
        id: id.to_string(),
        filename: filename.to_string(),
        uri: format!("public://{}", filename),
        path: path.to_string(),
        mime: "application/octet-stream".to_string(),
        size,
        created: 0,
        changed: 0,
        scheme: "public".to_string(),
    }
}

fn config(max_concurrent: usize, max_retries: usize) -> DownloadConfig {
    let mut c = DownloadConfig::default();
    c.max_concurrent = max_concurrent;
    c.max_retries = max_retries;
    c.base_url = Some("http://example.test/files/".to_string());
    c
}

#[test]
fn default_config_matches_documented_values() {
    let c = DownloadConfig::default();
    assert_eq!(c.max_concurrent, 4);
    assert_eq!(c.download_delay, 100);
    assert_eq!(c.download_timeout, 30);
    assert_eq!(c.max_retries, 3);
    assert!(c.max_file_size.is_none());
    assert!(c.base_url.is_none());
    assert!(c.username.is_none());
    assert!(c.password.is_none());
}

#[test]
fn backoff_doubles_per_attempt() {
    assert_eq!(backoff_delay(1), 1);
    assert_eq!(backoff_delay(2), 2);
    assert_eq!(backoff_delay(3), 4);
    assert_eq!(backoff_delay(11), 1024);
    assert_eq!(backoff_delay(64), 1u64 << 63);
    assert_eq!(backoff_delay(65), u64::MAX);
    assert_eq!(backoff_delay(200), u64::MAX);
}

#[test]
fn basic_auth_header_encodes_credentials() {
    assert_eq!(basic_auth_header("user", "pass"), "Basic dXNlcjpwYXNz");
    assert_eq!(basic_auth_header("", ""), "Basic Og==");
}

#[test]
fn download_url_joins_base_and_path() {
    let a = asset("1", "a.png", "/img/a.png", None);
    let c = config(4, 3);
    assert_eq!(
        get_download_url(&a, &c),
        Ok("http://example.test/files/img/a.png".to_string())
    );
}

#[test]
fn download_url_uses_filename_when_path_empty() {
    let a = asset("1", "a.png", "", None);
    let c = config(4, 3);
    assert_eq!(
        get_download_url(&a, &c),
        Ok("http://example.test/files/a.png".to_string())
    );
}

#[test]
fn download_url_requires_base_url() {
    let a = asset("1", "a.png", "/img/a.png", None);
    let c = DownloadConfig::default();
    assert_eq!(
        get_download_url(&a, &c),
        Err("Base URL is required for downloading assets".to_string())
    );
}

#[test]
fn oversized_record_is_rejected_without_fetch() {
    let mut c = config(4, 3);
    c.max_file_size = Some(10);
    let mut d = Downloader::new(c);
    d.begin_run(vec![asset("big", "big.bin", "", Some(100))], "/data".to_string());
    match d.start_next(1000) {
        Some(StartOutcome::Rejected(0)) => {}
        other => panic!("expected a rejection, got {:?}", describe(&other)),
    }
    assert!(d.is_done());
    let failures = d.drain();
    assert_eq!(failures.len(), 1);
    assert_eq!(failures[0].filename, "big.bin");
    assert_eq!(failures[0].error, "declared size 100 exceeds limit 10");
    assert_eq!(failures[0].timestamp, 1000);
}

#[test]
fn zero_retry_cap_rejects_without_fetch() {
    let mut d = Downloader::new(config(4, 0));
    d.begin_run(vec![asset("a", "a.bin", "", None)], "/data".to_string());
    match d.start_next(0) {
        Some(StartOutcome::Rejected(0)) => {}
        other => panic!("expected a rejection, got {:?}", describe(&other)),
    }
    let failures = d.drain();
    assert_eq!(failures.len(), 1);
    assert_eq!(failures[0].error, "no download attempts permitted");
}

#[test]
fn always_failing_fetch_is_attempted_exactly_max_retries_times() {
    let mut d = Downloader::new(config(4, 3));
    d.begin_run(vec![asset("a", "a.bin", "/a.bin", None)], "/data".to_string());
    let mut fetches = 0;
    let job = match d.start_next(0) {
        Some(StartOutcome::Fetch(job)) => job,
        other => panic!("expected a fetch job, got {:?}", describe(&other)),
    };
    fetches += 1;
    let mut backoffs = Vec::new();
    loop {
        match d.finish(job.index, FetchOutcome::HttpStatus { status: 500 }, 7) {
            FinishDecision::Retry { backoff } => {
                backoffs.push(backoff);
                fetches += 1;
            }
            FinishDecision::Exhausted => break,
            FinishDecision::Completed => panic!("a failing fetch cannot complete"),
        }
    }
    assert_eq!(fetches, 3);
    assert_eq!(backoffs, vec![1, 2]);
    assert!(d.is_done());
    let failures = d.drain();
    assert_eq!(failures.len(), 1);
    assert_eq!(failures[0].error, "HTTP 500 for http://example.test/files/a.bin");
    assert_eq!(failures[0].timestamp, 7);
}

#[test]
fn concurrency_cap_holds_admissions_back() {
    let mut d = Downloader::new(config(2, 3));
    d.begin_run(
        vec![
            asset("a", "a.bin", "/a.bin", Some(1)),
            asset("b", "b.bin", "/b.bin", Some(1)),
            asset("c", "c.bin", "/c.bin", Some(1)),
        ],
        "/data".to_string(),
    );
    let j0 = match d.start_next(0) {
        Some(StartOutcome::Fetch(j)) => j,
        other => panic!("expected a fetch job, got {:?}", describe(&other)),
    };
    let _j1 = match d.start_next(0) {
        Some(StartOutcome::Fetch(j)) => j,
        other => panic!("expected a fetch job, got {:?}", describe(&other)),
    };
    assert_eq!(d.in_flight_count(), 2);
    assert!(d.start_next(0).is_none(), "the cap must hold the third task back");
    assert_eq!(
        d.finish(j0.index, FetchOutcome::Delivered { length: 1 }, 0),
        FinishDecision::Completed
    );
    match d.start_next(0) {
        Some(StartOutcome::Fetch(j)) => assert_eq!(j.index, 2),
        other => panic!("expected the third task, got {:?}", describe(&other)),
    }
}

#[test]
fn successful_batch_drains_no_failures() {
    let mut d = Downloader::new(config(4, 3));
    d.begin_run(
        vec![
            asset("a", "a.bin", "", Some(11)),
            asset("b", "b.bin", "/sub/b.bin", Some(22)),
            asset("c", "c.bin", "", Some(33)),
        ],
        "/data".to_string(),
    );
    let mut jobs = Vec::new();
    while let Some(outcome) = d.start_next(0) {
        match outcome {
            StartOutcome::Fetch(j) => jobs.push(j),
            StartOutcome::Rejected(i) => panic!("task {} must not be rejected", i),
        }
    }
    assert_eq!(jobs.len(), 3);
    assert_eq!(jobs[0].dest_path, "/data/a.bin");
    assert_eq!(jobs[0].url, "http://example.test/files/a.bin");
    assert_eq!(jobs[1].dest_path, "/data/sub/b.bin");
    assert_eq!(jobs[1].url, "http://example.test/files/sub/b.bin");
    assert_eq!(jobs[2].dest_path, "/data/c.bin");
    let lengths = [11u64, 22, 33];
    for j in &jobs {
        assert_eq!(
            d.finish(j.index, FetchOutcome::Delivered { length: lengths[j.index] }, 0),
            FinishDecision::Completed
        );
    }
    assert!(d.is_done());
    assert!(d.drain().is_empty());
}

#[test]
fn size_mismatch_is_retried_and_recorded() {
    let mut d = Downloader::new(config(1, 2));
    d.begin_run(vec![asset("a", "a.bin", "", Some(10))], "/data".to_string());
    let job = match d.start_next(0) {
        Some(StartOutcome::Fetch(j)) => j,
        other => panic!("expected a fetch job, got {:?}", describe(&other)),
    };
    assert!(matches!(
        d.finish(job.index, FetchOutcome::Delivered { length: 7 }, 0),
        FinishDecision::Retry { backoff: 1 }
    ));
    assert_eq!(
        d.finish(job.index, FetchOutcome::Delivered { length: 7 }, 0),
        FinishDecision::Exhausted
    );
    let failures = d.drain();
    assert_eq!(failures.len(), 1);
    assert_eq!(failures[0].error, "size mismatch: expected 10, got 7");
}

#[test]
fn auth_header_is_attached_when_credentials_are_set() {
    let mut c = config(1, 1);
    c.username = Some("user".to_string());
    c.password = Some("pass".to_string());
    let mut d = Downloader::new(c);
    d.begin_run(vec![asset("a", "a.bin", "/a.bin", None)], "/data".to_string());
    match d.start_next(0) {
        Some(StartOutcome::Fetch(j)) => {
            assert_eq!(j.auth_header.as_deref(), Some("Basic dXNlcjpwYXNz"));
            assert_eq!(j.timeout, 30);
        }
        other => panic!("expected a fetch job, got {:?}", describe(&other)),
    }
}

#[test]
fn transport_error_message_is_kept() {
    let mut d = Downloader::new(config(1, 1));
    d.begin_run(vec![asset("a", "a.bin", "", None)], "/data".to_string());
    let job = match d.start_next(0) {
        Some(StartOutcome::Fetch(j)) => j,
        other => panic!("expected a fetch job, got {:?}", describe(&other)),
    };
    let decision = d.finish(
        job.index,
        FetchOutcome::TransportError { message: "connection reset".to_string() },
        3,
    );
    assert_eq!(decision, FinishDecision::Exhausted);
    let failures = d.drain();
    assert_eq!(failures[0].error, "connection reset");
}

fn describe(outcome: &Option<StartOutcome>) -> String {
    match outcome {
        None => "no admission".to_string(),
        Some(StartOutcome::Fetch(j)) => format!("fetch of task {}", j.index),
        Some(StartOutcome::Rejected(i)) => format!("rejection of task {}", i),
    }
}
