use batch_get::config::{BatchConfig, ConfigError};
use batch_get::progress::ProgressBar;
use batch_get::transport::{build_client, default_headers};
use batch_get::worker::{add_worker, plan_workers, settle_workers, BatchError, RequestOutcome, WorkerExit, WorkerRun};

fn config(total: usize, workers: usize, proxy: Option<&str>) -> BatchConfig {
    BatchConfig::new(total, workers, "http://localhost:1/".to_string(), proxy.map(|p| p.to_string()))
        .unwrap()
}

#[test]
fn zero_requests_rejected() {
    let r = BatchConfig::new(0, 4, "http://example.com".to_string(), None);
    assert_eq!(r.unwrap_err(), ConfigError::ZeroRequests);
}

#[test]
fn zero_workers_rejected() {
    let r = BatchConfig::new(100, 0, "http://example.com".to_string(), None);
    assert_eq!(r.unwrap_err(), ConfigError::ZeroWorkers);
}

#[test]
fn valid_config_keeps_its_values() {
    let c = BatchConfig::new(100, 4, "http://example.com".to_string(), Some("socks5h://localhost:9050".to_string()))
        .unwrap();
    assert_eq!(c.total_requests(), 100);
    assert_eq!(c.worker_count(), 4);
    assert_eq!(c.url(), "http://example.com");
    assert_eq!(c.proxy().as_deref(), Some("socks5h://localhost:9050"));
}

#[test]
fn default_headers_hold_the_three_fixed_values() {
    let h = default_headers();
    assert_eq!(h.len(), 3);
    assert_eq!(h.get("accept").unwrap(), "*/*");
    assert_eq!(h.get("connection").unwrap(), "keep-alive");
    assert_eq!(
        h.get("user-agent").unwrap(),
        "Mozilla/5.0 (Windows NT 10.0; WOW64; rv:70.0) Gecko/20100101 Firefox/70.0"
    );
}

#[test]
fn malformed_proxy_is_a_configuration_error() {
    let r = build_client(&Some("http://[".to_string()));
    assert_eq!(r.err(), Some(ConfigError::InvalidProxy));
}

#[test]
fn well_formed_proxy_builds() {
    assert!(build_client(&Some("socks5h://localhost:9050".to_string())).is_ok());
    assert!(build_client(&None).is_ok());
}

#[test]
fn malformed_proxy_stops_the_plan() {
    let r = plan_workers(&config(10, 3, Some("http://[")));
    assert_eq!(r.err(), Some(ConfigError::InvalidProxy));
}

#[test]
fn plan_follows_the_shares() {
    let plans = plan_workers(&config(10, 3, None)).unwrap();
    let runs: Vec<WorkerRun> = plans.iter().map(|p| p.run).collect();
    assert_eq!(
        runs,
        vec![WorkerRun::new(0, 4), WorkerRun::new(1, 3), WorkerRun::new(2, 3)]
    );
}

#[test]
fn plan_skips_workers_without_requests() {
    let plans = plan_workers(&config(2, 5, None)).unwrap();
    let runs: Vec<WorkerRun> = plans.iter().map(|p| p.run).collect();
    assert_eq!(runs, vec![WorkerRun::new(0, 1), WorkerRun::new(1, 1)]);
}

#[test]
fn one_request_one_worker_reports_one_of_one() {
    let plans = plan_workers(&config(1, 1, None)).unwrap();
    assert_eq!(plans.len(), 1);
    let mut run = plans[0].run;
    let mut progress = ProgressBar::new(1);
    let mut attempts = 0;
    while run.has_next() {
        let report = run.record_attempt(&mut progress, RequestOutcome::Success { status: 200, body: None });
        attempts += 1;
        assert_eq!((report.completed, report.total), (1, 1));
        assert_eq!(report.failure, None);
    }
    assert_eq!(attempts, 1);
    assert!(progress.is_complete());
}

#[test]
fn failing_requests_still_complete_the_batch() {
    let plans = plan_workers(&config(7, 3, None)).unwrap();
    let mut progress = ProgressBar::new(7);
    let mut failures = 0;
    let mut exits = Vec::new();
    for plan in plans {
        let mut run = plan.run;
        while run.has_next() {
            let report = run.record_attempt(
                &mut progress,
                RequestOutcome::Failure { description: "connection refused".to_string() },
            );
            assert_eq!(report.failure.as_deref(), Some("connection refused"));
            failures += 1;
        }
        exits.push(WorkerExit::Finished);
    }
    assert_eq!(failures, 7);
    assert_eq!(progress.current_value(), 7);
    assert!(progress.is_complete());
    assert!(settle_workers(&exits).is_ok());
}

#[test]
fn first_fault_is_surfaced() {
    let exits = vec![
        WorkerExit::Finished,
        WorkerExit::Faulted("task 1 panicked".to_string()),
        WorkerExit::Faulted("task 2 cancelled".to_string()),
    ];
    match settle_workers(&exits) {
        Err(BatchError::Join(m)) => assert_eq!(m, "task 1 panicked"),
        other => panic!("unexpected {:?}", other),
    }
}

#[test]
fn no_workers_settle_fine() {
    assert!(settle_workers(&Vec::new()).is_ok());
}

#[test]
fn built_client_joins_the_plan() {
    let mut plans = Vec::new();
    let r = add_worker(&mut plans, WorkerRun::new(0, 4), Ok(reqwest::Client::new()));
    assert_eq!(r, Ok(()));
    assert_eq!(plans.len(), 1);
    assert_eq!(plans[0].run, WorkerRun::new(0, 4));
}

#[test]
fn failed_build_leaves_the_plan_unchanged() {
    let mut plans = Vec::new();
    add_worker(&mut plans, WorkerRun::new(0, 4), Ok(reqwest::Client::new())).unwrap();
    let r = add_worker(&mut plans, WorkerRun::new(1, 3), Err(ConfigError::TransportBuild));
    assert_eq!(r, Err(ConfigError::TransportBuild));
    assert_eq!(plans.len(), 1);
    assert_eq!(plans[0].run, WorkerRun::new(0, 4));
}
