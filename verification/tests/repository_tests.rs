use prometheus_mcp::prometheus_client::{HttpReply, PrometheusError, Retry, TransportError};
use prometheus_mcp::prometheus_config::PrometheusConfig;
use prometheus_mcp::repository::{get_repository, HttpPrometheusRepository, Lookup, Repository};

const SECOND: u64 = 1_000_000_000;

fn repository(ttl_secs: Option<u64>) -> HttpPrometheusRepository {
    let config = PrometheusConfig::with_url("http://prom:9090".to_string());
    HttpPrometheusRepository::new(match ttl_secs {
        Some(secs) => config.with_cache_ttl_secs(secs),
        None => config,
    })
}

fn names(items: &[&str]) -> Vec<String> {
    items.iter().map(|s| s.to_string()).collect()
}

/// Reads the metric names at `now`, fetching `upstream` where nothing fresh is kept.
fn read_metrics(
    repo: &mut HttpPrometheusRepository,
    now: u64,
    upstream: &[&str],
    fetches: &mut u32,
) -> Vec<String> {
    match repo.cached_metrics(now) {
        Some(kept) => kept,
        None => {
            *fetches += 1;
            let fresh = names(upstream);
            repo.store_metrics(now, &fresh);
            fresh
        }
    }
}

fn read_label(
    repo: &mut HttpPrometheusRepository,
    label: &str,
    now: u64,
    upstream: &[&str],
    fetches: &mut u32,
) -> Vec<String> {
    match repo.cached_label_values(label, now) {
        Some(kept) => kept,
        None => {
            *fetches += 1;
            let fresh = names(upstream);
            repo.store_label_values(label, now, &fresh);
            fresh
        }
    }
}

#[test]
fn a_read_after_a_write_within_the_ttl_finds_what_was_written() {
    let mut repo = repository(Some(30));
    assert!(repo.cached_metrics(0).is_none());
    repo.store_metrics(5 * SECOND, &names(&["up", "go_info"]));
    assert_eq!(repo.cached_metrics(5 * SECOND), Some(names(&["up", "go_info"])));
    assert_eq!(repo.cached_metrics(20 * SECOND), Some(names(&["up", "go_info"])));
    assert_eq!(repo.cached_metrics(35 * SECOND), Some(names(&["up", "go_info"])));
    assert_eq!(repo.cached_metrics(35 * SECOND + 1), None);
    assert_eq!(repo.cached_metrics(4 * SECOND), Some(names(&["up", "go_info"])));
}

#[test]
fn a_read_after_the_ttl_fetches_exactly_once() {
    let mut repo = repository(Some(10));
    let mut fetches = 0;
    assert_eq!(read_metrics(&mut repo, 0, &["a"], &mut fetches), names(&["a"]));
    assert_eq!(fetches, 1);
    assert_eq!(read_metrics(&mut repo, 10 * SECOND, &["b"], &mut fetches), names(&["a"]));
    assert_eq!(fetches, 1);
    assert_eq!(read_metrics(&mut repo, 10 * SECOND + 1, &["c"], &mut fetches), names(&["c"]));
    assert_eq!(fetches, 2);
    assert_eq!(read_metrics(&mut repo, 15 * SECOND, &["d"], &mut fetches), names(&["c"]));
    assert_eq!(read_metrics(&mut repo, 20 * SECOND + 1, &["e"], &mut fetches), names(&["c"]));
    assert_eq!(fetches, 2);
}

#[test]
fn with_a_ttl_of_zero_every_read_fetches() {
    for ttl in [Some(0), None] {
        let mut repo = repository(ttl);
        let mut fetches = 0;
        let mut reads = 0;
        for now in [0, 1, 1, 2 * SECOND, 2 * SECOND, 100 * SECOND] {
            let upstream = format!("at-{}", now);
            assert_eq!(
                read_metrics(&mut repo, now, &[upstream.as_str()], &mut fetches),
                vec![upstream.clone()]
            );
            assert_eq!(
                read_label(&mut repo, "job", now, &[upstream.as_str()], &mut fetches),
                vec![upstream]
            );
            reads += 2;
        }
        assert_eq!(fetches, reads);
    }
}

#[test]
fn each_label_has_a_slot_of_its_own() {
    let mut repo = repository(Some(60));
    let mut fetches = 0;
    assert_eq!(read_label(&mut repo, "job", 0, &["node"], &mut fetches), names(&["node"]));
    assert_eq!(read_label(&mut repo, "instance", SECOND, &["a:1"], &mut fetches), names(&["a:1"]));
    assert_eq!(fetches, 2);
    assert_eq!(read_label(&mut repo, "job", 2 * SECOND, &["x"], &mut fetches), names(&["node"]));
    assert_eq!(read_label(&mut repo, "instance", 2 * SECOND, &["x"], &mut fetches), names(&["a:1"]));
    assert_eq!(fetches, 2);
    assert!(repo.cached_label_values("Job", 2 * SECOND).is_none());
    assert!(repo.cached_metrics(2 * SECOND).is_none());

    assert_eq!(read_label(&mut repo, "job", 61 * SECOND, &["fresh"], &mut fetches), names(&["fresh"]));
    assert_eq!(fetches, 3);
    assert_eq!(repo.cached_label_values("instance", 61 * SECOND), Some(names(&["a:1"])));
    assert_eq!(repo.cached_label_values("instance", 61 * SECOND + 1), None);
    assert_eq!(repo.cached_label_values("job", 100 * SECOND), Some(names(&["fresh"])));
}

#[test]
fn storing_again_replaces_what_was_kept() {
    let mut repo = repository(Some(60));
    repo.store_label_values("job", 0, &names(&["a"]));
    repo.store_label_values("job", SECOND, &names(&["b", "c"]));
    assert_eq!(repo.cached_label_values("job", 2 * SECOND), Some(names(&["b", "c"])));
    repo.store_metrics(0, &names(&["x"]));
    repo.store_metrics(SECOND, &names(&[]));
    assert_eq!(repo.cached_metrics(SECOND), Some(names(&[])));
}

#[test]
fn expiry_is_counted_in_nanoseconds() {
    assert!(!HttpPrometheusRepository::is_expired(0, SECOND, 1));
    assert!(HttpPrometheusRepository::is_expired(0, SECOND + 1, 1));
    assert!(!HttpPrometheusRepository::is_expired(0, u64::MAX, 0));
    assert!(!HttpPrometheusRepository::is_expired(10, 5, 1));
    assert!(!HttpPrometheusRepository::is_expired(0, u64::MAX, u64::MAX));
    assert!(HttpPrometheusRepository::is_expired(7, 7 + 3 * SECOND + 1, 3));
}

#[test]
fn the_repository_keeps_the_client_of_its_configuration() {
    let repo = repository(Some(5));
    assert_eq!(repo.client().config.url, "http://prom:9090");
    assert_eq!(repo.client().list_metrics().url, "http://prom:9090/api/v1/label/__name__/values");
}

#[test]
fn a_repository_that_could_not_be_set_up_fails_every_call() {
    let repo = get_repository(Err(PrometheusError::BuildClientError("bad timeout".into())));
    match repo.failure() {
        Some(PrometheusError::ApiError(m)) => {
            assert_eq!(m, "Repository init error: BuildClientError(\"bad timeout\")")
        }
        other => panic!("not the failure of the set-up: {:?}", other),
    }
    let repo = get_repository(Ok(repository(None)));
    assert!(repo.failure().is_none());
    assert!(matches!(repo, Repository::Http(_)));
}

fn answer(body: &str) -> Result<HttpReply, TransportError> {
    Ok(HttpReply { status: 200, status_text: "200 OK".into(), body: Some(body.into()) })
}

fn refused() -> Result<HttpReply, TransportError> {
    Err(TransportError { display: "connection refused".into(), debug: "Refused".into() })
}

#[test]
fn the_metric_names_are_fetched_once_and_then_handed_out() {
    let mut repo = repository(Some(60));
    match repo.list_metrics(0) {
        Lookup::Fetch(plan) => {
            assert_eq!(plan.url, "http://prom:9090/api/v1/label/__name__/values");
            assert_eq!(plan.pace_ms, None);
        }
        other => panic!("nothing is kept yet: {:?}", other),
    }
    let names = repo.list_metrics_fetched(SECOND, answer("{\"data\":[\"up\"]}")).expect("names");
    assert_eq!(names, vec!["up"]);
    match repo.list_metrics(30 * SECOND) {
        Lookup::Cached(kept) => assert_eq!(kept, vec!["up"]),
        other => panic!("the names are kept: {:?}", other),
    }
    assert!(matches!(repo.list_metrics(61 * SECOND + 1), Lookup::Fetch(_)));
}

#[test]
fn a_failed_fetch_keeps_nothing() {
    let mut repo = repository(Some(60));
    assert!(matches!(
        repo.list_metrics_fetched(0, refused()),
        Err(PrometheusError::ReqwestError(_))
    ));
    assert!(matches!(repo.list_metrics(1), Lookup::Fetch(_)));
    repo.store_metrics(0, &names(&["up"]));
    assert!(matches!(
        repo.list_metrics_fetched(SECOND, answer("not json")),
        Err(PrometheusError::ParseError(_))
    ));
    match repo.list_metrics(2 * SECOND) {
        Lookup::Cached(kept) => assert_eq!(kept, vec!["up"]),
        other => panic!("the names are still kept: {:?}", other),
    }
    assert!(matches!(
        repo.label_values_fetched("job", 0, refused()),
        Err(PrometheusError::ReqwestError(_))
    ));
    assert!(matches!(repo.get_label_values("job", 1), Lookup::Fetch(_)));
}

#[test]
fn the_values_of_a_label_are_kept_by_label() {
    let mut repo = repository(Some(60));
    match repo.get_label_values("job", 0) {
        Lookup::Fetch(plan) => assert_eq!(plan.url, "http://prom:9090/api/v1/label/job/values"),
        other => panic!("nothing is kept yet: {:?}", other),
    }
    let values = repo
        .label_values_fetched("job", 0, answer("{\"data\":[\"node\",\"db\"]}"))
        .expect("values");
    assert_eq!(values, vec!["node", "db"]);
    assert!(matches!(repo.get_label_values("job", SECOND), Lookup::Cached(_)));
    assert!(matches!(repo.get_label_values("instance", SECOND), Lookup::Fetch(_)));
}

#[test]
fn without_a_ttl_a_fetch_is_asked_for_every_time() {
    let mut repo = repository(None);
    for now in [0, 1, 2] {
        assert!(matches!(repo.list_metrics(now), Lookup::Fetch(_)));
        repo.list_metrics_fetched(now, answer("{\"data\":[\"up\"]}")).expect("names");
        assert!(matches!(repo.get_label_values("job", now), Lookup::Fetch(_)));
        repo.label_values_fetched("job", now, answer("{\"data\":[]}")).expect("values");
    }
}

#[test]
fn queries_and_the_other_calls_are_never_kept() {
    let config = PrometheusConfig::with_url("http://prom:9090".to_string())
        .with_cache_ttl_secs(60)
        .with_retries(2)
        .with_retry_backoff_ms(5)
        .with_min_interval_ms(3);
    let repo = HttpPrometheusRepository::new(config);
    let (plan, state) = repo.query("up", Some("7"));
    assert_eq!(plan.url, "http://prom:9090/api/v1/query");
    assert_eq!(plan.pace_ms, Some(3));
    assert!(matches!(state, Retry::Attempt { backoff_ms: None, remaining: 2 }));
    let state = repo.retry_after(2, Err(PrometheusError::ApiError("x".into())));
    assert!(matches!(state, Retry::Attempt { backoff_ms: Some(5), remaining: 1 }));
    let state = repo.retry_after(1, Err(PrometheusError::ApiError("y".into())));
    match state {
        Retry::Done { result: Err(PrometheusError::ApiError(m)) } => {
            assert_eq!(m, "y")
        }
        other => panic!("not the end: {:?}", other),
    }
    let (plan, _) = repo.query_range("up", "0", "1", "15s");
    assert_eq!(plan.url, "http://prom:9090/api/v1/query_range");
    assert_eq!(repo.get_metadata("up").url, "http://prom:9090/api/v1/metadata");
    assert_eq!(repo.get_metadata("up").pace_ms, None);
    assert_eq!(repo.get_series(&names(&["up"])).url, "http://prom:9090/api/v1/series");
}
