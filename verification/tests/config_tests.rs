use prometheus_mcp::prometheus_config::PrometheusConfig;
use std::time::Duration;

#[test]
fn test_from_env_defaults_and_overrides() {
    let empty: Vec<(&str, &str)> = Vec::new();
    let cfg = PrometheusConfig::from_map(&empty);
    assert_eq!(cfg.url, "http://localhost:9090");

    let mut vars: Vec<(&str, &str)> = Vec::new();
    vars.push(("PROMETHEUS_URL", "http://example:9090"));
    vars.push(("PROMETHEUS_TIMEOUT", "5"));
    vars.push(("PROMETHEUS_RETRIES", "2"));
    vars.push(("PROMETHEUS_RETRY_BACKOFF_MS", "10"));
    vars.push(("PROMETHEUS_MIN_INTERVAL_MS", "20"));
    vars.push(("PROMETHEUS_CACHE_TTL_SECS", "30"));
    vars.push(("PROMETHEUS_USERNAME", "u"));
    vars.push(("PROMETHEUS_PASSWORD", "p"));

    let cfg = PrometheusConfig::from_map(&vars);
    assert_eq!(cfg.url, "http://example:9090");
    assert_eq!(cfg.timeout, std::time::Duration::from_secs(5));
    assert_eq!(cfg.retries, 2);
    assert_eq!(cfg.retry_backoff_ms, 10);
    assert_eq!(cfg.min_request_interval_ms, Some(20));
    assert_eq!(cfg.cache_ttl_secs, Some(30));
    assert_eq!(cfg.username.as_deref(), Some("u"));
    assert_eq!(cfg.password.as_deref(), Some("p"));
}

#[test]
fn from_map_without_settings_gives_the_defaults() {
    let cfg = PrometheusConfig::from_map(&[]);
    assert_eq!(cfg.url, "http://localhost:9090");
    assert_eq!(cfg.timeout, Duration::from_secs(10));
    assert_eq!(cfg.retries, 3);
    assert_eq!(cfg.retry_backoff_ms, 500);
    assert_eq!(cfg.min_request_interval_ms, None);
    assert_eq!(cfg.cache_ttl_secs, None);
    assert_eq!(cfg.username, None);
    assert_eq!(cfg.password, None);
}

#[test]
fn from_map_passes_over_numbers_that_do_not_parse() {
    let cfg = PrometheusConfig::from_map(&[
        ("PROMETHEUS_TIMEOUT", "soon"),
        ("PROMETHEUS_RETRIES", "-1"),
        ("PROMETHEUS_RETRY_BACKOFF_MS", " 10"),
        ("PROMETHEUS_MIN_INTERVAL_MS", ""),
        ("PROMETHEUS_CACHE_TTL_SECS", "18446744073709551616"),
    ]);
    assert_eq!(cfg.timeout, Duration::from_secs(10));
    assert_eq!(cfg.retries, 3);
    assert_eq!(cfg.retry_backoff_ms, 500);
    assert_eq!(cfg.min_request_interval_ms, None);
    assert_eq!(cfg.cache_ttl_secs, None);
}

#[test]
fn from_map_reads_numbers_as_std_does() {
    let cfg = PrometheusConfig::from_map(&[
        ("PROMETHEUS_TIMEOUT", "+7"),
        ("PROMETHEUS_RETRIES", "4294967295"),
        ("PROMETHEUS_RETRY_BACKOFF_MS", "007"),
        ("PROMETHEUS_CACHE_TTL_SECS", "18446744073709551615"),
    ]);
    assert_eq!(cfg.timeout, Duration::from_secs(7));
    assert_eq!(cfg.retries, u32::MAX);
    assert_eq!(cfg.retry_backoff_ms, 7);
    assert_eq!(cfg.cache_ttl_secs, Some(u64::MAX));

    let cfg = PrometheusConfig::from_map(&[("PROMETHEUS_RETRIES", "4294967296")]);
    assert_eq!(cfg.retries, 3);
}

#[test]
fn from_map_takes_the_first_of_two_settings_with_one_name() {
    let cfg = PrometheusConfig::from_map(&[
        ("PROMETHEUS_URL", "http://first:9090"),
        ("PROMETHEUS_URL", "http://second:9090"),
    ]);
    assert_eq!(cfg.url, "http://first:9090");
}

#[test]
fn default_is_the_local_server() {
    let cfg = PrometheusConfig::default();
    assert_eq!(cfg.url, "http://localhost:9090");
    assert_eq!(cfg.timeout, Duration::from_secs(10));
    assert_eq!(cfg.retries, 3);
    assert_eq!(cfg.retry_backoff_ms, 500);
}

#[test]
fn builders_set_one_field_each() {
    let cfg = PrometheusConfig::with_url("http://prom:9090".to_string())
        .with_timeout(3)
        .with_retries(7)
        .with_retry_backoff_ms(250)
        .with_min_interval_ms(40)
        .with_cache_ttl_secs(60)
        .with_basic_auth("alice", "secret");
    assert_eq!(cfg.url, "http://prom:9090");
    assert_eq!(cfg.timeout, Duration::from_secs(3));
    assert_eq!(cfg.retries, 7);
    assert_eq!(cfg.retry_backoff_ms, 250);
    assert_eq!(cfg.min_request_interval_ms, Some(40));
    assert_eq!(cfg.cache_ttl_secs, Some(60));
    assert_eq!(cfg.username.as_deref(), Some("alice"));
    assert_eq!(cfg.password.as_deref(), Some("secret"));
}

#[test]
fn with_url_keeps_the_other_defaults() {
    let cfg = PrometheusConfig::with_url("http://prom:9090".to_string());
    assert_eq!(cfg.timeout, Duration::from_secs(10));
    assert_eq!(cfg.retries, 3);
    assert_eq!(cfg.retry_backoff_ms, 500);
    assert_eq!(cfg.min_request_interval_ms, None);
    assert_eq!(cfg.cache_ttl_secs, None);
    assert_eq!(cfg.username, None);
}
