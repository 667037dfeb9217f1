use prometheus_mcp::json::Json;
use prometheus_mcp::prometheus_client::{
    HttpReply, PrometheusClient, PrometheusError, Retry, TransportError,
};
use prometheus_mcp::prometheus_config::PrometheusConfig;
use prometheus_mcp::query_result::PrometheusQueryResult;
use prometheus_mcp::tools::prometheus_query;

fn client() -> PrometheusClient {
    PrometheusClient::new(PrometheusConfig::with_url("http://prom:9090".to_string()))
}

fn ok(body: &str) -> HttpReply {
    HttpReply { status: 200, status_text: "200 OK".into(), body: Some(body.into()) }
}

fn pairs(params: &[(String, String)]) -> Vec<(&str, &str)> {
    params.iter().map(|(k, v)| (k.as_str(), v.as_str())).collect()
}

fn unreachable_host() -> TransportError {
    TransportError {
        display: "error sending request".into(),
        debug: "reqwest::Error { kind: Request }".into(),
    }
}

const PARSE: &str = "Failed to parse Prometheus response: error decoding response body";

#[test]
fn the_query_goes_to_the_query_endpoint_and_is_paced() {
    let paced = PrometheusClient::new(
        PrometheusConfig::with_url("http://prom:9090".to_string()).with_min_interval_ms(25),
    );
    let plan = paced.query("up", None);
    assert_eq!(plan.url, "http://prom:9090/api/v1/query");
    assert_eq!(pairs(&plan.params), vec![("query", "up")]);
    assert_eq!(plan.pace_ms, Some(25));
    assert!(plan.basic_auth.is_none());

    let plan = paced.query("up", Some("1700000000"));
    assert_eq!(pairs(&plan.params), vec![("query", "up"), ("time", "1700000000")]);

    let plan = paced.query_range("rate(x[5m])", "0", "60", "15s");
    assert_eq!(plan.url, "http://prom:9090/api/v1/query_range");
    assert_eq!(
        pairs(&plan.params),
        vec![("query", "rate(x[5m])"), ("start", "0"), ("end", "60"), ("step", "15s")]
    );
    assert_eq!(plan.pace_ms, Some(25));
    assert_eq!(client().query("up", None).pace_ms, None);
}

#[test]
fn the_discovery_calls_are_not_paced() {
    let paced = PrometheusClient::new(
        PrometheusConfig::with_url("http://prom:9090".to_string()).with_min_interval_ms(25),
    );
    let plan = paced.list_metrics();
    assert_eq!(plan.url, "http://prom:9090/api/v1/label/__name__/values");
    assert!(plan.params.is_empty());
    assert_eq!(plan.pace_ms, None);

    let plan = paced.get_metadata("up");
    assert_eq!(plan.url, "http://prom:9090/api/v1/metadata");
    assert_eq!(pairs(&plan.params), vec![("metric", "up")]);
    assert_eq!(plan.pace_ms, None);

    let plan = paced.get_series(&vec!["up".to_string(), "go_info{job=\"a\"}".to_string()]);
    assert_eq!(plan.url, "http://prom:9090/api/v1/series");
    assert_eq!(pairs(&plan.params), vec![("match[]", "up"), ("match[]", "go_info{job=\"a\"}")]);
    assert_eq!(plan.pace_ms, None);

    let plan = paced.get_label_values("job");
    assert_eq!(plan.url, "http://prom:9090/api/v1/label/job/values");
    assert!(plan.params.is_empty());
    assert_eq!(plan.pace_ms, None);
}

#[test]
fn credentials_go_with_a_request_only_when_both_are_set() {
    let both = PrometheusClient::new(
        PrometheusConfig::with_url("http://prom:9090".to_string()).with_basic_auth("u", "p"),
    );
    assert_eq!(both.list_metrics().basic_auth, Some(("u".to_string(), "p".to_string())));
    assert_eq!(both.query("up", None).basic_auth, Some(("u".to_string(), "p".to_string())));

    let mut config = PrometheusConfig::with_url("http://prom:9090".to_string());
    config.username = Some("u".into());
    assert_eq!(PrometheusClient::new(config).query("up", None).basic_auth, None);
    let mut config = PrometheusConfig::with_url("http://prom:9090".to_string());
    config.password = Some("p".into());
    assert_eq!(PrometheusClient::new(config).get_label_values("job").basic_auth, None);
}

#[test]
fn a_time_is_written_as_seconds_and_nanoseconds() {
    assert_eq!(
        PrometheusClient::timestamp_to_prometheus_time(Some((1700000000, 123))),
        "1700000000.123"
    );
    assert_eq!(PrometheusClient::timestamp_to_prometheus_time(Some((0, 0))), "0.0");
    assert_eq!(PrometheusClient::timestamp_to_prometheus_time(Some((5, 999999999))), "5.999999999");
    assert_eq!(PrometheusClient::timestamp_to_prometheus_time(None), "0");
}

#[test]
fn a_status_outside_200_to_299_is_a_failure_of_the_api() {
    let reply = HttpReply {
        status: 503,
        status_text: "503 Service Unavailable".into(),
        body: Some("down".into()),
    };
    match PrometheusClient::read_reply(&reply) {
        Err(PrometheusError::ApiError(m)) => {
            assert_eq!(m, "Prometheus API error: 503 Service Unavailable - down")
        }
        other => panic!("not a failure of the API: {:?}", other),
    }
    let reply = HttpReply { status: 404, status_text: "404 Not Found".into(), body: None };
    match PrometheusClient::read_reply(&reply) {
        Err(PrometheusError::ApiError(m)) => {
            assert_eq!(m, "Prometheus API error: 404 Not Found - Unknown error")
        }
        other => panic!("not a failure of the API: {:?}", other),
    }
    for status in [0u16, 100, 199, 300, 301, 400, 500, 65535] {
        let reply =
            HttpReply { status, status_text: status.to_string(), body: Some("{}".into()) };
        assert!(matches!(
            PrometheusClient::read_reply(&reply),
            Err(PrometheusError::ApiError(_))
        ));
    }
    for status in [200u16, 201, 204, 299] {
        let reply =
            HttpReply { status, status_text: status.to_string(), body: Some("{}".into()) };
        assert!(PrometheusClient::read_reply(&reply).is_ok());
    }
}

#[test]
fn a_body_that_is_no_json_is_a_failure_to_parse() {
    for reply in [ok("<html>"), ok(""), HttpReply { status: 200, status_text: "200 OK".into(), body: None }] {
        match PrometheusClient::read_reply(&reply) {
            Err(PrometheusError::ParseError(m)) => assert_eq!(m, PARSE),
            other => panic!("not a failure to parse: {:?}", other),
        }
    }
    let answer = PrometheusClient::read_reply(&ok("{\"status\":\"success\"}")).expect("parses");
    assert_eq!(answer.render(), "{\"status\":\"success\"}");
}

#[test]
fn names_are_the_texts_under_data() {
    let read = |body: &str| PrometheusClient::read_names(&Json::parse(body).expect("valid JSON"));
    assert_eq!(read("{\"status\":\"success\",\"data\":[\"up\",\"go_info\"]}"), vec!["up", "go_info"]);
    assert_eq!(read("{\"data\":[\"up\",1,null,\"x\",[\"y\"]]}"), vec!["up", "x"]);
    assert!(read("{\"data\":{}}").is_empty());
    assert!(read("{\"data\":\"up\"}").is_empty());
    assert!(read("{}").is_empty());
    assert!(read("[\"up\"]").is_empty());

    let names = PrometheusClient::names_outcome(Ok(ok("{\"data\":[\"a\",\"b\"]}"))).expect("names");
    assert_eq!(names, vec!["a", "b"]);
    assert!(matches!(
        PrometheusClient::names_outcome(Ok(ok("nope"))),
        Err(PrometheusError::ParseError(_))
    ));
    assert!(matches!(
        PrometheusClient::names_outcome(Err(unreachable_host())),
        Err(PrometheusError::ReqwestError(_))
    ));
}

#[test]
fn metadata_is_read_for_the_metric_that_was_asked_for() {
    let answer = Json::parse(
        "{\"status\":\"success\",\"data\":{\"up\":[\
         {\"type\":\"gauge\",\"help\":\"Up or not\",\"unit\":\"\"},\
         {\"type\":\"gauge\",\"help\":\"no unit\"},\
         {\"type\":1,\"help\":\"h\",\"unit\":\"u\"},\
         \"text\",\
         {\"type\":\"counter\",\"help\":\"h2\",\"unit\":\"s\",\"more\":true}],\
         \"other\":[{\"type\":\"gauge\",\"help\":\"x\",\"unit\":\"\"}]}}",
    )
    .expect("valid JSON");
    let found = PrometheusClient::read_metadata(&answer, "up");
    assert_eq!(found.len(), 2);
    assert_eq!(
        (found[0].metric.as_str(), found[0].kind.as_str(), found[0].help.as_str(), found[0].unit.as_str()),
        ("up", "gauge", "Up or not", "")
    );
    assert_eq!(
        (found[1].metric.as_str(), found[1].kind.as_str(), found[1].help.as_str(), found[1].unit.as_str()),
        ("up", "counter", "h2", "s")
    );
    assert!(PrometheusClient::read_metadata(&answer, "missing").is_empty());
    assert!(PrometheusClient::read_metadata(&Json::parse("{\"data\":[]}").expect("valid"), "up").is_empty());
    assert!(PrometheusClient::read_metadata(&Json::parse("{\"data\":{\"up\":{}}}").expect("valid"), "up").is_empty());
    let found = PrometheusClient::metadata_outcome(
        Ok(ok("{\"data\":{\"up\":[{\"type\":\"t\",\"help\":\"h\",\"unit\":\"u\"}]}}")),
        "up",
    )
    .expect("metadata");
    assert_eq!(found.len(), 1);
}

#[test]
fn series_are_the_text_labels_of_the_objects_under_data() {
    let answer = Json::parse(
        "{\"data\":[{\"__name__\":\"up\",\"job\":\"node\",\"n\":1},7,{},{\"x\":null}]}",
    )
    .expect("valid JSON");
    let series = PrometheusClient::read_series(&answer);
    assert_eq!(
        series,
        vec![
            vec![("__name__".to_string(), "up".to_string()), ("job".to_string(), "node".to_string())],
            vec![],
            vec![],
        ]
    );
    assert!(PrometheusClient::read_series(&Json::parse("{\"data\":{}}").expect("valid")).is_empty());
    assert!(PrometheusClient::read_series(&Json::parse("{}").expect("valid")).is_empty());
    let series =
        PrometheusClient::series_outcome(Ok(ok("{\"data\":[{\"a\":\"b\"}]}"))).expect("series");
    assert_eq!(series, vec![vec![("a".to_string(), "b".to_string())]]);
}

#[test]
fn an_attempt_of_a_query_ends_with_the_result_or_with_the_kind_of_failure() {
    let body = "{\"status\":\"success\",\"data\":{\"resultType\":\"vector\",\"result\":[]}}";
    let result: PrometheusQueryResult =
        PrometheusClient::execute_query(Ok(ok(body))).expect("a result");
    assert_eq!(result.status, "success");
    assert_eq!(result.data.result_type, "vector");
    assert!(result.data.result.is_empty());

    match PrometheusClient::execute_query(Err(unreachable_host())) {
        Err(PrometheusError::ReqwestError(t)) => assert_eq!(t.display, "error sending request"),
        other => panic!("not a failure to send: {:?}", other),
    }
    let bad_gateway =
        HttpReply { status: 502, status_text: "502 Bad Gateway".into(), body: Some("x".into()) };
    match PrometheusClient::execute_query(Ok(bad_gateway)) {
        Err(PrometheusError::ApiError(m)) => {
            assert_eq!(m, "Prometheus API error: 502 Bad Gateway - x")
        }
        other => panic!("not a failure of the API: {:?}", other),
    }
    for body in ["{", "{}", "{\"status\":\"success\"}", "{\"status\":\"success\",\"data\":{\"resultType\":\"scalar\",\"result\":[1,\"2\"]}}"] {
        match PrometheusClient::execute_query(Ok(ok(body))) {
            Err(PrometheusError::ParseError(m)) => assert_eq!(m, PARSE),
            other => panic!("not a failure to parse: {:?}", other),
        }
    }
}

#[test]
fn the_messages_of_the_errors_name_their_kind() {
    assert_eq!(
        PrometheusError::ReqwestError(unreachable_host()).message(),
        "HTTP error: error sending request"
    );
    assert_eq!(PrometheusError::ApiError("a".into()).message(), "Prometheus API error: a");
    assert_eq!(PrometheusError::ParseError("p".into()).message(), "Parse error: p");
    assert_eq!(PrometheusError::BuildClientError("b".into()).message(), "Client build error: b");
    let copy = PrometheusError::ApiError("a".into()).duplicate();
    assert_eq!(copy.detail(), "ApiError(\"a\")");
}

fn failing(n: u32) -> PrometheusError {
    PrometheusError::ApiError(format!("failure {}", n))
}

fn run(
    client: &PrometheusClient,
    mut outcomes: Vec<Result<u32, PrometheusError>>,
) -> (u32, Vec<Option<u64>>, Result<u32, PrometheusError>) {
    outcomes.reverse();
    let mut attempts = 0;
    let mut waits = Vec::new();
    let mut state = client.execute_with_retry::<u32>();
    loop {
        match state {
            Retry::Attempt { backoff_ms, remaining } => {
                waits.push(backoff_ms);
                attempts += 1;
                let outcome = outcomes.pop().expect("no more outcomes");
                state = client.retry_after(remaining, outcome);
            }
            Retry::Done { result } => {
                return (attempts, waits, result);
            }
        }
    }
}

#[test]
fn when_every_attempt_fails_the_server_is_asked_as_often_as_configured() {
    for retries in 1..=5u32 {
        let client = PrometheusClient::new(
            PrometheusConfig::with_url("http://prom:9090".to_string())
                .with_retries(retries)
                .with_retry_backoff_ms(40),
        );
        let outcomes = (1..=retries + 2).map(|n| Err(failing(n))).collect();
        let (attempts, waits, result) = run(&client, outcomes);
        assert_eq!(attempts, retries);
        match result {
            Err(PrometheusError::ApiError(m)) => assert_eq!(m, format!("failure {}", retries)),
            other => panic!("not the last failure: {:?}", other),
        }
        let mut expected = vec![None];
        expected.extend((1..retries).map(|_| Some(40)));
        assert_eq!(waits, expected);
    }
}

#[test]
fn with_no_attempt_allowed_the_server_is_not_asked() {
    let client = PrometheusClient::new(
        PrometheusConfig::with_url("http://prom:9090".to_string()).with_retries(0),
    );
    let (attempts, waits, result) = run(&client, vec![Ok(1)]);
    assert_eq!(attempts, 0);
    assert!(waits.is_empty());
    match result {
        Err(PrometheusError::ApiError(m)) => assert_eq!(m, "Maximum retries exceeded"),
        other => panic!("not the failure of no attempt: {:?}", other),
    }
}

#[test]
fn the_first_success_ends_the_query() {
    let client = PrometheusClient::new(
        PrometheusConfig::with_url("http://prom:9090".to_string())
            .with_retries(3)
            .with_retry_backoff_ms(500),
    );
    let (attempts, waits, result) = run(&client, vec![Ok(7), Err(failing(2))]);
    assert_eq!(attempts, 1);
    assert_eq!(waits, vec![None]);
    assert_eq!(result.expect("success"), 7);

    let (attempts, waits, result) = run(&client, vec![Err(failing(1)), Err(failing(2)), Ok(9)]);
    assert_eq!(attempts, 3);
    assert_eq!(waits, vec![None, Some(500), Some(500)]);
    assert_eq!(result.expect("success"), 9);
}

#[test]
fn a_successful_instant_query_is_handed_back_without_the_mark_of_an_error() {
    let body = "{\"status\":\"success\",\"data\":{\"resultType\":\"vector\",\"result\":[]}}";
    let outcome = PrometheusClient::execute_query(Ok(ok(body)));
    let result = prometheus_query(&outcome);
    assert!(!result.is_error);
    let line = result.to_json().render();
    assert!(line.contains("success"));
    assert!(line.ends_with("\"isError\":false}"));
}
