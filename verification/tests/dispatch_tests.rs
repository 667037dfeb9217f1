use prometheus_mcp::dispatch::{
    classify, decode, dispatch, handle_line, reply, resolve, respond, route, Call, DispatchFault,
    Envelope, Fault, Notification, Received, Request, Step, ToolRequest,
};
use prometheus_mcp::json::Json;
use prometheus_mcp::prometheus_client::PrometheusError;
use prometheus_mcp::router::{build_rpc_router, Handler};
use prometheus_mcp::tools::{prometheus_get_series, prometheus_query};
use prometheus_mcp::query_result::{PrometheusData, PrometheusQueryResult};

fn json(text: &str) -> Json {
    Json::parse(text).expect("valid JSON")
}

fn line_of(received: &Received) -> Option<String> {
    match &received.step {
        Step::Respond(line) => Some(line.clone()),
        _ => None,
    }
}

fn is_silent(received: &Received) -> bool {
    matches!(received.step, Step::Silent) && received.counted.is_empty()
}

const INVALID: &str = "\"error\":{\"code\":-1,\"message\":\"Invalid json-rpc call\"}}";

#[test]
fn test_mcp_server_tools_schema() {
    let router = build_rpc_router();
    let init_req = "{\"jsonrpc\":\"2.0\",\"id\":1,\"method\":\"initialize\",\"params\":{\
        \"protocolVersion\":\"2024-11-05\",\"capabilities\":{},\"clientInfo\":{\
        \"name\":\"vscode-test\",\"version\":\"1.0\"}}}";
    let tools_req = "{\"jsonrpc\":\"2.0\",\"id\":2,\"method\":\"tools/list\",\"params\":{}}";

    let mut responses = Vec::new();
    for line in [init_req, tools_req] {
        if let Some(line) = line_of(&handle_line(&router, line)) {
            assert!(!line.is_empty());
            responses.push(Json::parse(&line).expect("Failed to parse JSON response"));
        }
    }
    assert_eq!(responses.len(), 2, "Expected initialize and tools/list responses");
    assert_eq!(responses[0].get("id").expect("id").render(), "1");
    assert_eq!(responses[1].get("id").expect("id").render(), "2");

    let tools_response = &responses[1];
    let tools = tools_response
        .get("result")
        .and_then(|r| r.get("tools"))
        .and_then(|t| t.as_array())
        .expect("tools should be an array");
    let series_tool = tools
        .iter()
        .find(|t| t.get_str("name") == Some("prometheus_get_series"))
        .expect("prometheus_get_series tool not found");

    let schema = series_tool.get("parameters").expect("parameters must be there");
    assert!(schema.is_object(), "parameters must be an object");
    assert_eq!(schema.get_str("type"), Some("object"), "parameters type should be object");

    let match_strings = schema
        .get("properties")
        .and_then(|p| p.get("match_strings"))
        .expect("match_strings property must be there");
    assert!(match_strings.is_object(), "match_strings property must be an object");
    assert_eq!(
        match_strings.get_str("type"),
        Some("array"),
        "match_strings must have explicit array type"
    );
    let items = match_strings.get("items").expect("items must be an object");
    assert!(items.is_object());
    assert_eq!(items.get_str("type"), Some("string"), "items must have explicit string type");

    let required = schema
        .get("required")
        .and_then(|r| r.as_array())
        .expect("required must be an array");
    assert!(
        required.iter().any(|r| r.as_str() == Some("match_strings")),
        "match_strings must be in required array"
    );
    assert_eq!(
        match_strings.get("minItems").expect("minItems").render(),
        "1",
        "match_strings should require at least one item"
    );
    assert_eq!(
        schema.get("additionalProperties").expect("additionalProperties").render(),
        "false",
        "parameters should not allow additional properties"
    );
}

#[test]
fn initialize_is_answered_with_the_greeting() {
    let router = build_rpc_router();
    let received = handle_line(
        &router,
        "{\"jsonrpc\":\"2.0\",\"id\":1,\"method\":\"initialize\",\"params\":{\
         \"protocolVersion\":\"2024-11-05\",\"capabilities\":{},\"clientInfo\":{\
         \"name\":\"c\",\"version\":\"1\"}}}",
    );
    assert_eq!(
        line_of(&received).expect("an answer"),
        "{\"jsonrpc\":\"2.0\",\"id\":1,\"result\":{\"protocolVersion\":\"2024-11-05\",\
         \"capabilities\":{\"tools\":{}},\"serverInfo\":{\"name\":\"prometheus-mcp\",\
         \"version\":\"0.1.1\"}}}"
    );
    assert!(received.counted.is_empty());
}

#[test]
fn initialize_needs_its_parameters() {
    let router = build_rpc_router();
    let missing = handle_line(&router, "{\"jsonrpc\":\"2.0\",\"id\":1,\"method\":\"initialize\"}");
    assert_eq!(
        line_of(&missing).expect("an answer"),
        format!("{{\"jsonrpc\":\"2.0\",\"id\":1,{}", INVALID)
    );
    let wrong = handle_line(
        &router,
        "{\"jsonrpc\":\"2.0\",\"id\":1,\"method\":\"initialize\",\"params\":{\"protocolVersion\":1}}",
    );
    assert_eq!(
        line_of(&wrong).expect("an answer"),
        format!("{{\"jsonrpc\":\"2.0\",\"id\":1,{}", INVALID)
    );
}

#[test]
fn ping_and_the_empty_lists_are_answered_at_once() {
    let router = build_rpc_router();
    let ask = |method: &str| {
        let line = format!("{{\"jsonrpc\":\"2.0\",\"id\":\"a\",\"method\":\"{}\"}}", method);
        line_of(&handle_line(&router, &line)).expect("an answer")
    };
    assert_eq!(ask("ping"), "{\"jsonrpc\":\"2.0\",\"id\":\"a\",\"result\":{}}");
    assert_eq!(
        ask("resources/list"),
        "{\"jsonrpc\":\"2.0\",\"id\":\"a\",\"result\":{\"resources\":[]}}"
    );
    assert_eq!(
        ask("resources/templates/list"),
        "{\"jsonrpc\":\"2.0\",\"id\":\"a\",\"result\":{\"resourceTemplates\":[]}}"
    );
    assert_eq!(ask("prompts/list"), "{\"jsonrpc\":\"2.0\",\"id\":\"a\",\"result\":{\"prompts\":[]}}");
    assert!(ask("tools/list").starts_with("{\"jsonrpc\":\"2.0\",\"id\":\"a\",\"result\":{\"tools\":["));
}

#[test]
fn a_list_takes_a_cursor_and_nothing_that_is_no_object() {
    let router = build_rpc_router();
    let ask = |params: &str| {
        let line = format!(
            "{{\"jsonrpc\":\"2.0\",\"id\":3,\"method\":\"prompts/list\",\"params\":{}}}",
            params
        );
        line_of(&handle_line(&router, &line)).expect("an answer")
    };
    let ok = "{\"jsonrpc\":\"2.0\",\"id\":3,\"result\":{\"prompts\":[]}}";
    let invalid = format!("{{\"jsonrpc\":\"2.0\",\"id\":3,{}", INVALID);
    assert_eq!(ask("{}"), ok);
    assert_eq!(ask("{\"cursor\":\"next\"}"), ok);
    assert_eq!(ask("{\"cursor\":null}"), ok);
    assert_eq!(ask("null"), ok);
    assert_eq!(ask("{\"cursor\":7}"), invalid);
    assert_eq!(ask("[]"), invalid);
    assert_eq!(ask("\"x\""), invalid);
}

#[test]
fn the_initialized_notification_is_never_answered() {
    let router = build_rpc_router();
    let received = handle_line(&router, "{\"method\":\"notifications/initialized\"}");
    assert!(matches!(received.step, Step::Noted(Notification::Initialized)));
    assert!(received.counted.is_empty());
    assert!(line_of(&received).is_none());
    let received =
        handle_line(&router, "{\"jsonrpc\":\"2.0\",\"method\":\"notifications/initialized\"}");
    assert!(matches!(received.step, Step::Noted(Notification::Initialized)));
}

#[test]
fn a_cancellation_is_decoded_and_never_answered() {
    let router = build_rpc_router();
    let received = handle_line(
        &router,
        "{\"method\":\"notifications/cancelled\",\"params\":{\"requestId\":\"7\",\"reason\":\"late\"}}",
    );
    match received.step {
        Step::Noted(Notification::Cancelled { request_id, reason }) => {
            assert_eq!(request_id, "7");
            assert_eq!(reason.as_deref(), Some("late"));
        }
        other => panic!("not a cancellation: {:?}", other),
    }
    let received =
        handle_line(&router, "{\"method\":\"notifications/cancelled\",\"params\":{\"requestId\":\"7\"}}");
    assert!(matches!(
        received.step,
        Step::Noted(Notification::Cancelled { reason: None, .. })
    ));
    for line in [
        "{\"method\":\"notifications/cancelled\"}",
        "{\"method\":\"notifications/cancelled\",\"params\":{}}",
        "{\"method\":\"notifications/cancelled\",\"params\":{\"requestId\":7}}",
        "{\"method\":\"notifications/cancelled\",\"params\":{\"requestId\":\"7\",\"reason\":1}}",
        "{\"method\":\"notifications/progress\"}",
        "{\"method\":17}",
        "{}",
        "{\"method\":\"tools/list\"}",
        "{\"method\":\"prometheus_query\",\"params\":{\"query\":\"up\"}}",
    ] {
        let received = handle_line(&router, line);
        assert!(matches!(received.step, Step::Noted(Notification::Ignored)), "{}", line);
        assert!(received.counted.is_empty());
    }
}

#[test]
fn a_malformed_line_is_passed_over_and_the_next_line_is_answered() {
    let router = build_rpc_router();
    let mut written = Vec::new();
    for line in ["{\"method\":", "{\"jsonrpc\":\"2.0\",\"id\":9,\"method\":\"ping\"}"] {
        let received = handle_line(&router, line);
        if let Some(line) = line_of(&received) {
            written.push(line);
        } else {
            assert!(is_silent(&received));
        }
    }
    assert_eq!(written, vec!["{\"jsonrpc\":\"2.0\",\"id\":9,\"result\":{}}"]);
}

#[test]
fn lines_that_are_no_message_are_passed_over() {
    let router = build_rpc_router();
    for line in [
        "",
        "\n",
        "   ",
        "not json",
        "[]",
        "\"ping\"",
        "42",
        "null",
        "[{\"jsonrpc\":\"2.0\",\"id\":1,\"method\":\"ping\"}]",
        "{\"id\":1,\"method\":\"ping\"}",
        "{\"jsonrpc\":\"1.0\",\"id\":1,\"method\":\"ping\"}",
        "{\"jsonrpc\":2.0,\"id\":1,\"method\":\"ping\"}",
        "{\"jsonrpc\":\"2.0\",\"id\":1}",
        "{\"jsonrpc\":\"2.0\",\"id\":1,\"method\":5}",
    ] {
        assert!(is_silent(&handle_line(&router, line)), "{:?}", line);
    }
}

#[test]
fn the_id_is_handed_back_as_it_came() {
    let router = build_rpc_router();
    for id in ["1", "\"abc\"", "null", "-3", "1.5", "{\"a\":[1]}", "true"] {
        let line = format!("{{\"jsonrpc\":\"2.0\",\"id\":{},\"method\":\"ping\"}}", id);
        assert_eq!(
            line_of(&handle_line(&router, &line)).expect("an answer"),
            format!("{{\"jsonrpc\":\"2.0\",\"id\":{},\"result\":{{}}}}", id)
        );
    }
}

#[test]
fn an_unknown_method_is_answered_with_the_error_of_an_invalid_call() {
    let router = build_rpc_router();
    for method in ["nope", "Ping", "ping ", "tools", "tools/", "prompts/get", ""] {
        let line = format!("{{\"jsonrpc\":\"2.0\",\"id\":5,\"method\":\"{}\"}}", method);
        let received = handle_line(&router, &line);
        assert_eq!(
            line_of(&received).expect("an answer"),
            format!("{{\"jsonrpc\":\"2.0\",\"id\":5,{}", INVALID)
        );
        assert!(received.counted.is_empty());
    }
}

#[test]
fn a_direct_call_of_a_tool_is_handed_to_the_caller() {
    let router = build_rpc_router();
    let received = handle_line(
        &router,
        "{\"jsonrpc\":\"2.0\",\"id\":4,\"method\":\"prometheus_query\",\"params\":{\"query\":\"up\",\"time\":\"5\"}}",
    );
    match &received.step {
        Step::Ask { id, request: ToolRequest::Query(r) } => {
            assert_eq!(id.render(), "4");
            assert_eq!(r.query, "up");
            assert_eq!(r.time.as_deref(), Some("5"));
        }
        other => panic!("not a query: {:?}", other),
    }
    assert_eq!(received.counted, vec!["prometheus_query"]);
}

#[test]
fn a_tool_needs_its_parameters() {
    let router = build_rpc_router();
    let invalid = format!("{{\"jsonrpc\":\"2.0\",\"id\":4,{}", INVALID);
    for line in [
        "{\"jsonrpc\":\"2.0\",\"id\":4,\"method\":\"prometheus_query\"}",
        "{\"jsonrpc\":\"2.0\",\"id\":4,\"method\":\"prometheus_query\",\"params\":null}",
        "{\"jsonrpc\":\"2.0\",\"id\":4,\"method\":\"prometheus_query\",\"params\":{}}",
        "{\"jsonrpc\":\"2.0\",\"id\":4,\"method\":\"prometheus_query\",\"params\":{\"query\":1}}",
        "{\"jsonrpc\":\"2.0\",\"id\":4,\"method\":\"prometheus_list_metrics\"}",
        "{\"jsonrpc\":\"2.0\",\"id\":4,\"method\":\"prometheus_get_series\",\"params\":{\"match_strings\":\"up\"}}",
    ] {
        let received = handle_line(&router, line);
        assert_eq!(line_of(&received).expect("an answer"), invalid, "{}", line);
        assert!(received.counted.is_empty());
    }
}

#[test]
fn tools_call_dispatches_as_the_direct_call_does() {
    let router = build_rpc_router();
    let wrapped = handle_line(
        &router,
        "{\"jsonrpc\":\"2.0\",\"id\":11,\"method\":\"tools/call\",\"params\":{\
         \"name\":\"prometheus_get_series\",\"arguments\":{\"match_strings\":[\"up\"]}}}",
    );
    let direct = handle_line(
        &router,
        "{\"jsonrpc\":\"2.0\",\"id\":12,\"method\":\"prometheus_get_series\",\
         \"params\":{\"match_strings\":[\"up\"]}}",
    );
    let selectors = |received: &Received| match &received.step {
        Step::Ask { request: ToolRequest::GetSeries(r), .. } => r.match_strings.clone(),
        other => panic!("not a call of get_series: {:?}", other),
    };
    assert_eq!(selectors(&wrapped), vec!["up"]);
    assert_eq!(selectors(&wrapped), selectors(&direct));
    assert_eq!(wrapped.counted, vec!["prometheus_get_series", "prometheus_get_series"]);
    assert_eq!(direct.counted, vec!["prometheus_get_series"]);

    let series = Ok(vec![vec![("__name__".to_string(), "up".to_string())]]);
    let answer = |received: Received| match received.step {
        Step::Ask { id, .. } => respond(&id, &prometheus_get_series(&series)),
        other => panic!("not a call: {:?}", other),
    };
    let wrapped_line = answer(wrapped);
    let direct_line = answer(direct);
    assert_eq!(wrapped_line.replace("\"id\":11", "\"id\":12"), direct_line);
    assert!(direct_line.starts_with("{\"jsonrpc\":\"2.0\",\"id\":12,\"result\":{\"content\":["));
}

#[test]
fn tools_call_of_every_tool_reaches_its_handler() {
    let router = build_rpc_router();
    let call = |name: &str, arguments: &str| {
        let line = format!(
            "{{\"jsonrpc\":\"2.0\",\"id\":1,\"method\":\"tools/call\",\"params\":{{\"name\":\"{}\",\"arguments\":{}}}}}",
            name, arguments
        );
        handle_line(&router, &line)
    };
    let r = call("prometheus_query", "{\"query\":\"up\"}");
    assert!(matches!(r.step, Step::Ask { request: ToolRequest::Query(_), .. }));
    let r = call(
        "prometheus_query_range",
        "{\"query\":\"up\",\"start\":\"0\",\"end\":\"1\",\"step\":\"1\"}",
    );
    assert!(matches!(r.step, Step::Ask { request: ToolRequest::QueryRange(_), .. }));
    let r = call("prometheus_list_metrics", "{}");
    assert!(matches!(r.step, Step::Ask { request: ToolRequest::ListMetrics(_), .. }));
    assert_eq!(r.counted, vec!["prometheus_list_metrics", "prometheus_list_metrics"]);
    let r = call("prometheus_get_metadata", "{\"metric\":\"up\"}");
    assert!(matches!(r.step, Step::Ask { request: ToolRequest::GetMetadata(_), .. }));
    let r = call("prometheus_get_label_values", "{\"label_name\":\"job\"}");
    assert!(matches!(r.step, Step::Ask { request: ToolRequest::GetLabelValues(_), .. }));
    let r = call("tools/list", "{}");
    assert!(line_of(&r).expect("an answer").contains("\"tools\":["));
    assert_eq!(r.counted, vec!["tools/list"]);
}

#[test]
fn a_tools_call_without_a_name_is_dropped() {
    let router = build_rpc_router();
    for line in [
        "{\"jsonrpc\":\"2.0\",\"id\":1,\"method\":\"tools/call\"}",
        "{\"jsonrpc\":\"2.0\",\"id\":1,\"method\":\"tools/call\",\"params\":null}",
        "{\"jsonrpc\":\"2.0\",\"id\":1,\"method\":\"tools/call\",\"params\":{}}",
        "{\"jsonrpc\":\"2.0\",\"id\":1,\"method\":\"tools/call\",\"params\":{\"name\":7}}",
        "{\"jsonrpc\":\"2.0\",\"id\":1,\"method\":\"tools/call\",\"params\":[\"prometheus_query\"]}",
        "{\"jsonrpc\":\"2.0\",\"id\":1,\"method\":\"tools/call\",\"params\":{\"arguments\":{}}}",
    ] {
        assert!(is_silent(&handle_line(&router, line)), "{}", line);
    }
}

#[test]
fn a_tools_call_of_an_unknown_tool_is_counted_and_refused() {
    let router = build_rpc_router();
    let invalid = format!("{{\"jsonrpc\":\"2.0\",\"id\":1,{}", INVALID);
    let received = handle_line(
        &router,
        "{\"jsonrpc\":\"2.0\",\"id\":1,\"method\":\"tools/call\",\"params\":{\"name\":\"nope\",\"arguments\":{}}}",
    );
    assert_eq!(line_of(&received).expect("an answer"), invalid);
    assert_eq!(received.counted, vec!["nope"]);

    let received = handle_line(
        &router,
        "{\"jsonrpc\":\"2.0\",\"id\":1,\"method\":\"tools/call\",\"params\":{\"name\":\"\",\"arguments\":{}}}",
    );
    assert_eq!(line_of(&received).expect("an answer"), invalid);
    assert!(received.counted.is_empty());

    let received = handle_line(
        &router,
        "{\"jsonrpc\":\"2.0\",\"id\":1,\"method\":\"tools/call\",\"params\":{\"name\":\"tools/call\",\
         \"arguments\":{\"name\":\"prometheus_list_metrics\",\"arguments\":{}}}}",
    );
    assert_eq!(line_of(&received).expect("an answer"), invalid);
    assert_eq!(received.counted, vec!["tools/call"]);
}

#[test]
fn a_tools_call_without_arguments_has_no_parameters() {
    let router = build_rpc_router();
    let invalid = format!("{{\"jsonrpc\":\"2.0\",\"id\":1,{}", INVALID);
    for params in [
        "{\"name\":\"prometheus_list_metrics\"}",
        "{\"name\":\"prometheus_list_metrics\",\"arguments\":null}",
        "{\"name\":\"prometheus_list_metrics\",\"arguments\":\"none\"}",
    ] {
        let line =
            format!("{{\"jsonrpc\":\"2.0\",\"id\":1,\"method\":\"tools/call\",\"params\":{}}}", params);
        let received = handle_line(&router, &line);
        assert_eq!(line_of(&received).expect("an answer"), invalid, "{}", params);
        assert_eq!(received.counted, vec!["prometheus_list_metrics"]);
    }
    let received = handle_line(
        &router,
        "{\"jsonrpc\":\"2.0\",\"id\":1,\"method\":\"tools/call\",\"params\":{\"name\":\"ping\"}}",
    );
    assert_eq!(
        line_of(&received).expect("an answer"),
        "{\"jsonrpc\":\"2.0\",\"id\":1,\"result\":{}}"
    );
}

#[test]
fn classify_tells_notifications_requests_and_the_rest_apart() {
    assert!(matches!(
        classify(&json("{\"method\":\"notifications/initialized\"}")),
        Envelope::Notification(Notification::Initialized)
    ));
    assert!(matches!(classify(&json("{}")), Envelope::Notification(Notification::Ignored)));
    assert!(matches!(classify(&json("[]")), Envelope::Unrecognized));
    assert!(matches!(classify(&json("{\"id\":1}")), Envelope::Unrecognized));
    match classify(&json("{\"jsonrpc\":\"2.0\",\"id\":null,\"method\":\"m\",\"params\":[1]}")) {
        Envelope::Request(q) => {
            assert!(q.id.is_null());
            assert_eq!(q.method, "m");
            assert_eq!(q.params.expect("parameters").render(), "[1]");
        }
        other => panic!("not a request: {:?}", other),
    }
    match classify(&json("{\"jsonrpc\":\"2.0\",\"id\":1,\"method\":\"m\",\"params\":null}")) {
        Envelope::Request(q) => assert!(q.params.is_none()),
        other => panic!("not a request: {:?}", other),
    }
}

#[test]
fn resolve_rewrites_tools_call_only() {
    let plain = resolve(Request { id: Json::unsigned(1), method: "ping".into(), params: None })
        .expect("stays");
    assert_eq!(plain.request.method, "ping");
    assert!(plain.counted.is_none());

    let wrapped = resolve(Request {
        id: Json::unsigned(1),
        method: "tools/call".into(),
        params: Some(json("{\"name\":\"prometheus_query\",\"arguments\":{\"query\":\"up\"}}")),
    })
    .expect("resolves");
    assert_eq!(wrapped.request.method, "prometheus_query");
    assert_eq!(wrapped.request.id.render(), "1");
    assert_eq!(wrapped.request.params.expect("parameters").render(), "{\"query\":\"up\"}");
    assert_eq!(wrapped.counted.as_deref(), Some("prometheus_query"));

    assert!(resolve(Request {
        id: Json::unsigned(1),
        method: "tools/call".into(),
        params: Some(json("{\"tool\":\"prometheus_query\"}")),
    })
    .is_none());
}

#[test]
fn route_gives_each_fault_its_name() {
    let router = build_rpc_router();
    assert!(matches!(route(&router, "nope", None), Err(DispatchFault::MethodUnknown)));
    assert!(matches!(
        route(&router, "prometheus_query", None),
        Err(DispatchFault::ParamsMissing)
    ));
    assert!(matches!(
        route(&router, "prometheus_query", Some(&json("{\"q\":\"up\"}"))),
        Err(DispatchFault::ParamsInvalid)
    ));
    assert!(matches!(route(&router, "initialize", None), Err(DispatchFault::ParamsMissing)));
    assert!(matches!(route(&router, "ping", None), Ok(Call::Ping)));
    assert!(matches!(route(&router, "ping", Some(&json("[]"))), Err(DispatchFault::ParamsInvalid)));
    assert!(matches!(route(&router, "tools/list", Some(&json("{}"))), Ok(Call::ToolsList)));
    assert!(matches!(decode(Handler::PromptsList, None), Ok(Call::PromptsList)));
    assert!(matches!(
        decode(Handler::PrometheusGetMetadata, Some(&json("{\"metric\":\"up\"}"))),
        Ok(Call::Tool(ToolRequest::GetMetadata(_)))
    ));
}

#[test]
fn reply_frames_results_and_faults() {
    let id = json("\"r1\"");
    let ok = reply(&id, Ok(json("{\"a\":1}"))).expect("a response");
    assert_eq!(ok.render(), "{\"jsonrpc\":\"2.0\",\"id\":\"r1\",\"result\":{\"a\":1}}");
    assert!(reply(&id, Ok(Json::Null)).is_none());
    let handler = reply(&id, Err(Fault::Handler(json("{\"code\":-32602,\"message\":\"m\"}"))))
        .expect("a response");
    assert_eq!(
        handler.render(),
        "{\"jsonrpc\":\"2.0\",\"error\":{\"code\":-32602,\"message\":\"m\"},\"id\":\"r1\"}"
    );
    for fault in [
        DispatchFault::MethodUnknown,
        DispatchFault::ParamsMissing,
        DispatchFault::ParamsInvalid,
    ] {
        let generic = reply(&id, Err(Fault::Dispatch(fault))).expect("a response");
        assert_eq!(generic.render(), format!("{{\"jsonrpc\":\"2.0\",\"id\":\"r1\",{}", INVALID));
    }
}

#[test]
fn respond_writes_the_result_of_a_tool_for_its_request() {
    let result = prometheus_query(&Ok(PrometheusQueryResult {
        status: "success".into(),
        data: PrometheusData { result_type: "vector".into(), result: vec![] },
    }));
    let line = respond(&Json::unsigned(8), &result);
    let response = Json::parse(&line).expect("valid JSON");
    assert_eq!(response.get_str("jsonrpc"), Some("2.0"));
    assert_eq!(response.get("id").expect("id").render(), "8");
    let inner = response.get("result").expect("result");
    assert_eq!(inner.get("isError").expect("isError").render(), "false");
    let content = inner.get("content").and_then(|c| c.as_array()).expect("content");
    assert_eq!(content.len(), 1);
    assert_eq!(content[0].get_str("type"), Some("text"));
    assert!(content[0].get_str("text").expect("text").contains("\"success\""));
    assert!(!line.contains('\n'));

    let failed = prometheus_query(&Err(PrometheusError::ParseError("bad".into())));
    let line = respond(&Json::unsigned(8), &failed);
    assert_eq!(
        line,
        "{\"jsonrpc\":\"2.0\",\"id\":8,\"result\":{\"content\":[{\"type\":\"text\",\
         \"text\":\"ParseError(\\\"bad\\\")\"}],\"isError\":true}}"
    );
}

#[test]
fn dispatch_answers_in_the_order_of_the_requests() {
    let router = build_rpc_router();
    let mut written = Vec::new();
    for id in 1..=5u64 {
        let request = Request { id: Json::unsigned(id), method: "ping".into(), params: None };
        if let Step::Respond(line) = dispatch(&router, request).step {
            written.push(line);
        }
    }
    let expected: Vec<String> =
        (1..=5).map(|id| format!("{{\"jsonrpc\":\"2.0\",\"id\":{},\"result\":{{}}}}", id)).collect();
    assert_eq!(written, expected);
}
