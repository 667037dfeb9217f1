use prometheus_mcp::router::{build_rpc_router, register_tools, Handler, RouterBuilder};

#[test]
fn the_router_binds_the_twelve_methods() {
    let router = build_rpc_router();
    let expected = [
        ("initialize", Handler::Initialize),
        ("ping", Handler::Ping),
        ("resources/list", Handler::ResourcesList),
        ("resources/templates/list", Handler::ResourceTemplatesList),
        ("prompts/list", Handler::PromptsList),
        ("tools/list", Handler::ToolsList),
        ("prometheus_query", Handler::PrometheusQuery),
        ("prometheus_query_range", Handler::PrometheusQueryRange),
        ("prometheus_list_metrics", Handler::PrometheusListMetrics),
        ("prometheus_get_metadata", Handler::PrometheusGetMetadata),
        ("prometheus_get_series", Handler::PrometheusGetSeries),
        ("prometheus_get_label_values", Handler::PrometheusGetLabelValues),
    ];
    for (name, handler) in expected {
        assert_eq!(router.lookup(name), Some(handler), "{}", name);
    }
}

#[test]
fn lookup_matches_the_exact_name_only() {
    let router = build_rpc_router();
    for name in [
        "",
        "tools/call",
        "tools",
        "tools/list/",
        "Tools/list",
        "prometheus_",
        "prometheus_query ",
        "prometheus_query_rang",
        "resources",
        "prompts/get",
        "resources/read",
    ] {
        assert_eq!(router.lookup(name), None, "{:?}", name);
    }
}

#[test]
fn register_tools_adds_the_tools_to_what_is_there() {
    let builder = RouterBuilder::new().append_dyn("ping", Handler::Ping);
    let router = register_tools(builder).build();
    assert_eq!(router.lookup("ping"), Some(Handler::Ping));
    assert_eq!(router.lookup("tools/list"), Some(Handler::ToolsList));
    assert_eq!(router.lookup("prometheus_get_series"), Some(Handler::PrometheusGetSeries));
    assert_eq!(router.lookup("initialize"), None);
}

#[test]
fn an_empty_router_knows_no_method() {
    let router = RouterBuilder::new().build();
    assert_eq!(router.lookup("ping"), None);
}

#[test]
fn a_builder_tells_which_names_are_bound() {
    let builder = RouterBuilder::new();
    assert!(!builder.contains("ping"));
    let builder = builder.append_dyn("ping", Handler::Ping);
    assert!(builder.contains("ping"));
    assert!(!builder.contains("pin"));
    assert!(!builder.contains("tools/list"));
    let builder = register_tools(builder);
    assert!(builder.contains("tools/list"));
    assert!(builder.contains("prometheus_get_label_values"));
}
