//! The registry of methods: which handler answers to which name.

use crate::names::{
    lemma_lookup_absent, lemma_lookup_at, lemma_lookup_none, lemma_lookup_push, lookup, stamp,
};
use crate::text::str_eq;
use vstd::prelude::*;
use vstd::string::*;

verus! {

/// The handlers that a method name can be bound to.
#[derive(Clone, Copy, Debug, PartialEq, Eq, Structural)]
pub enum Handler {
    Initialize,
    Ping,
    ResourcesList,
    ResourceTemplatesList,
    PromptsList,
    ToolsList,
    PrometheusQuery,
    PrometheusQueryRange,
    PrometheusListMetrics,
    PrometheusGetMetadata,
    PrometheusGetSeries,
    PrometheusGetLabelValues,
}

/// The views of a list of routes.
pub open spec fn routes_view(routes: Seq<(String, Handler)>) -> Seq<(Seq<char>, Handler)> {
    Seq::new(routes.len(), |i: int| (routes[i].0@, routes[i].1))
}

/// The map from names to handlers that a list of routes stands for.
pub open spec fn routes_map(routes: Seq<(Seq<char>, Handler)>) -> Map<Seq<char>, Handler> {
    Map::new(|k: Seq<char>| lookup(routes, k) is Some, |k: Seq<char>| lookup(routes, k)->0)
}

/// A registry that is being filled.
#[derive(Debug)]
pub struct RouterBuilder {
    routes: Vec<(String, Handler)>,
}

/// The registry of methods. It is filled once and only read afterwards.
#[derive(Debug)]
pub struct Router {
    routes: Vec<(String, Handler)>,
}

impl View for RouterBuilder {
    type V = Map<Seq<char>, Handler>;

    closed spec fn view(&self) -> Map<Seq<char>, Handler> {
        routes_map(routes_view(self.routes@))
    }
}

impl View for Router {
    type V = Map<Seq<char>, Handler>;

    closed spec fn view(&self) -> Map<Seq<char>, Handler> {
        routes_map(routes_view(self.routes@))
    }
}

/// The methods of the tools.
pub open spec fn tool_routes(routes: Map<Seq<char>, Handler>) -> Map<Seq<char>, Handler> {
    routes.insert("tools/list"@, Handler::ToolsList).insert(
        "prometheus_query"@,
        Handler::PrometheusQuery,
    ).insert("prometheus_query_range"@, Handler::PrometheusQueryRange).insert(
        "prometheus_list_metrics"@,
        Handler::PrometheusListMetrics,
    ).insert("prometheus_get_metadata"@, Handler::PrometheusGetMetadata).insert(
        "prometheus_get_series"@,
        Handler::PrometheusGetSeries,
    ).insert("prometheus_get_label_values"@, Handler::PrometheusGetLabelValues)
}

/// The methods of the server: those of the protocol, and those of the
/// tools.
pub open spec fn standard_routes() -> Map<Seq<char>, Handler> {
    tool_routes(
        Map::<Seq<char>, Handler>::empty().insert("initialize"@, Handler::Initialize).insert(
            "ping"@,
            Handler::Ping,
        ).insert("resources/list"@, Handler::ResourcesList).insert(
            "resources/templates/list"@,
            Handler::ResourceTemplatesList,
        ).insert("prompts/list"@, Handler::PromptsList),
    )
}

/// Whether none of the methods of the tools is bound in `routes`.
pub open spec fn no_tool_routes(routes: Map<Seq<char>, Handler>) -> bool {
    &&& !routes.dom().contains("tools/list"@)
    &&& !routes.dom().contains("prometheus_query"@)
    &&& !routes.dom().contains("prometheus_query_range"@)
    &&& !routes.dom().contains("prometheus_list_metrics"@)
    &&& !routes.dom().contains("prometheus_get_metadata"@)
    &&& !routes.dom().contains("prometheus_get_series"@)
    &&& !routes.dom().contains("prometheus_get_label_values"@)
}

/// The names of the methods are twelve different texts.
pub proof fn lemma_method_names_differ()
    ensures
        no_tool_routes(
            Map::<Seq<char>, Handler>::empty().insert("initialize"@, Handler::Initialize).insert(
                "ping"@,
                Handler::Ping,
            ).insert("resources/list"@, Handler::ResourcesList).insert(
                "resources/templates/list"@,
                Handler::ResourceTemplatesList,
            ).insert("prompts/list"@, Handler::PromptsList),
        ),
        stamp("tools/list"@) != stamp("prometheus_query"@),
        stamp("tools/list"@) != stamp("prometheus_query_range"@),
        stamp("tools/list"@) != stamp("prometheus_list_metrics"@),
        stamp("tools/list"@) != stamp("prometheus_get_metadata"@),
        stamp("tools/list"@) != stamp("prometheus_get_series"@),
        stamp("tools/list"@) != stamp("prometheus_get_label_values"@),
        stamp("prometheus_query"@) != stamp("prometheus_query_range"@),
        stamp("prometheus_query"@) != stamp("prometheus_list_metrics"@),
        stamp("prometheus_query"@) != stamp("prometheus_get_metadata"@),
        stamp("prometheus_query"@) != stamp("prometheus_get_series"@),
        stamp("prometheus_query"@) != stamp("prometheus_get_label_values"@),
        stamp("prometheus_query_range"@) != stamp("prometheus_list_metrics"@),
        stamp("prometheus_query_range"@) != stamp("prometheus_get_metadata"@),
        stamp("prometheus_query_range"@) != stamp("prometheus_get_series"@),
        stamp("prometheus_query_range"@) != stamp("prometheus_get_label_values"@),
        stamp("prometheus_list_metrics"@) != stamp("prometheus_get_metadata"@),
        stamp("prometheus_list_metrics"@) != stamp("prometheus_get_series"@),
        stamp("prometheus_list_metrics"@) != stamp("prometheus_get_label_values"@),
        stamp("prometheus_get_metadata"@) != stamp("prometheus_get_series"@),
        stamp("prometheus_get_metadata"@) != stamp("prometheus_get_label_values"@),
        stamp("prometheus_get_series"@) != stamp("prometheus_get_label_values"@),
        stamp("initialize"@) != stamp("ping"@),
        stamp("initialize"@) != stamp("resources/list"@),
        stamp("initialize"@) != stamp("resources/templates/list"@),
        stamp("initialize"@) != stamp("prompts/list"@),
        stamp("ping"@) != stamp("resources/list"@),
        stamp("ping"@) != stamp("resources/templates/list"@),
        stamp("ping"@) != stamp("prompts/list"@),
        stamp("resources/list"@) != stamp("resources/templates/list"@),
        stamp("resources/list"@) != stamp("prompts/list"@),
        stamp("resources/templates/list"@) != stamp("prompts/list"@),
{
    reveal_strlit("initialize");
    reveal_strlit("ping");
    reveal_strlit("resources/list");
    reveal_strlit("resources/templates/list");
    reveal_strlit("prompts/list");
    reveal_strlit("tools/list");
    reveal_strlit("prometheus_query");
    reveal_strlit("prometheus_query_range");
    reveal_strlit("prometheus_list_metrics");
    reveal_strlit("prometheus_get_metadata");
    reveal_strlit("prometheus_get_series");
    reveal_strlit("prometheus_get_label_values");
    assert("prometheus_list_metrics"@[22] == 's');
    assert("prometheus_get_metadata"@[22] == 'a');
    let _ = stamp("initialize"@);
    let _ = stamp("ping"@);
    let _ = stamp("resources/list"@);
    let _ = stamp("resources/templates/list"@);
    let _ = stamp("prompts/list"@);
    let _ = stamp("tools/list"@);
    let _ = stamp("prometheus_query"@);
    let _ = stamp("prometheus_query_range"@);
    let _ = stamp("prometheus_list_metrics"@);
    let _ = stamp("prometheus_get_metadata"@);
    let _ = stamp("prometheus_get_series"@);
    let _ = stamp("prometheus_get_label_values"@);
}

impl RouterBuilder {
    /// A registry with no method in it.
    pub fn new() -> (builder: Self)
        ensures
            builder@ == Map::<Seq<char>, Handler>::empty(),
    {
        let builder = RouterBuilder { routes: Vec::new() };
        proof {
            let routes = routes_view(builder.routes@);
            assert forall|k: Seq<char>| lookup(routes, k) is None by {
                lemma_lookup_none(routes, k);
            }
            assert(builder@ =~= Map::empty());
        }
        builder
    }

    /// Tells whether `name` is bound already.
    pub fn contains(&self, name: &str) -> (r: bool)
        ensures
            r == self@.dom().contains(name@),
    {
        let ghost routes = routes_view(self.routes@);
        let mut i: usize = 0;
        while i < self.routes.len()
            invariant
                i <= self.routes.len(),
                routes == routes_view(self.routes@),
                forall|j: int| 0 <= j < i ==> (#[trigger] routes[j]).0 != name@,
            decreases self.routes.len() - i,
        {
            if str_eq(self.routes[i].0.as_str(), name) {
                proof {
                    lemma_lookup_at(routes, name@, i as int);
                }
                return true;
            }
            i = i + 1;
        }
        proof {
            lemma_lookup_none(routes, name@);
        }
        false
    }

    /// Binds `name` to `handler`. A name is bound once: to bind it again
    /// is a fault of the program.
    pub fn append_dyn(self, name: &str, handler: Handler) -> (builder: Self)
        requires
            !self@.dom().contains(name@),
        ensures
            builder@ == self@.insert(name@, handler),
    {
        let ghost before = routes_view(self.routes@);
        let mut routes = self.routes;
        routes.push((String::from_str(name), handler));
        let builder = RouterBuilder { routes };
        proof {
            let after = routes_view(builder.routes@);
            assert(after =~= before.push((name@, handler)));
            lemma_lookup_absent(before, name@);
            lemma_lookup_push(before, name@, handler);
            assert(builder@ =~= self@.insert(name@, handler));
        }
        builder
    }

    /// The finished registry.
    pub fn build(self) -> (router: Router)
        ensures
            router@ == self@,
    {
        Router { routes: self.routes }
    }
}

impl Router {
    /// The handler that `method` is bound to. The name has to match
    /// letter for letter.
    pub fn lookup(&self, method: &str) -> (r: Option<Handler>)
        ensures
            r == if self@.dom().contains(method@) {
                Some(self@[method@])
            } else {
                None
            },
    {
        let ghost routes = routes_view(self.routes@);
        let mut i: usize = 0;
        while i < self.routes.len()
            invariant
                i <= self.routes.len(),
                routes == routes_view(self.routes@),
                forall|j: int| 0 <= j < i ==> (#[trigger] routes[j]).0 != method@,
            decreases self.routes.len() - i,
        {
            if str_eq(self.routes[i].0.as_str(), method) {
                proof {
                    lemma_lookup_at(routes, method@, i as int);
                }
                return Some(self.routes[i].1);
            }
            i = i + 1;
        }
        proof {
            lemma_lookup_none(routes, method@);
        }
        None
    }
}

/// register all tools to the router
pub fn register_tools(router_builder: RouterBuilder) -> (builder: RouterBuilder)
    requires
        no_tool_routes(router_builder@),
    ensures
        builder@ == tool_routes(router_builder@),
{
    proof {
        lemma_method_names_differ();
    }
    router_builder.append_dyn("tools/list", Handler::ToolsList).append_dyn(
        "prometheus_query",
        Handler::PrometheusQuery,
    ).append_dyn("prometheus_query_range", Handler::PrometheusQueryRange).append_dyn(
        "prometheus_list_metrics",
        Handler::PrometheusListMetrics,
    ).append_dyn("prometheus_get_metadata", Handler::PrometheusGetMetadata).append_dyn(
        "prometheus_get_series",
        Handler::PrometheusGetSeries,
    ).append_dyn("prometheus_get_label_values", Handler::PrometheusGetLabelValues)
}

/// Build the JSON-RPC router with the methods of the protocol and the tool
/// handlers.
pub fn build_rpc_router() -> (router: Router)
    ensures
        router@ == standard_routes(),
{
    proof {
        lemma_method_names_differ();
    }
    let builder = RouterBuilder::new().append_dyn("initialize", Handler::Initialize).append_dyn(
        "ping",
        Handler::Ping,
    ).append_dyn("resources/list", Handler::ResourcesList).append_dyn(
        "resources/templates/list",
        Handler::ResourceTemplatesList,
    ).append_dyn("prompts/list", Handler::PromptsList);
    let builder = register_tools(builder);
    builder.build()
}

} // verus!
