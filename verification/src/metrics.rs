//! The counters that the server keeps of itself: how often each method was
//! asked for, how often each tool was called, and how many connections are
//! open. They are metrics of the `prometheus` crate, which also writes them
//! out.

use crate::text::texts;
use vstd::multiset::Multiset;
use vstd::prelude::*;

verus! {

/// The metrics of the server and the registry that they are written out
/// from.
#[verifier::external_body]
pub struct Metrics {
    registry: prometheus::Registry,
    rpc_requests_total: prometheus::CounterVec,
    tool_calls_total: prometheus::CounterVec,
    active_connections: prometheus::Gauge,
}

/// The requests that have been counted, by method, each as often as it was
/// counted.
pub uninterp spec fn rpc_requests(m: Metrics) -> Multiset<Seq<char>>;

/// The tool calls that have been counted, each as often as it was counted.
pub uninterp spec fn tool_calls(m: Metrics) -> Multiset<Seq<char>>;

/// The number of connections that the gauge stands at.
pub uninterp spec fn active_connections(m: Metrics) -> int;

/// The names of the three metrics.
pub uninterp spec fn metric_names(m: Metrics) -> Set<Seq<char>>;

/// The names of those of the metrics for which the registry holds a
/// collector, so that they are written out. The registry knows a collector
/// by the identifier of its name and holds none twice.
pub uninterp spec fn registered(m: Metrics) -> Set<Seq<char>>;

/// Whether `c` may stand first in a name: a letter of ASCII or `_`, and in
/// the name of a metric also `:`.
pub open spec fn is_name_start(c: char, colon: bool) -> bool {
    ('a' <= c <= 'z') || ('A' <= c <= 'Z') || c == '_' || (colon && c == ':')
}

/// Whether `c` may stand in a name after its first character: what may
/// stand first, or a digit.
pub open spec fn is_name_char(c: char, colon: bool) -> bool {
    is_name_start(c, colon) || ('0' <= c <= '9')
}

/// Whether `name` is a name as the `prometheus` crate takes it: not empty,
/// and made of the characters that may stand in a name.
pub open spec fn is_valid_name(name: Seq<char>, colon: bool) -> bool {
    &&& name.len() > 0
    &&& is_name_start(name[0], colon)
    &&& forall|i: int| 0 < i < name.len() ==> is_name_char(#[trigger] name[i], colon)
}

/// Whether the crate makes a metric with this name and this help: the name
/// is valid, colons allowed, and the help is not empty.
pub open spec fn is_valid_metric(name: Seq<char>, help: Seq<char>) -> bool {
    is_valid_name(name, true) && help.len() > 0
}

/// Whether the crate makes a counter with this name and this help that is
/// partitioned by `label`.
pub open spec fn is_valid_counter(name: Seq<char>, help: Seq<char>, label: Seq<char>) -> bool {
    is_valid_metric(name, help) && is_valid_name(label, false)
}

/// Whether nothing has been counted yet and the registry is empty.
pub open spec fn is_fresh(m: Metrics) -> bool {
    &&& rpc_requests(m) == Multiset::<Seq<char>>::empty()
    &&& tool_calls(m) == Multiset::<Seq<char>>::empty()
    &&& active_connections(m) == 0
    &&& registered(m) == Set::<Seq<char>>::empty()
}

/// Whether the metrics have their names and nothing is registered with
/// their registry: as little as the counts, counting changes these.
pub open spec fn same_registry(before: Metrics, after: Metrics) -> bool {
    metric_names(after) == metric_names(before) && registered(after) == registered(before)
}

/// Makes the two counters with `CounterVec::new`, each with its one label,
/// the gauge of connections with `Gauge::new`, and an empty registry with
/// `Registry::new`. All metrics start at nothing. The crate makes a metric
/// where its help is not empty and its name and its label are valid names,
/// and refuses it otherwise: then the result is `None`.
#[verifier::external_body]
fn create(
    requests: &str,
    requests_help: &str,
    method: &str,
    calls: &str,
    calls_help: &str,
    tool: &str,
    gauge: &str,
    gauge_help: &str,
) -> (r: Option<Metrics>)
    ensures
        r.is_some() == (is_valid_counter(requests@, requests_help@, method@) && is_valid_counter(
            calls@,
            calls_help@,
            tool@,
        ) && is_valid_metric(gauge@, gauge_help@)),
        r matches Some(m) ==> is_fresh(m) && metric_names(m) == set![requests@, calls@, gauge@],
{
    let requests_opts = prometheus::Opts::new(requests, requests_help);
    let rpc_requests_total = prometheus::CounterVec::new(requests_opts, &[method]).ok()?;
    let calls_opts = prometheus::Opts::new(calls, calls_help);
    let tool_calls_total = prometheus::CounterVec::new(calls_opts, &[tool]).ok()?;
    let active_connections = prometheus::Gauge::new(gauge, gauge_help).ok()?;
    let registry = prometheus::Registry::new();
    Some(Metrics { registry, rpc_requests_total, tool_calls_total, active_connections })
}

/// The names of the metrics of the server.
pub open spec fn server_metrics() -> Set<Seq<char>> {
    set!["mcp_rpc_requests_total"@, "mcp_tool_calls_total"@, "mcp_active_connections"@]
}

impl Metrics {
    /// The metrics of the server, all at nothing and not yet registered:
    /// `mcp_rpc_requests_total` by `method`, `mcp_tool_calls_total` by
    /// `tool`, and `mcp_active_connections`. The crate takes these names,
    /// so the metrics are always made.
    pub fn new() -> (r: Option<Metrics>)
        ensures
            r matches Some(m) && is_fresh(m) && metric_names(m) == server_metrics(),
    {
        proof {
            lemma_requests_name();
            lemma_requests_label();
            lemma_counter_name();
            lemma_label_name();
            lemma_gauge_name();
            reveal_strlit("Total number of RPC requests");
            reveal_strlit("Total number of tool calls");
            reveal_strlit("Number of active connections");
        }
        create(
            "mcp_rpc_requests_total",
            "Total number of RPC requests",
            "method",
            "mcp_tool_calls_total",
            "Total number of tool calls",
            "tool",
            "mcp_active_connections",
            "Number of active connections",
        )
    }
}

/// `mcp_rpc_requests_total` is a valid name.
proof fn lemma_requests_name()
    ensures
        is_valid_name("mcp_rpc_requests_total"@, true),
{
    reveal_strlit("mcp_rpc_requests_total");
    let name = "mcp_rpc_requests_total"@;
    assert(name.len() == 22);
    assert(is_name_start(name[0], true));
    assert forall|i: int| 0 < i < name.len() implies is_name_char(#[trigger] name[i], true) by {
        assert(i == 1 ==> name[i] == 'c');
        assert(i == 2 ==> name[i] == 'p');
        assert(i == 3 ==> name[i] == '_');
        assert(i == 4 ==> name[i] == 'r');
        assert(i == 5 ==> name[i] == 'p');
        assert(i == 6 ==> name[i] == 'c');
        assert(i == 7 ==> name[i] == '_');
        assert(i == 8 ==> name[i] == 'r');
        assert(i == 9 ==> name[i] == 'e');
        assert(i == 10 ==> name[i] == 'q');
        assert(i == 11 ==> name[i] == 'u');
        assert(i == 12 ==> name[i] == 'e');
        assert(i == 13 ==> name[i] == 's');
        assert(i == 14 ==> name[i] == 't');
        assert(i == 15 ==> name[i] == 's');
        assert(i == 16 ==> name[i] == '_');
        assert(i == 17 ==> name[i] == 't');
        assert(i == 18 ==> name[i] == 'o');
        assert(i == 19 ==> name[i] == 't');
        assert(i == 20 ==> name[i] == 'a');
        assert(i == 21 ==> name[i] == 'l');
    }
}

/// `method` is a valid name.
proof fn lemma_requests_label()
    ensures
        is_valid_name("method"@, false),
{
    reveal_strlit("method");
    let name = "method"@;
    assert(name.len() == 6);
    assert(is_name_start(name[0], false));
    assert forall|i: int| 0 < i < name.len() implies is_name_char(#[trigger] name[i], false) by {
        assert(i == 1 ==> name[i] == 'e');
        assert(i == 2 ==> name[i] == 't');
        assert(i == 3 ==> name[i] == 'h');
        assert(i == 4 ==> name[i] == 'o');
        assert(i == 5 ==> name[i] == 'd');
    }
}

/// `mcp_tool_calls_total` is a valid name.
proof fn lemma_counter_name()
    ensures
        is_valid_name("mcp_tool_calls_total"@, true),
{
    reveal_strlit("mcp_tool_calls_total");
    let name = "mcp_tool_calls_total"@;
    assert(name.len() == 20);
    assert(is_name_start(name[0], true));
    assert forall|i: int| 0 < i < name.len() implies is_name_char(#[trigger] name[i], true) by {
        assert(i == 1 ==> name[i] == 'c');
        assert(i == 2 ==> name[i] == 'p');
        assert(i == 3 ==> name[i] == '_');
        assert(i == 4 ==> name[i] == 't');
        assert(i == 5 ==> name[i] == 'o');
        assert(i == 6 ==> name[i] == 'o');
        assert(i == 7 ==> name[i] == 'l');
        assert(i == 8 ==> name[i] == '_');
        assert(i == 9 ==> name[i] == 'c');
        assert(i == 10 ==> name[i] == 'a');
        assert(i == 11 ==> name[i] == 'l');
        assert(i == 12 ==> name[i] == 'l');
        assert(i == 13 ==> name[i] == 's');
        assert(i == 14 ==> name[i] == '_');
        assert(i == 15 ==> name[i] == 't');
        assert(i == 16 ==> name[i] == 'o');
        assert(i == 17 ==> name[i] == 't');
        assert(i == 18 ==> name[i] == 'a');
        assert(i == 19 ==> name[i] == 'l');
    }
}

/// `tool` is a valid name.
proof fn lemma_label_name()
    ensures
        is_valid_name("tool"@, false),
{
    reveal_strlit("tool");
    let name = "tool"@;
    assert(name.len() == 4);
    assert(is_name_start(name[0], false));
    assert forall|i: int| 0 < i < name.len() implies is_name_char(#[trigger] name[i], false) by {
        assert(i == 1 ==> name[i] == 'o');
        assert(i == 2 ==> name[i] == 'o');
        assert(i == 3 ==> name[i] == 'l');
    }
}

/// `mcp_active_connections` is a valid name.
proof fn lemma_gauge_name()
    ensures
        is_valid_name("mcp_active_connections"@, true),
{
    reveal_strlit("mcp_active_connections");
    let name = "mcp_active_connections"@;
    assert(name.len() == 22);
    assert(is_name_start(name[0], true));
    assert forall|i: int| 0 < i < name.len() implies is_name_char(#[trigger] name[i], true) by {
        assert(i == 1 ==> name[i] == 'c');
        assert(i == 2 ==> name[i] == 'p');
        assert(i == 3 ==> name[i] == '_');
        assert(i == 4 ==> name[i] == 'a');
        assert(i == 5 ==> name[i] == 'c');
        assert(i == 6 ==> name[i] == 't');
        assert(i == 7 ==> name[i] == 'i');
        assert(i == 8 ==> name[i] == 'v');
        assert(i == 9 ==> name[i] == 'e');
        assert(i == 10 ==> name[i] == '_');
        assert(i == 11 ==> name[i] == 'c');
        assert(i == 12 ==> name[i] == 'o');
        assert(i == 13 ==> name[i] == 'n');
        assert(i == 14 ==> name[i] == 'n');
        assert(i == 15 ==> name[i] == 'e');
        assert(i == 16 ==> name[i] == 'c');
        assert(i == 17 ==> name[i] == 't');
        assert(i == 18 ==> name[i] == 'i');
        assert(i == 19 ==> name[i] == 'o');
        assert(i == 20 ==> name[i] == 'n');
        assert(i == 21 ==> name[i] == 's');
    }
}

/// What registering the metrics does: afterwards the registry holds a
/// collector for each of the metrics, and what has been counted stays as it
/// is.
pub open spec fn is_registration(before: Metrics, after: Metrics) -> bool {
    &&& registered(after) == metric_names(before)
    &&& metric_names(after) == metric_names(before)
    &&& rpc_requests(after) == rpc_requests(before)
    &&& tool_calls(after) == tool_calls(before)
    &&& active_connections(after) == active_connections(before)
}

/// Registers the metrics with the registry, with `Registry::register`, so
/// that they are written out. Afterwards the registry holds a collector for
/// each of the metrics; for one that it holds already it refuses the second
/// registration, so a second call changes nothing. What has been counted
/// stays as it is.
#[verifier::external_body]
pub fn init_metrics(metrics: &mut Metrics)
    ensures
        is_registration(*old(metrics), *final(metrics)),
        registered(*final(metrics)) == metric_names(*old(metrics)),
{
    let _ = metrics.registry.register(Box::new(metrics.rpc_requests_total.clone()));
    let _ = metrics.registry.register(Box::new(metrics.tool_calls_total.clone()));
    let _ = metrics.registry.register(Box::new(metrics.active_connections.clone()));
}

/// Counts a request to `method`: the counter of that method goes up by
/// one, with `CounterVec::with_label_values` and `Counter::inc`. The
/// counter has the one label that it was made with, so the call cannot
/// fail.
#[verifier::external_body]
pub fn count_rpc_request(metrics: &mut Metrics, method: &str)
    ensures
        rpc_requests(*final(metrics)) == rpc_requests(*old(metrics)).insert(method@),
        tool_calls(*final(metrics)) == tool_calls(*old(metrics)),
        active_connections(*final(metrics)) == active_connections(*old(metrics)),
        same_registry(*old(metrics), *final(metrics)),
{
    metrics.rpc_requests_total.with_label_values(&[method]).inc();
}

/// Record a tool call: the counter of that tool goes up by one, with
/// `CounterVec::with_label_values` and `Counter::inc`. The counter has the
/// one label that it was made with, so the call cannot fail.
#[verifier::external_body]
pub fn record_tool_call(metrics: &mut Metrics, tool: &str)
    ensures
        tool_calls(*final(metrics)) == tool_calls(*old(metrics)).insert(tool@),
        rpc_requests(*final(metrics)) == rpc_requests(*old(metrics)),
        active_connections(*final(metrics)) == active_connections(*old(metrics)),
        same_registry(*old(metrics), *final(metrics)),
{
    metrics.tool_calls_total.with_label_values(&[tool]).inc();
}

/// Increment active connections: the gauge goes up by one, with
/// `Gauge::inc`.
#[verifier::external_body]
pub fn increment_active_connections(metrics: &mut Metrics)
    ensures
        active_connections(*final(metrics)) == active_connections(*old(metrics)) + 1,
        rpc_requests(*final(metrics)) == rpc_requests(*old(metrics)),
        tool_calls(*final(metrics)) == tool_calls(*old(metrics)),
        same_registry(*old(metrics), *final(metrics)),
{
    metrics.active_connections.inc();
}

/// Decrement active connections: the gauge goes down by one, with
/// `Gauge::dec`.
#[verifier::external_body]
pub fn decrement_active_connections(metrics: &mut Metrics)
    ensures
        active_connections(*final(metrics)) == active_connections(*old(metrics)) - 1,
        rpc_requests(*final(metrics)) == rpc_requests(*old(metrics)),
        tool_calls(*final(metrics)) == tool_calls(*old(metrics)),
        same_registry(*old(metrics), *final(metrics)),
{
    metrics.active_connections.dec();
}

/// Get all metrics as a string, in the text format of Prometheus: what
/// `Registry::gather` collects, written by `TextEncoder::encode`. Empty
/// where that fails.
#[verifier::external_body]
pub fn get_metrics_as_string(metrics: &Metrics) -> (text: String) {
    let mut buffer = Vec::new();
    let families = metrics.registry.gather();
    match prometheus::Encoder::encode(&prometheus::TextEncoder::new(), &families, &mut buffer) {
        Ok(()) => String::from_utf8(buffer).unwrap_or_default(),
        Err(_) => String::new(),
    }
}

/// Registering the metrics a second time leaves the registry with the same
/// collectors, one for each metric, and leaves every count as it is.
pub proof fn lemma_second_registration_changes_nothing(
    before: Metrics,
    once: Metrics,
    twice: Metrics,
)
    requires
        is_registration(before, once),
        is_registration(once, twice),
    ensures
        same_registry(once, twice),
        registered(twice) == metric_names(before),
        rpc_requests(twice) == rpc_requests(before),
        tool_calls(twice) == tool_calls(before),
        active_connections(twice) == active_connections(before),
{
}

/// Counts every tool of a list, in its order.
pub fn record_tool_calls(metrics: &mut Metrics, tools: &Vec<String>)
    ensures
        tool_calls(*final(metrics)) == tool_calls(*old(metrics)).add(texts(tools@).to_multiset()),
        rpc_requests(*final(metrics)) == rpc_requests(*old(metrics)),
        active_connections(*final(metrics)) == active_connections(*old(metrics)),
        same_registry(*old(metrics), *final(metrics)),
{
    let ghost names = texts(tools@);
    let mut i: usize = 0;
    assert(names.take(0) =~= Seq::<Seq<char>>::empty());
    proof {
        let none = Seq::<Seq<char>>::empty();
        none.to_multiset_ensures();
        assert(none.to_multiset().len() == 0);
        assert(none.to_multiset() =~= Multiset::empty());
        assert(tool_calls(*metrics).add(none.to_multiset()) =~= tool_calls(*metrics));
    }
    while i < tools.len()
        invariant
            i <= tools.len(),
            names == texts(tools@),
            tool_calls(*metrics) == tool_calls(*old(metrics)).add(
                names.take(i as int).to_multiset(),
            ),
            rpc_requests(*metrics) == rpc_requests(*old(metrics)),
            active_connections(*metrics) == active_connections(*old(metrics)),
            same_registry(*old(metrics), *metrics),
        decreases tools.len() - i,
    {
        record_tool_call(metrics, tools[i].as_str());
        proof {
            let done = names.take(i as int);
            assert(names.take(i + 1) =~= done.push(names[i as int]));
            done.to_multiset_ensures();
            assert(done.push(names[i as int]).to_multiset() =~= done.to_multiset().insert(
                names[i as int],
            ));
            assert(names[i as int] == tools@[i as int]@);
            assert(tool_calls(*metrics) =~= tool_calls(*old(metrics)).add(
                names.take(i + 1).to_multiset(),
            ));
        }
        i = i + 1;
    }
    assert(names.take(i as int) =~= names);
}

} // verus!
