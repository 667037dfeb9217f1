//! The six tools: their catalogue with the schema of each, the parameters
//! that each takes, and what each hands back for an answer of the server.

use crate::json::{
    absent, array_of, array_view, item_view, json_pretty, text_array, Json, JsonValue,
    ObjectBuilder,
};
use crate::names::stamp;
use crate::prometheus_client::{
    distinct_labels, pairs_view, ErrorView, MetadataView, MetricMetadata, PrometheusError,
};
use crate::query_result::PrometheusQueryResult;
use crate::text::{opt_text, texts};
use crate::types::{
    properties_json, text_result, texts_json, CallToolResult, ListToolsResult, Tool,
    ToolInputSchema, ToolInputSchemaProperty,
};
use vstd::prelude::*;
use vstd::string::*;

verus! {

/// The schema of a parameter that is a string.
pub open spec fn string_property_json(description: Seq<char>) -> JsonValue {
    JsonValue::Object(
        seq![("type"@, JsonValue::Text("string"@)), ("description"@, JsonValue::Text(description))],
    )
}

/// The schema of a parameter that is a list of at least one string.
pub open spec fn string_list_property_json(description: Seq<char>) -> JsonValue {
    JsonValue::Object(
        seq![
            ("type"@, JsonValue::Text("array"@)),
            ("description"@, JsonValue::Text(description)),
            ("items"@, JsonValue::Object(seq![("type"@, JsonValue::Text("string"@))])),
            ("minItems"@, JsonValue::Number(seq!['1'])),
        ],
    )
}

/// The schema of an object with the given properties, of which `required`
/// must be there and beside which nothing else may be.
pub open spec fn closed_schema_json(
    properties: Seq<(Seq<char>, JsonValue)>,
    required: Seq<Seq<char>>,
) -> JsonValue {
    JsonValue::Object(
        seq![
            ("type"@, JsonValue::Text("object"@)),
            ("properties"@, JsonValue::Object(properties)),
            ("required"@, JsonValue::Array(Seq::new(required.len(), |i: int| JsonValue::Text(required[i])))),
            ("additionalProperties"@, JsonValue::Bool(false)),
        ],
    )
}

/// The catalogue entry of a tool. Its schema stands under two names.
pub open spec fn tool_json(name: Seq<char>, description: Seq<char>, schema: JsonValue) -> JsonValue {
    JsonValue::Object(
        seq![
            ("name"@, JsonValue::Text(name)),
            ("description"@, JsonValue::Text(description)),
            ("inputSchema"@, schema),
            ("parameters"@, schema),
        ],
    )
}

/// The schema of the parameters of `prometheus_query`.
pub open spec fn query_schema_json() -> JsonValue {
    closed_schema_json(
        seq![
            ("query"@, string_property_json("Prometheus query string"@)),
            ("time"@, string_property_json("Evaluation timestamp (RFC3339 or Unix timestamp)"@)),
        ],
        seq!["query"@],
    )
}

/// The schema of the parameters of `prometheus_query_range`.
pub open spec fn range_schema_json() -> JsonValue {
    closed_schema_json(
        seq![
            ("query"@, string_property_json("Prometheus query string"@)),
            ("start"@, string_property_json("Start timestamp (RFC3339 or Unix timestamp)"@)),
            ("end"@, string_property_json("End timestamp (RFC3339 or Unix timestamp)"@)),
            ("step"@, string_property_json("Query resolution step width (e.g. 30s, 1m, 1h)"@)),
        ],
        seq!["query"@, "start"@, "end"@, "step"@],
    )
}

/// The schema of the parameters of `prometheus_list_metrics`: none.
pub open spec fn list_metrics_schema_json() -> JsonValue {
    closed_schema_json(Seq::empty(), Seq::empty())
}

/// The schema of the parameters of `prometheus_get_metadata`.
pub open spec fn metadata_schema_json() -> JsonValue {
    closed_schema_json(seq![("metric"@, string_property_json("Metric name"@))], seq!["metric"@])
}

/// The schema of the parameters of `prometheus_get_series`.
pub open spec fn series_schema_json() -> JsonValue {
    closed_schema_json(
        seq![
            (
                "match_strings"@,
                string_list_property_json(
                    "Array of Prometheus series selectors (e.g. ['up', 'node_cpu_seconds_total{mode=\"idle\"}'])"@,
                ),
            ),
        ],
        seq!["match_strings"@],
    )
}

/// The schema of the parameters of `prometheus_get_label_values`.
pub open spec fn label_values_schema_json() -> JsonValue {
    closed_schema_json(
        seq![("label_name"@, string_property_json("Label name"@))],
        seq!["label_name"@],
    )
}

/// The catalogue entries of the six tools, in the order in which
/// `tools/list` names them.
pub open spec fn catalogue_entries() -> Seq<JsonValue> {
    seq![
        tool_json("prometheus_query"@, "Execute a Prometheus instant query"@, query_schema_json()),
        tool_json(
            "prometheus_query_range"@,
            "Execute a Prometheus range query"@,
            range_schema_json(),
        ),
        tool_json(
            "prometheus_list_metrics"@,
            "List all metric names that can be queried from Prometheus"@,
            list_metrics_schema_json(),
        ),
        tool_json(
            "prometheus_get_metadata"@,
            "Get metadata about a specific metric"@,
            metadata_schema_json(),
        ),
        tool_json(
            "prometheus_get_series"@,
            "Get time series data for a specific metric with optional label matchers"@,
            series_schema_json(),
        ),
        tool_json(
            "prometheus_get_label_values"@,
            "Get all label values for a specific label name"@,
            label_values_schema_json(),
        ),
    ]
}

/// The answer to `tools/list`: the six tools.
pub open spec fn tools_catalogue() -> JsonValue {
    JsonValue::Object(seq![("tools"@, JsonValue::Array(catalogue_entries()))])
}

/// A string parameter named `name`.
fn string_property(name: &str, description: &str) -> (p: (String, ToolInputSchemaProperty))
    ensures
        p.0@ == name@,
        p.1@ == string_property_json(description@),
{
    let property = ToolInputSchemaProperty {
        kind: Some(String::from_str("string")),
        description: Some(String::from_str(description)),
        enum_values: None,
        items: None,
        min_items: None,
    };
    assert(property@->Object_0 =~= string_property_json(description@)->Object_0);
    (String::from_str(name), property)
}

/// A parameter named `name` that is a list of at least one string.
fn string_list_property(name: &str, description: &str) -> (p: (String, ToolInputSchemaProperty))
    ensures
        p.0@ == name@,
        p.1@ == string_list_property_json(description@),
{
    let item = ToolInputSchemaProperty {
        kind: Some(String::from_str("string")),
        enum_values: None,
        description: None,
        items: None,
        min_items: None,
    };
    assert(item@->Object_0 =~= seq![("type"@, JsonValue::Text("string"@))]);
    let property = ToolInputSchemaProperty {
        kind: Some(String::from_str("array")),
        description: Some(String::from_str(description)),
        enum_values: None,
        items: Some(Box::new(item)),
        min_items: Some(1),
    };
    assert(property@->Object_0 =~= string_list_property_json(description@)->Object_0);
    (String::from_str(name), property)
}

/// The schema of an object with the given properties, beside which nothing
/// else may be.
fn closed_schema(properties: Vec<(String, ToolInputSchemaProperty)>, required: Vec<String>) -> (s:
    ToolInputSchema)
    ensures
        s@ == closed_schema_json(properties_json(properties@), texts(required@)),
        s.properties == properties,
{
    let s = ToolInputSchema {
        kind: String::from_str("object"),
        properties,
        required,
        additional_properties: Some(false),
    };
    assert(texts_json(s.required@)->Array_0 =~= Seq::new(
        texts(required@).len(),
        |i: int| JsonValue::Text(texts(required@)[i]),
    ));
    assert(s@->Object_0 =~= closed_schema_json(
        properties_json(properties@),
        texts(required@),
    )->Object_0);
    s
}

fn query_schema() -> (s: ToolInputSchema)
    ensures
        s@ == query_schema_json(),
        s.wf(),
{
    proof {
        reveal_strlit("query");
        reveal_strlit("time");
        let _ = stamp("query"@);
        let _ = stamp("time"@);
    }
    let mut properties: Vec<(String, ToolInputSchemaProperty)> = Vec::new();
    properties.push(string_property("query", "Prometheus query string"));
    properties.push(
        string_property("time", "Evaluation timestamp (RFC3339 or Unix timestamp)"),
    );
    let mut required: Vec<String> = Vec::new();
    required.push(String::from_str("query"));
    assert(properties_json(properties@) =~= seq![
        ("query"@, string_property_json("Prometheus query string"@)),
        ("time"@, string_property_json("Evaluation timestamp (RFC3339 or Unix timestamp)"@)),
    ]);
    assert(texts(required@) =~= seq!["query"@]);
    closed_schema(properties, required)
}

fn range_schema() -> (s: ToolInputSchema)
    ensures
        s@ == range_schema_json(),
        s.wf(),
{
    proof {
        reveal_strlit("query");
        reveal_strlit("start");
        reveal_strlit("end");
        reveal_strlit("step");
        let _ = stamp("query"@);
        let _ = stamp("start"@);
        let _ = stamp("end"@);
        let _ = stamp("step"@);
    }
    let mut properties: Vec<(String, ToolInputSchemaProperty)> = Vec::new();
    properties.push(string_property("query", "Prometheus query string"));
    properties.push(string_property("start", "Start timestamp (RFC3339 or Unix timestamp)"));
    properties.push(string_property("end", "End timestamp (RFC3339 or Unix timestamp)"));
    properties.push(string_property("step", "Query resolution step width (e.g. 30s, 1m, 1h)"));
    let mut required: Vec<String> = Vec::new();
    required.push(String::from_str("query"));
    required.push(String::from_str("start"));
    required.push(String::from_str("end"));
    required.push(String::from_str("step"));
    assert(properties_json(properties@) =~= seq![
        ("query"@, string_property_json("Prometheus query string"@)),
        ("start"@, string_property_json("Start timestamp (RFC3339 or Unix timestamp)"@)),
        ("end"@, string_property_json("End timestamp (RFC3339 or Unix timestamp)"@)),
        ("step"@, string_property_json("Query resolution step width (e.g. 30s, 1m, 1h)"@)),
    ]);
    assert(texts(required@) =~= seq!["query"@, "start"@, "end"@, "step"@]);
    closed_schema(properties, required)
}

fn list_metrics_schema() -> (s: ToolInputSchema)
    ensures
        s@ == list_metrics_schema_json(),
        s.wf(),
{
    let properties: Vec<(String, ToolInputSchemaProperty)> = Vec::new();
    let required: Vec<String> = Vec::new();
    assert(properties_json(properties@) =~= Seq::empty());
    assert(texts(required@) =~= Seq::empty());
    closed_schema(properties, required)
}

fn metadata_schema() -> (s: ToolInputSchema)
    ensures
        s@ == metadata_schema_json(),
        s.wf(),
{
    let mut properties: Vec<(String, ToolInputSchemaProperty)> = Vec::new();
    properties.push(string_property("metric", "Metric name"));
    let mut required: Vec<String> = Vec::new();
    required.push(String::from_str("metric"));
    assert(properties_json(properties@) =~= seq![
        ("metric"@, string_property_json("Metric name"@)),
    ]);
    assert(texts(required@) =~= seq!["metric"@]);
    closed_schema(properties, required)
}

fn series_schema() -> (s: ToolInputSchema)
    ensures
        s@ == series_schema_json(),
        s.wf(),
{
    let mut properties: Vec<(String, ToolInputSchemaProperty)> = Vec::new();
    properties.push(
        string_list_property(
            "match_strings",
            "Array of Prometheus series selectors (e.g. ['up', 'node_cpu_seconds_total{mode=\"idle\"}'])",
        ),
    );
    let mut required: Vec<String> = Vec::new();
    required.push(String::from_str("match_strings"));
    assert(properties_json(properties@) =~= seq![
        (
            "match_strings"@,
            string_list_property_json(
                "Array of Prometheus series selectors (e.g. ['up', 'node_cpu_seconds_total{mode=\"idle\"}'])"@,
            ),
        ),
    ]);
    assert(texts(required@) =~= seq!["match_strings"@]);
    closed_schema(properties, required)
}

fn label_values_schema() -> (s: ToolInputSchema)
    ensures
        s@ == label_values_schema_json(),
        s.wf(),
{
    let mut properties: Vec<(String, ToolInputSchemaProperty)> = Vec::new();
    properties.push(string_property("label_name", "Label name"));
    let mut required: Vec<String> = Vec::new();
    required.push(String::from_str("label_name"));
    assert(properties_json(properties@) =~= seq![
        ("label_name"@, string_property_json("Label name"@)),
    ]);
    assert(texts(required@) =~= seq!["label_name"@]);
    closed_schema(properties, required)
}

/// The catalogue entry of a tool whose schema is given twice over.
fn tool(name: &str, description: &str, schema: ToolInputSchema, again: ToolInputSchema) -> (t: Tool)
    requires
        schema.wf(),
        again.wf(),
        again@ == schema@,
    ensures
        t@ == tool_json(name@, description@, schema@),
        t.wf(),
        t.name@ == name@,
{
    let t = Tool {
        name: String::from_str(name),
        description: Some(String::from_str(description)),
        parameters: Some(again),
        input_schema: schema,
    };
    assert(t@->Object_0 =~= tool_json(name@, description@, schema@)->Object_0);
    t
}

/// The tools that this server offers, each with the schema of its
/// parameters.
pub fn tools_list() -> (list: ListToolsResult)
    ensures
        list@ == tools_catalogue(),
        list.wf(),
        list.tools@.len() == 6,
{
    let mut tools: Vec<Tool> = Vec::new();
    let t0 = tool(
        "prometheus_query",
        "Execute a Prometheus instant query",
        query_schema(),
        query_schema(),
    );
    let t1 = tool(
        "prometheus_query_range",
        "Execute a Prometheus range query",
        range_schema(),
        range_schema(),
    );
    let t2 = tool(
        "prometheus_list_metrics",
        "List all metric names that can be queried from Prometheus",
        list_metrics_schema(),
        list_metrics_schema(),
    );
    let t3 = tool(
        "prometheus_get_metadata",
        "Get metadata about a specific metric",
        metadata_schema(),
        metadata_schema(),
    );
    let t4 = tool(
        "prometheus_get_series",
        "Get time series data for a specific metric with optional label matchers",
        series_schema(),
        series_schema(),
    );
    let t5 = tool(
        "prometheus_get_label_values",
        "Get all label values for a specific label name",
        label_values_schema(),
        label_values_schema(),
    );
    let ghost entries = seq![t0@, t1@, t2@, t3@, t4@, t5@];
    assert(entries =~= catalogue_entries());
    tools.push(t0);
    tools.push(t1);
    tools.push(t2);
    tools.push(t3);
    tools.push(t4);
    tools.push(t5);
    let list = ListToolsResult { tools, next_cursor: None };
    assert(Seq::new(list.tools@.len(), |i: int| list.tools@[i]@) =~= entries);
    assert(list@->Object_0 =~= tools_catalogue()->Object_0);
    list
}

/// What an optional text member decodes to: nothing where it is missing or
/// `null`, the text where it is one, and `None` where it is anything else.
pub open spec fn optional_text(v: JsonValue, key: Seq<char>) -> Option<Option<Seq<char>>> {
    match v.field(key) {
        None => Some(None),
        Some(JsonValue::Null) => Some(None),
        Some(JsonValue::Text(s)) => Some(Some(s)),
        Some(_) => None,
    }
}

/// The texts of an array of texts; `None` where an item is no text.
pub open spec fn all_texts(items: Seq<JsonValue>) -> Option<Seq<Seq<char>>> {
    if forall|i: int| 0 <= i < items.len() ==> (#[trigger] items[i]) is Text {
        Some(Seq::new(items.len(), |i: int| items[i]->Text_0))
    } else {
        None
    }
}

/// The texts of the array member `key`.
pub open spec fn text_list(v: JsonValue, key: Seq<char>) -> Option<Seq<Seq<char>>> {
    match v.field(key) {
        Some(JsonValue::Array(items)) => all_texts(items),
        _ => None,
    }
}

/// Reads an optional text member.
pub fn read_optional_text(v: &Json, key: &str) -> (r: Option<Option<String>>)
    ensures
        match r {
            Some(t) => optional_text(v@, key@) == Some(opt_text(t)),
            None => optional_text(v@, key@) is None,
        },
{
    match v.get(key) {
        None => Some(None),
        Some(m) => {
            if m.is_null() {
                Some(None)
            } else {
                match m.as_str() {
                    Some(s) => Some(Some(String::from_str(s))),
                    None => None,
                }
            }
        },
    }
}

/// Reads a required text member.
pub fn read_text(v: &Json, key: &str) -> (r: Option<String>)
    ensures
        opt_text(r) == v@.text_field(key@),
{
    match v.get_str(key) {
        Some(s) => Some(String::from_str(s)),
        None => None,
    }
}

/// The parameters of `prometheus_query`.
#[derive(Debug)]
pub struct PrometheusQueryRequest {
    pub query: String,
    pub time: Option<String>,
}

/// The parameters of `prometheus_query_range`.
#[derive(Debug)]
pub struct PrometheusQueryRangeRequest {
    pub query: String,
    pub start: String,
    pub end: String,
    pub step: String,
}

/// The parameters of `prometheus_list_metrics`: none.
#[derive(Debug)]
pub struct PrometheusListMetricsRequest {}

/// The parameters of `prometheus_get_metadata`.
#[derive(Debug)]
pub struct PrometheusGetMetadataRequest {
    pub metric: String,
}

/// The parameters of `prometheus_get_series`.
#[derive(Debug)]
pub struct PrometheusGetSeriesRequest {
    pub match_strings: Vec<String>,
}

/// The parameters of `prometheus_get_label_values`.
#[derive(Debug)]
pub struct PrometheusGetLabelValuesRequest {
    pub label_name: String,
}

/// The call of a tool with its parameters, as a mathematical value.
pub ghost enum ToolCallView {
    Query { query: Seq<char>, time: Option<Seq<char>> },
    QueryRange { query: Seq<char>, start: Seq<char>, end: Seq<char>, step: Seq<char> },
    ListMetrics,
    GetMetadata { metric: Seq<char> },
    GetSeries { match_strings: Seq<Seq<char>> },
    GetLabelValues { label_name: Seq<char> },
}

impl View for PrometheusQueryRequest {
    type V = ToolCallView;

    open spec fn view(&self) -> ToolCallView {
        ToolCallView::Query { query: self.query@, time: opt_text(self.time) }
    }
}

impl View for PrometheusQueryRangeRequest {
    type V = ToolCallView;

    open spec fn view(&self) -> ToolCallView {
        ToolCallView::QueryRange {
            query: self.query@,
            start: self.start@,
            end: self.end@,
            step: self.step@,
        }
    }
}

impl View for PrometheusListMetricsRequest {
    type V = ToolCallView;

    open spec fn view(&self) -> ToolCallView {
        ToolCallView::ListMetrics
    }
}

impl View for PrometheusGetMetadataRequest {
    type V = ToolCallView;

    open spec fn view(&self) -> ToolCallView {
        ToolCallView::GetMetadata { metric: self.metric@ }
    }
}

impl View for PrometheusGetSeriesRequest {
    type V = ToolCallView;

    open spec fn view(&self) -> ToolCallView {
        ToolCallView::GetSeries { match_strings: texts(self.match_strings@) }
    }
}

impl View for PrometheusGetLabelValuesRequest {
    type V = ToolCallView;

    open spec fn view(&self) -> ToolCallView {
        ToolCallView::GetLabelValues { label_name: self.label_name@ }
    }
}

/// The parameters of an instant query that a JSON value holds: an object
/// with the text `query` and, where it is there and not `null`, the text
/// `time`. Other members are passed over.
pub open spec fn decode_query_request(v: JsonValue) -> Option<ToolCallView> {
    match (v.text_field("query"@), optional_text(v, "time"@)) {
        (Some(query), Some(time)) => Some(ToolCallView::Query { query, time }),
        _ => None,
    }
}

/// The parameters of a range query that a JSON value holds: an object with
/// the texts `query`, `start`, `end` and `step`.
pub open spec fn decode_range_request(v: JsonValue) -> Option<ToolCallView> {
    match (
        v.text_field("query"@),
        v.text_field("start"@),
        v.text_field("end"@),
        v.text_field("step"@),
    ) {
        (Some(query), Some(start), Some(end), Some(step)) => Some(
            ToolCallView::QueryRange { query, start, end, step },
        ),
        _ => None,
    }
}

/// The parameters of `prometheus_list_metrics` that a JSON value holds: any
/// object will do.
pub open spec fn decode_list_metrics_request(v: JsonValue) -> Option<ToolCallView> {
    if v is Object {
        Some(ToolCallView::ListMetrics)
    } else {
        None
    }
}

/// The parameters of `prometheus_get_metadata` that a JSON value holds: an
/// object with the text `metric`.
pub open spec fn decode_metadata_request(v: JsonValue) -> Option<ToolCallView> {
    match v.text_field("metric"@) {
        Some(metric) => Some(ToolCallView::GetMetadata { metric }),
        None => None,
    }
}

/// The parameters of `prometheus_get_series` that a JSON value holds: an
/// object with the array of texts `match_strings`.
pub open spec fn decode_series_request(v: JsonValue) -> Option<ToolCallView> {
    match text_list(v, "match_strings"@) {
        Some(match_strings) => Some(ToolCallView::GetSeries { match_strings }),
        None => None,
    }
}

/// The parameters of `prometheus_get_label_values` that a JSON value holds:
/// an object with the text `label_name`.
pub open spec fn decode_label_values_request(v: JsonValue) -> Option<ToolCallView> {
    match v.text_field("label_name"@) {
        Some(label_name) => Some(ToolCallView::GetLabelValues { label_name }),
        None => None,
    }
}

/// The view of what a decoder returned.
pub open spec fn decoded<T: View>(r: Option<T>) -> Option<T::V> {
    match r {
        Some(request) => Some(request@),
        None => None,
    }
}

impl PrometheusQueryRequest {
    /// Reads the parameters from the JSON value that a request carries;
    /// `None` where the value does not hold them.
    pub fn from_json(params: &Json) -> (r: Option<Self>)
        ensures
            decoded(r) == decode_query_request(params@),
    {
        let query = match read_text(params, "query") {
            Some(q) => q,
            None => {
                return None;
            },
        };
        match read_optional_text(params, "time") {
            Some(time) => Some(PrometheusQueryRequest { query, time }),
            None => None,
        }
    }
}

impl PrometheusQueryRangeRequest {
    /// Reads the parameters from the JSON value that a request carries;
    /// `None` where the value does not hold them.
    pub fn from_json(params: &Json) -> (r: Option<Self>)
        ensures
            decoded(r) == decode_range_request(params@),
    {
        match (
            read_text(params, "query"),
            read_text(params, "start"),
            read_text(params, "end"),
            read_text(params, "step"),
        ) {
            (Some(query), Some(start), Some(end), Some(step)) => Some(
                PrometheusQueryRangeRequest { query, start, end, step },
            ),
            _ => None,
        }
    }
}

impl PrometheusListMetricsRequest {
    /// Reads the parameters from the JSON value that a request carries;
    /// `None` where the value does not hold them.
    pub fn from_json(params: &Json) -> (r: Option<Self>)
        ensures
            decoded(r) == decode_list_metrics_request(params@),
    {
        if params.is_object() {
            Some(PrometheusListMetricsRequest {  })
        } else {
            None
        }
    }
}

impl PrometheusGetMetadataRequest {
    /// Reads the parameters from the JSON value that a request carries;
    /// `None` where the value does not hold them.
    pub fn from_json(params: &Json) -> (r: Option<Self>)
        ensures
            decoded(r) == decode_metadata_request(params@),
    {
        match read_text(params, "metric") {
            Some(metric) => Some(PrometheusGetMetadataRequest { metric }),
            None => None,
        }
    }
}

impl PrometheusGetSeriesRequest {
    /// Reads the parameters from the JSON value that a request carries;
    /// `None` where the value does not hold them.
    pub fn from_json(params: &Json) -> (r: Option<Self>)
        ensures
            decoded(r) == decode_series_request(params@),
    {
        let items = match params.get("match_strings") {
            Some(m) => match m.as_array() {
                Some(items) => items,
                None => {
                    return None;
                },
            },
            None => {
                return None;
            },
        };
        let ghost all = array_view(items@);
        let mut match_strings: Vec<String> = Vec::new();
        let mut i: usize = 0;
        while i < items.len()
            invariant
                i <= items.len(),
                all == array_view(items@),
                params@.field("match_strings"@) == Some(JsonValue::Array(all)),
                match_strings.len() == i,
                forall|j: int| 0 <= j < i ==> all[j] == JsonValue::Text((#[trigger] match_strings@[j])@),
            decreases items.len() - i,
        {
            assert(all[i as int] == item_view(items@, i as int));
            match items[i].as_str() {
                Some(s) => {
                    match_strings.push(String::from_str(s));
                },
                None => {
                    assert(!(all[i as int] is Text));
                    return None;
                },
            }
            i = i + 1;
        }
        assert(all_texts(all) == Some(texts(match_strings@))) by {
            assert forall|j: int| 0 <= j < all.len() implies (#[trigger] all[j]) is Text by {
                assert(all[j] == JsonValue::Text(match_strings@[j]@));
            }
            assert(all_texts(all)->0 =~= texts(match_strings@));
        }
        Some(PrometheusGetSeriesRequest { match_strings })
    }
}

impl PrometheusGetLabelValuesRequest {
    /// Reads the parameters from the JSON value that a request carries;
    /// `None` where the value does not hold them.
    pub fn from_json(params: &Json) -> (r: Option<Self>)
        ensures
            decoded(r) == decode_label_values_request(params@),
    {
        match read_text(params, "label_name") {
            Some(label_name) => Some(PrometheusGetLabelValuesRequest { label_name }),
            None => None,
        }
    }
}

/// The detailed form of an error, which is what a tool shows of it.
pub fn err_string(err: &PrometheusError) -> (s: String)
    ensures
        s@ == err@.detail(),
{
    err.detail()
}

/// The JSON form of the metadata of a metric.
pub open spec fn metadata_json(m: MetadataView) -> JsonValue {
    JsonValue::Object(
        seq![
            ("metric"@, JsonValue::Text(m.metric)),
            ("type"@, JsonValue::Text(m.kind)),
            ("help"@, JsonValue::Text(m.help)),
            ("unit"@, JsonValue::Text(m.unit)),
        ],
    )
}

/// The JSON form of a set of labels.
pub open spec fn label_set_json(labels: Seq<(Seq<char>, Seq<char>)>) -> JsonValue {
    JsonValue::Object(Seq::new(labels.len(), |i: int| (labels[i].0, JsonValue::Text(labels[i].1))))
}

/// What a tool hands back for the outcome of its call: the indented JSON
/// text of the answer, or the detailed form of the failure and the mark of
/// an error.
pub open spec fn tool_reply(outcome: Result<JsonValue, ErrorView>) -> JsonValue {
    match outcome {
        Ok(answer) => text_result(json_pretty(answer), false),
        Err(e) => text_result(e.detail(), true),
    }
}

/// The result for an answer that is written as `answer`.
fn answer_result(answer: &Json) -> (r: CallToolResult)
    requires
        answer.wf(),
    ensures
        r@ == tool_reply(Ok(answer@)),
        !r.is_error,
{
    CallToolResult::of_text(answer.render_pretty(), false)
}

/// The result for a failure.
fn failure_result(err: &PrometheusError) -> (r: CallToolResult)
    ensures
        r@ == tool_reply(Err(err@)),
        r.is_error,
{
    CallToolResult::of_text(err_string(err), true)
}

/// What `prometheus_query` hands back for the outcome of the query.
pub fn prometheus_query(outcome: &Result<PrometheusQueryResult, PrometheusError>) -> (r:
    CallToolResult)
    requires
        outcome matches Ok(q) ==> q.wf(),
    ensures
        r@ == tool_reply(
            match *outcome {
                Ok(q) => Ok(q@),
                Err(e) => Err(e@),
            },
        ),
        r.is_error == (*outcome is Err),
{
    match outcome {
        Ok(q) => answer_result(&q.to_json()),
        Err(e) => failure_result(e),
    }
}

/// What `prometheus_query_range` hands back for the outcome of the query.
pub fn prometheus_query_range(outcome: &Result<PrometheusQueryResult, PrometheusError>) -> (r:
    CallToolResult)
    requires
        outcome matches Ok(q) ==> q.wf(),
    ensures
        r@ == tool_reply(
            match *outcome {
                Ok(q) => Ok(q@),
                Err(e) => Err(e@),
            },
        ),
        r.is_error == (*outcome is Err),
{
    match outcome {
        Ok(q) => answer_result(&q.to_json()),
        Err(e) => failure_result(e),
    }
}

/// What the tools that answer with a list of texts hand back.
fn names_result(outcome: &Result<Vec<String>, PrometheusError>) -> (r: CallToolResult)
    ensures
        r@ == tool_reply(
            match *outcome {
                Ok(names) => Ok(texts_json(names@)),
                Err(e) => Err(e@),
            },
        ),
        r.is_error == (*outcome is Err),
{
    match outcome {
        Ok(names) => answer_result(&text_array(names)),
        Err(e) => failure_result(e),
    }
}

/// What `prometheus_list_metrics` hands back for the outcome of the call.
pub fn prometheus_list_metrics(outcome: &Result<Vec<String>, PrometheusError>) -> (r:
    CallToolResult)
    ensures
        r@ == tool_reply(
            match *outcome {
                Ok(names) => Ok(texts_json(names@)),
                Err(e) => Err(e@),
            },
        ),
        r.is_error == (*outcome is Err),
{
    names_result(outcome)
}

/// What `prometheus_get_label_values` hands back for the outcome of the
/// call.
pub fn prometheus_get_label_values(outcome: &Result<Vec<String>, PrometheusError>) -> (r:
    CallToolResult)
    ensures
        r@ == tool_reply(
            match *outcome {
                Ok(values) => Ok(texts_json(values@)),
                Err(e) => Err(e@),
            },
        ),
        r.is_error == (*outcome is Err),
{
    names_result(outcome)
}

/// Writes the metadata of a metric.
fn metadata_to_json(m: &MetricMetadata) -> (json: Json)
    ensures
        json@ == metadata_json(m@),
        json.wf(),
{
    proof {
        reveal_strlit("metric");
        reveal_strlit("type");
        reveal_strlit("help");
        reveal_strlit("unit");
        let _ = stamp("metric"@);
        let _ = stamp("type"@);
        let _ = stamp("help"@);
        let _ = stamp("unit"@);
    }
    let mut b = ObjectBuilder::new();
    b.put("metric", Json::Text(m.metric.clone()));
    b.put("type", Json::Text(m.kind.clone()));
    b.put("help", Json::Text(m.help.clone()));
    b.put("unit", Json::Text(m.unit.clone()));
    assert(b@ =~= metadata_json(m@)->Object_0);
    b.finish()
}

/// What `prometheus_get_metadata` hands back for the outcome of the call.
pub fn prometheus_get_metadata(outcome: &Result<Vec<MetricMetadata>, PrometheusError>) -> (r:
    CallToolResult)
    ensures
        r@ == tool_reply(
            match *outcome {
                Ok(found) => Ok(
                    JsonValue::Array(Seq::new(found@.len(), |i: int| metadata_json(found@[i]@))),
                ),
                Err(e) => Err(e@),
            },
        ),
        r.is_error == (*outcome is Err),
{
    match outcome {
        Ok(found) => {
            let mut items: Vec<Json> = Vec::new();
            let mut i: usize = 0;
            while i < found.len()
                invariant
                    i <= found.len(),
                    items.len() == i,
                    forall|j: int| 0 <= j < i ==> (#[trigger] items[j])@ == metadata_json(found@[j]@),
                    forall|j: int| 0 <= j < i ==> (#[trigger] items[j]).wf(),
                decreases found.len() - i,
            {
                items.push(metadata_to_json(&found[i]));
                i = i + 1;
            }
            let answer = array_of(items);
            assert(array_view(items@) =~= Seq::new(
                found@.len(),
                |i: int| metadata_json(found@[i]@),
            )) by {
                assert forall|j: int| 0 <= j < items@.len() implies array_view(items@)[j]
                    == metadata_json(found@[j]@) by {
                    assert(array_view(items@)[j] == item_view(items@, j));
                }
            }
            answer_result(&answer)
        },
        Err(e) => failure_result(e),
    }
}

/// Writes a set of labels.
fn label_set_to_json(labels: &Vec<(String, String)>) -> (json: Json)
    requires
        distinct_labels(pairs_view(labels@)),
    ensures
        json@ == label_set_json(pairs_view(labels@)),
        json.wf(),
{
    let ghost all = label_set_json(pairs_view(labels@))->Object_0;
    let mut b = ObjectBuilder::new();
    let mut i: usize = 0;
    while i < labels.len()
        invariant
            i <= labels.len(),
            distinct_labels(pairs_view(labels@)),
            all == label_set_json(pairs_view(labels@))->Object_0,
            b.wf(),
            b@ == all.take(i as int),
        decreases labels.len() - i,
    {
        assert(absent(b@, labels@[i as int].0@)) by {
            assert forall|j: int| 0 <= j < b@.len() implies (#[trigger] b@[j]).0
                != labels@[i as int].0@ by {
                assert(b@[j] == all[j]);
                assert(pairs_view(labels@)[j].0 != pairs_view(labels@)[i as int].0);
            }
        }
        b.put(labels[i].0.as_str(), Json::Text(labels[i].1.clone()));
        assert(b@ =~= all.take(i + 1));
        i = i + 1;
    }
    assert(b@ =~= all);
    b.finish()
}

/// What `prometheus_get_series` hands back for the outcome of the call.
pub fn prometheus_get_series(outcome: &Result<Vec<Vec<(String, String)>>, PrometheusError>) -> (r:
    CallToolResult)
    requires
        outcome matches Ok(series) ==> forall|i: int|
            0 <= i < series@.len() ==> distinct_labels(pairs_view(#[trigger] series@[i]@)),
    ensures
        r@ == tool_reply(
            match *outcome {
                Ok(series) => Ok(
                    JsonValue::Array(
                        Seq::new(series@.len(), |i: int| label_set_json(pairs_view(series@[i]@))),
                    ),
                ),
                Err(e) => Err(e@),
            },
        ),
        r.is_error == (*outcome is Err),
{
    match outcome {
        Ok(series) => {
            let mut items: Vec<Json> = Vec::new();
            let mut i: usize = 0;
            while i < series.len()
                invariant
                    i <= series.len(),
                    items.len() == i,
                    forall|j: int|
                        0 <= j < series@.len() ==> distinct_labels(
                            pairs_view(#[trigger] series@[j]@),
                        ),
                    forall|j: int|
                        0 <= j < i ==> (#[trigger] items[j])@ == label_set_json(
                            pairs_view(series@[j]@),
                        ),
                    forall|j: int| 0 <= j < i ==> (#[trigger] items[j]).wf(),
                decreases series.len() - i,
            {
                items.push(label_set_to_json(&series[i]));
                i = i + 1;
            }
            let answer = array_of(items);
            assert(array_view(items@) =~= Seq::new(
                series@.len(),
                |i: int| label_set_json(pairs_view(series@[i]@)),
            )) by {
                assert forall|j: int| 0 <= j < items@.len() implies array_view(items@)[j]
                    == label_set_json(pairs_view(series@[j]@)) by {
                    assert(array_view(items@)[j] == item_view(items@, j));
                }
            }
            answer_result(&answer)
        },
        Err(e) => failure_result(e),
    }
}

} // verus!
