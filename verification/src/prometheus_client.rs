//! The Prometheus HTTP API as this server uses it: which request stands for
//! each call, and what the answer of the server means. Sending the request
//! is left to the caller.

use crate::json::{
    array_view, distinct_keys, item_view, json_parse, lemma_field_wf, member_view, object_view,
    Json, JsonValue,
};
use crate::names::names_distinct;
use crate::prometheus_config::{ConfigView, PrometheusConfig};
use crate::query_result::{decode_query, PrometheusQueryResult};
use crate::text::{debug_string, debug_text, decimal_digits, decimal_string, texts, wrap};
use vstd::prelude::*;
use vstd::string::*;

verus! {

/// What is known of a request that could not be sent or answered: the
/// message of the failure and its detailed form.
#[derive(Debug, Clone)]
pub struct TransportError {
    pub display: String,
    pub debug: String,
}

/// Prometheus API error
#[derive(Debug, Clone)]
pub enum PrometheusError {
    /// The request could not be sent, or no answer came
    ReqwestError(TransportError),
    /// Error from Prometheus API
    ApiError(String),
    /// Error parsing response
    ParseError(String),
    /// Error building HTTP client
    BuildClientError(String),
}

/// The mathematical value of a [`PrometheusError`].
pub ghost enum ErrorView {
    Transport { display: Seq<char>, debug: Seq<char> },
    Api(Seq<char>),
    Parse(Seq<char>),
    BuildClient(Seq<char>),
}

impl View for PrometheusError {
    type V = ErrorView;

    open spec fn view(&self) -> ErrorView {
        match self {
            PrometheusError::ReqwestError(e) => ErrorView::Transport {
                display: e.display@,
                debug: e.debug@,
            },
            PrometheusError::ApiError(m) => ErrorView::Api(m@),
            PrometheusError::ParseError(m) => ErrorView::Parse(m@),
            PrometheusError::BuildClientError(m) => ErrorView::BuildClient(m@),
        }
    }
}

impl ErrorView {
    /// The message of the error, as it is shown to a user.
    pub open spec fn message(self) -> Seq<char> {
        match self {
            ErrorView::Transport { display, .. } => "HTTP error: "@ + display,
            ErrorView::Api(m) => "Prometheus API error: "@ + m,
            ErrorView::Parse(m) => "Parse error: "@ + m,
            ErrorView::BuildClient(m) => "Client build error: "@ + m,
        }
    }

    /// The detailed form of the error: the name of its kind and, in
    /// brackets, what it holds, a text in its quoted form.
    pub open spec fn detail(self) -> Seq<char> {
        match self {
            ErrorView::Transport { debug, .. } => "ReqwestError("@ + debug + ")"@,
            ErrorView::Api(m) => "ApiError("@ + debug_text(m) + ")"@,
            ErrorView::Parse(m) => "ParseError("@ + debug_text(m) + ")"@,
            ErrorView::BuildClient(m) => "BuildClientError("@ + debug_text(m) + ")"@,
        }
    }
}

impl PrometheusError {
    /// The message of the error, as it is shown to a user.
    pub fn message(&self) -> (s: String)
        ensures
            s@ == self@.message(),
    {
        match self {
            PrometheusError::ReqwestError(e) => String::from_str("HTTP error: ").concat(
                e.display.as_str(),
            ),
            PrometheusError::ApiError(m) => String::from_str("Prometheus API error: ").concat(
                m.as_str(),
            ),
            PrometheusError::ParseError(m) => String::from_str("Parse error: ").concat(m.as_str()),
            PrometheusError::BuildClientError(m) => String::from_str("Client build error: ").concat(
                m.as_str(),
            ),
        }
    }

    /// The detailed form of the error.
    pub fn detail(&self) -> (s: String)
        ensures
            s@ == self@.detail(),
    {
        match self {
            PrometheusError::ReqwestError(e) => wrap("ReqwestError(", e.debug.as_str(), ")"),
            PrometheusError::ApiError(m) => wrap(
                "ApiError(",
                debug_string(m.as_str()).as_str(),
                ")",
            ),
            PrometheusError::ParseError(m) => wrap(
                "ParseError(",
                debug_string(m.as_str()).as_str(),
                ")",
            ),
            PrometheusError::BuildClientError(m) => wrap(
                "BuildClientError(",
                debug_string(m.as_str()).as_str(),
                ")",
            ),
        }
    }

    /// A copy of this error.
    pub fn duplicate(&self) -> (e: PrometheusError)
        ensures
            e@ == self@,
    {
        match self {
            PrometheusError::ReqwestError(t) => PrometheusError::ReqwestError(
                TransportError { display: t.display.clone(), debug: t.debug.clone() },
            ),
            PrometheusError::ApiError(m) => PrometheusError::ApiError(m.clone()),
            PrometheusError::ParseError(m) => PrometheusError::ParseError(m.clone()),
            PrometheusError::BuildClientError(m) => PrometheusError::BuildClientError(m.clone()),
        }
    }
}

/// A `GET` request to the server: where it goes, the parameters of its
/// query, the credentials that go with it, and how long to wait before it is
/// sent.
#[derive(Debug)]
pub struct RequestPlan {
    pub url: String,
    pub params: Vec<(String, String)>,
    pub basic_auth: Option<(String, String)>,
    pub pace_ms: Option<u64>,
}

/// The mathematical value of a [`RequestPlan`].
pub ghost struct PlanView {
    pub url: Seq<char>,
    pub params: Seq<(Seq<char>, Seq<char>)>,
    pub basic_auth: Option<(Seq<char>, Seq<char>)>,
    pub pace_ms: Option<u64>,
}

/// The views of a list of pairs of texts.
pub open spec fn pairs_view(pairs: Seq<(String, String)>) -> Seq<(Seq<char>, Seq<char>)> {
    Seq::new(pairs.len(), |i: int| (pairs[i].0@, pairs[i].1@))
}

impl View for RequestPlan {
    type V = PlanView;

    open spec fn view(&self) -> PlanView {
        PlanView {
            url: self.url@,
            params: pairs_view(self.params@),
            basic_auth: match self.basic_auth {
                Some((user, pass)) => Some((user@, pass@)),
                None => None,
            },
            pace_ms: self.pace_ms,
        }
    }
}

/// What the server answered: the status code, the status as it is written
/// out (`404 Not Found`), and the body where it could be read.
#[derive(Debug)]
pub struct HttpReply {
    pub status: u16,
    pub status_text: String,
    pub body: Option<String>,
}

/// Prometheus API client
#[derive(Debug)]
pub struct PrometheusClient {
    pub config: PrometheusConfig,
}

/// The credentials that go with every request: both name and password, or
/// none.
pub open spec fn credentials(
    username: Option<Seq<char>>,
    password: Option<Seq<char>>,
) -> Option<(Seq<char>, Seq<char>)> {
    match (username, password) {
        (Some(user), Some(pass)) => Some((user, pass)),
        _ => None,
    }
}

/// A request to `path` below the URL of the server, with the credentials of
/// the configuration; where it is `paced`, it waits for the minimum
/// interval between requests.
pub open spec fn server_request(
    config: ConfigView,
    path: Seq<char>,
    params: Seq<(Seq<char>, Seq<char>)>,
    paced: bool,
) -> PlanView {
    PlanView {
        url: config.url + path,
        params,
        basic_auth: credentials(config.username, config.password),
        pace_ms: if paced {
            config.min_request_interval_ms
        } else {
            None
        },
    }
}

/// The request of an instant query.
pub open spec fn query_plan(config: ConfigView, query: Seq<char>, time: Option<Seq<char>>) -> PlanView {
    server_request(
        config,
        "/api/v1/query"@,
        match time {
            Some(t) => seq![("query"@, query), ("time"@, t)],
            None => seq![("query"@, query)],
        },
        true,
    )
}

/// The request of a range query.
pub open spec fn range_plan(
    config: ConfigView,
    query: Seq<char>,
    start: Seq<char>,
    end: Seq<char>,
    step: Seq<char>,
) -> PlanView {
    server_request(
        config,
        "/api/v1/query_range"@,
        seq![("query"@, query), ("start"@, start), ("end"@, end), ("step"@, step)],
        true,
    )
}

/// The request that lists all metric names.
pub open spec fn list_metrics_plan(config: ConfigView) -> PlanView {
    server_request(config, "/api/v1/label/__name__/values"@, Seq::empty(), false)
}

/// The request for the metadata of a metric.
pub open spec fn metadata_plan(config: ConfigView, metric: Seq<char>) -> PlanView {
    server_request(config, "/api/v1/metadata"@, seq![("metric"@, metric)], false)
}

/// The request for the series that the selectors match.
pub open spec fn series_plan(config: ConfigView, selectors: Seq<Seq<char>>) -> PlanView {
    server_request(
        config,
        "/api/v1/series"@,
        Seq::new(selectors.len(), |i: int| ("match[]"@, selectors[i])),
        false,
    )
}

/// The request for the values of a label.
pub open spec fn label_values_plan(config: ConfigView, label_name: Seq<char>) -> PlanView {
    server_request(config, "/api/v1/label/"@ + label_name + "/values"@, Seq::empty(), false)
}

/// The text that parse failures carry.
pub open spec fn parse_failure() -> Seq<char> {
    "Failed to parse Prometheus response: error decoding response body"@
}

/// The text that stands for the body of a failed request that had none.
pub open spec fn body_or_unknown(body: Option<String>) -> Seq<char> {
    match body {
        Some(b) => b@,
        None => "Unknown error"@,
    }
}

/// Whether a status code reports success.
pub open spec fn is_success(status: u16) -> bool {
    200 <= status <= 299
}

/// The failure that an answer stands for, if it is one: a status outside
/// 200 to 299 is a failure of the API with the status and the body in its
/// message, and a body that could not be read is a failure to parse.
pub open spec fn reply_failure(reply: HttpReply) -> Option<ErrorView> {
    if !is_success(reply.status) {
        Some(
            ErrorView::Api(
                "Prometheus API error: "@ + reply.status_text@ + " - "@ + body_or_unknown(
                    reply.body,
                ),
            ),
        )
    } else if reply.body is None {
        Some(ErrorView::Parse(parse_failure()))
    } else {
        None
    }
}

/// The texts among `items`, in their order.
pub open spec fn strings_of(items: Seq<JsonValue>) -> Seq<Seq<char>>
    decreases items.len(),
{
    if items.len() == 0 {
        Seq::empty()
    } else {
        let rest = strings_of(items.drop_last());
        match items.last() {
            JsonValue::Text(s) => rest.push(s),
            _ => rest,
        }
    }
}

/// The texts among the items of the array under `data`; none where there
/// is no such array.
pub open spec fn data_strings(v: JsonValue) -> Seq<Seq<char>> {
    match v.field("data"@) {
        Some(JsonValue::Array(items)) => strings_of(items),
        _ => Seq::empty(),
    }
}

/// The members of `fields` whose value is a text, in their order.
pub open spec fn text_members(fields: Seq<(Seq<char>, JsonValue)>) -> Seq<(Seq<char>, Seq<char>)>
    decreases fields.len(),
{
    if fields.len() == 0 {
        Seq::empty()
    } else {
        let rest = text_members(fields.drop_last());
        match fields.last().1 {
            JsonValue::Text(s) => rest.push((fields.last().0, s)),
            _ => rest,
        }
    }
}

/// For each object among `items`, its members that are texts.
pub open spec fn label_sets_of(items: Seq<JsonValue>) -> Seq<Seq<(Seq<char>, Seq<char>)>>
    decreases items.len(),
{
    if items.len() == 0 {
        Seq::empty()
    } else {
        let rest = label_sets_of(items.drop_last());
        match items.last() {
            JsonValue::Object(fields) => rest.push(text_members(fields)),
            _ => rest,
        }
    }
}

/// The label sets of the series under `data`; none where there is no such
/// array.
pub open spec fn data_label_sets(v: JsonValue) -> Seq<Seq<(Seq<char>, Seq<char>)>> {
    match v.field("data"@) {
        Some(JsonValue::Array(items)) => label_sets_of(items),
        _ => Seq::empty(),
    }
}

/// Metadata about a metric
#[derive(Debug, Clone)]
pub struct MetricMetadata {
    pub metric: String,
    pub kind: String,
    pub help: String,
    pub unit: String,
}

/// The mathematical value of a [`MetricMetadata`].
pub ghost struct MetadataView {
    pub metric: Seq<char>,
    pub kind: Seq<char>,
    pub help: Seq<char>,
    pub unit: Seq<char>,
}

impl View for MetricMetadata {
    type V = MetadataView;

    open spec fn view(&self) -> MetadataView {
        MetadataView { metric: self.metric@, kind: self.kind@, help: self.help@, unit: self.unit@ }
    }
}

/// The metadata that one entry holds, where its type, help and unit are all
/// texts.
pub open spec fn metadata_entry(metric: Seq<char>, v: JsonValue) -> Option<MetadataView> {
    match (v.text_field("type"@), v.text_field("help"@), v.text_field("unit"@)) {
        (Some(kind), Some(help), Some(unit)) => Some(MetadataView { metric, kind, help, unit }),
        _ => None,
    }
}

/// The metadata that the entries among `items` hold.
pub open spec fn metadata_of(metric: Seq<char>, items: Seq<JsonValue>) -> Seq<MetadataView>
    decreases items.len(),
{
    if items.len() == 0 {
        Seq::empty()
    } else {
        let rest = metadata_of(metric, items.drop_last());
        match metadata_entry(metric, items.last()) {
            Some(m) => rest.push(m),
            None => rest,
        }
    }
}

/// The metadata of `metric` in an answer: the entries of the array that
/// `data` holds under the name of the metric.
pub open spec fn data_metadata(v: JsonValue, metric: Seq<char>) -> Seq<MetadataView> {
    match v.field("data"@) {
        Some(data) => match data.field(metric) {
            Some(JsonValue::Array(items)) => metadata_of(metric, items),
            _ => Seq::empty(),
        },
        None => Seq::empty(),
    }
}

/// The views of a list of metadata.
pub open spec fn metadata_view(items: Seq<MetricMetadata>) -> Seq<MetadataView> {
    Seq::new(items.len(), |i: int| items[i]@)
}

/// The views of a list of label sets.
pub open spec fn label_sets_view(sets: Seq<Vec<(String, String)>>) -> Seq<
    Seq<(Seq<char>, Seq<char>)>,
> {
    Seq::new(sets.len(), |i: int| pairs_view(sets[i]@))
}

/// The texts among the items of an array.
fn collect_strings(items: &Vec<Json>) -> (out: Vec<String>)
    ensures
        texts(out@) == strings_of(array_view(items@)),
{
    let ghost all = array_view(items@);
    let mut out: Vec<String> = Vec::new();
    let mut i: usize = 0;
    assert(all.take(0) =~= Seq::empty());
    while i < items.len()
        invariant
            i <= items.len(),
            all == array_view(items@),
            texts(out@) == strings_of(all.take(i as int)),
        decreases items.len() - i,
    {
        let ghost before = out@;
        assert(all.take(i + 1).drop_last() =~= all.take(i as int));
        assert(all.take(i + 1).last() == item_view(items@, i as int));
        match items[i].as_str() {
            Some(s) => {
                out.push(String::from_str(s));
                assert(texts(out@) =~= texts(before).push(s@));
            },
            None => {},
        }
        i = i + 1;
    }
    assert(all.take(i as int) =~= all);
    out
}

/// Whether no two labels of a set have the same name.
pub open spec fn distinct_labels(labels: Seq<(Seq<char>, Seq<char>)>) -> bool {
    forall|i: int, j: int|
        0 <= i < j < labels.len() ==> (#[trigger] labels[i]).0 != (#[trigger] labels[j]).0
}

/// Tells whether no two labels of a set have the same name.
pub fn labels_distinct(labels: &Vec<(String, String)>) -> (r: bool)
    ensures
        r == distinct_labels(pairs_view(labels@)),
{
    let r = names_distinct(labels);
    proof {
        let views = pairs_view(labels@);
        if r {
            assert forall|i: int, j: int| 0 <= i < j < views.len() implies (#[trigger] views[i]).0
                != (#[trigger] views[j]).0 by {
                assert(labels@[i].0@ != labels@[j].0@);
            }
        } else if distinct_labels(views) {
            assert forall|i: int, j: int| 0 <= i < j < labels@.len() implies (
            #[trigger] labels@[i]).0@ != (#[trigger] labels@[j]).0@ by {
                assert(views[i].0 != views[j].0);
            }
        }
    }
    r
}

/// Tells whether no label set of a list names a label twice.
pub fn series_distinct(series: &Vec<Vec<(String, String)>>) -> (r: bool)
    ensures
        r == forall|i: int|
            0 <= i < series@.len() ==> distinct_labels(pairs_view(#[trigger] series@[i]@)),
{
    let mut i: usize = 0;
    while i < series.len()
        invariant
            i <= series.len(),
            forall|j: int| 0 <= j < i ==> distinct_labels(pairs_view(#[trigger] series@[j]@)),
        decreases series.len() - i,
    {
        if !labels_distinct(&series[i]) {
            return false;
        }
        i = i + 1;
    }
    true
}

/// The members of an object that are texts.
fn collect_text_members(fields: &Vec<(String, Json)>) -> (out: Vec<(String, String)>)
    ensures
        pairs_view(out@) == text_members(object_view(fields@)),
        distinct_keys(object_view(fields@)) ==> distinct_labels(pairs_view(out@)),
{
    let ghost all = object_view(fields@);
    let ghost mut from: Seq<int> = Seq::empty();
    let mut out: Vec<(String, String)> = Vec::new();
    let mut i: usize = 0;
    assert(all.take(0) =~= Seq::empty());
    assert(pairs_view(out@) =~= Seq::empty());
    while i < fields.len()
        invariant
            i <= fields.len(),
            all == object_view(fields@),
            pairs_view(out@) == text_members(all.take(i as int)),
            from.len() == out@.len(),
            forall|a: int| 0 <= a < from.len() ==> 0 <= #[trigger] from[a] < i,
            forall|a: int, b: int| 0 <= a < b < from.len() ==> from[a] < from[b],
            forall|a: int| 0 <= a < from.len() ==> (#[trigger] out@[a]).0@ == all[from[a]].0,
        decreases fields.len() - i,
    {
        let ghost before = out@;
        assert(all.take(i + 1).drop_last() =~= all.take(i as int));
        assert(all.take(i + 1).last() == member_view(fields@, i as int));
        match fields[i].1.as_str() {
            Some(s) => {
                out.push((fields[i].0.clone(), String::from_str(s)));
                proof {
                    from = from.push(i as int);
                }
                assert(pairs_view(out@) =~= pairs_view(before).push((fields@[i as int].0@, s@)));
            },
            None => {},
        }
        i = i + 1;
    }
    assert(all.take(i as int) =~= all);
    proof {
        if distinct_keys(all) {
            let labels = pairs_view(out@);
            assert forall|a: int, b: int| 0 <= a < b < labels.len() implies (#[trigger] labels[a]).0
                != (#[trigger] labels[b]).0 by {
                assert(labels[a].0 == out@[a].0@);
                assert(labels[b].0 == out@[b].0@);
                assert(from[a] < from[b]);
            }
        }
    }
    out
}

impl PrometheusClient {
    /// Create a new PrometheusClient with the given configuration
    pub fn new(config: PrometheusConfig) -> (client: Self)
        ensures
            client.config == config,
    {
        Self { config }
    }

    /// The credentials of the configuration.
    fn basic_auth(&self) -> (auth: Option<(String, String)>)
        ensures
            (match auth {
                Some((user, pass)) => Some((user@, pass@)),
                None => None,
            }) == credentials(self.config@.username, self.config@.password),
    {
        match (&self.config.username, &self.config.password) {
            (Some(user), Some(pass)) => Some((user.clone(), pass.clone())),
            _ => None,
        }
    }

    /// The request to `path` below the URL of the server.
    fn plan(&self, path: &str, params: Vec<(String, String)>, rate_limit: bool) -> (plan:
        RequestPlan)
        ensures
            plan@ == server_request(self.config@, path@, pairs_view(params@), rate_limit),
    {
        RequestPlan {
            url: self.config.url.clone().concat(path),
            params,
            basic_auth: self.basic_auth(),
            pace_ms: if rate_limit {
                self.config.min_request_interval_ms
            } else {
                None
            },
        }
    }

    /// The request of an instant query. It waits for the minimum interval
    /// between requests where one is configured.
    pub fn query(&self, query: &str, time: Option<&str>) -> (plan: RequestPlan)
        ensures
            plan@ == query_plan(self.config@, query@, match time {
                Some(t) => Some(t@),
                None => None,
            }),
    {
        let mut params: Vec<(String, String)> = Vec::new();
        params.push((String::from_str("query"), String::from_str(query)));
        match time {
            Some(t) => {
                params.push((String::from_str("time"), String::from_str(t)));
                assert(pairs_view(params@) =~= seq![("query"@, query@), ("time"@, t@)]);
            },
            None => {
                assert(pairs_view(params@) =~= seq![("query"@, query@)]);
            },
        }
        self.plan("/api/v1/query", params, true)
    }

    /// The request of a range query. It waits for the minimum interval
    /// between requests where one is configured.
    pub fn query_range(&self, query: &str, start: &str, end: &str, step: &str) -> (plan:
        RequestPlan)
        ensures
            plan@ == range_plan(self.config@, query@, start@, end@, step@),
    {
        let mut params: Vec<(String, String)> = Vec::new();
        params.push((String::from_str("query"), String::from_str(query)));
        params.push((String::from_str("start"), String::from_str(start)));
        params.push((String::from_str("end"), String::from_str(end)));
        params.push((String::from_str("step"), String::from_str(step)));
        assert(pairs_view(params@) =~= seq![
            ("query"@, query@),
            ("start"@, start@),
            ("end"@, end@),
            ("step"@, step@),
        ]);
        self.plan("/api/v1/query_range", params, true)
    }

    /// The request that lists all metric names. It does not wait.
    pub fn list_metrics(&self) -> (plan: RequestPlan)
        ensures
            plan@ == list_metrics_plan(self.config@),
    {
        let params: Vec<(String, String)> = Vec::new();
        assert(pairs_view(params@) =~= Seq::empty());
        self.plan("/api/v1/label/__name__/values", params, false)
    }

    /// The request for the metadata of a metric. It does not wait.
    pub fn get_metadata(&self, metric: &str) -> (plan: RequestPlan)
        ensures
            plan@ == metadata_plan(self.config@, metric@),
    {
        let mut params: Vec<(String, String)> = Vec::new();
        params.push((String::from_str("metric"), String::from_str(metric)));
        assert(pairs_view(params@) =~= seq![("metric"@, metric@)]);
        self.plan("/api/v1/metadata", params, false)
    }

    /// The request for the series that the selectors match. It does not
    /// wait.
    pub fn get_series(&self, match_strings: &Vec<String>) -> (plan: RequestPlan)
        ensures
            plan@ == series_plan(self.config@, texts(match_strings@)),
    {
        let mut params: Vec<(String, String)> = Vec::new();
        let mut i: usize = 0;
        while i < match_strings.len()
            invariant
                i <= match_strings.len(),
                params.len() == i,
                forall|j: int|
                    0 <= j < i ==> (#[trigger] params@[j]).0@ == "match[]"@ && params@[j].1@
                        == match_strings@[j]@,
            decreases match_strings.len() - i,
        {
            params.push((String::from_str("match[]"), match_strings[i].clone()));
            i = i + 1;
        }
        assert(pairs_view(params@) =~= series_plan(
            self.config@,
            texts(match_strings@),
        ).params);
        self.plan("/api/v1/series", params, false)
    }

    /// The request for the values of a label. It does not wait.
    pub fn get_label_values(&self, label_name: &str) -> (plan: RequestPlan)
        ensures
            plan@ == label_values_plan(self.config@, label_name@),
    {
        let params: Vec<(String, String)> = Vec::new();
        assert(pairs_view(params@) =~= Seq::empty());
        let path = wrap("/api/v1/label/", label_name, "/values");
        let plan = self.plan(path.as_str(), params, false);
        assert(plan@.url =~= label_values_plan(self.config@, label_name@).url);
        plan
    }

    /// Convert a time, given as the seconds and nanoseconds since the Unix
    /// epoch, to a Prometheus-compatible time string. A time before the
    /// epoch is `None` and gives `0`.
    pub fn timestamp_to_prometheus_time(since_epoch: Option<(u64, u32)>) -> (s: String)
        ensures
            s@ == match since_epoch {
                Some((secs, nanos)) => decimal_digits(secs as nat) + "."@ + decimal_digits(
                    nanos as nat,
                ),
                None => "0"@,
            },
    {
        match since_epoch {
            Some((secs, nanos)) => {
                let mut s = decimal_string(secs);
                s.append(".");
                s.append(decimal_string(nanos as u64).as_str());
                s
            },
            None => String::from_str("0"),
        }
    }

    /// Checks an answer and parses its body: the JSON value that the server
    /// sent, or the failure that the answer stands for.
    pub fn read_reply(reply: &HttpReply) -> (r: Result<Json, PrometheusError>)
        ensures
            match r {
                Ok(json) => reply_failure(*reply) is None && json_parse(
                    reply.body->0@,
                ) == Some(json@) && json.wf(),
                Err(e) => e@ == match reply_failure(*reply) {
                    Some(failure) => failure,
                    None => ErrorView::Parse(parse_failure()),
                } && (reply_failure(*reply) is None ==> json_parse(reply.body->0@)
                    is None),
            },
    {
        if reply.status < 200 || reply.status > 299 {
            let mut message = wrap("Prometheus API error: ", reply.status_text.as_str(), " - ");
            match &reply.body {
                Some(b) => message.append(b.as_str()),
                None => message.append("Unknown error"),
            }
            return Err(PrometheusError::ApiError(message));
        }
        match &reply.body {
            Some(body) => match Json::parse(body.as_str()) {
                Some(json) => Ok(json),
                None => Err(
                    PrometheusError::ParseError(
                        String::from_str(
                            "Failed to parse Prometheus response: error decoding response body",
                        ),
                    ),
                ),
            },
            None => Err(
                PrometheusError::ParseError(
                    String::from_str(
                        "Failed to parse Prometheus response: error decoding response body",
                    ),
                ),
            ),
        }
    }

    /// The metric names in an answer to `list_metrics`, and likewise the
    /// values in an answer to `get_label_values`: the texts under `data`.
    pub fn read_names(answer: &Json) -> (names: Vec<String>)
        ensures
            texts(names@) == data_strings(answer@),
    {
        match answer.get("data") {
            Some(data) => match data.as_array() {
                Some(items) => collect_strings(items),
                None => {
                    let names: Vec<String> = Vec::new();
                    assert(texts(names@) =~= Seq::empty());
                    names
                },
            },
            None => {
                let names: Vec<String> = Vec::new();
                assert(texts(names@) =~= Seq::empty());
                names
            },
        }
    }

    /// The metadata of `metric` in an answer to `get_metadata`.
    pub fn read_metadata(answer: &Json, metric: &str) -> (found: Vec<MetricMetadata>)
        ensures
            metadata_view(found@) == data_metadata(answer@, metric@),
    {
        let mut found: Vec<MetricMetadata> = Vec::new();
        assert(metadata_view(found@) =~= Seq::empty());
        let data = match answer.get("data") {
            Some(data) => data,
            None => {
                return found;
            },
        };
        let entries = match data.get(metric) {
            Some(entries) => entries,
            None => {
                return found;
            },
        };
        let items = match entries.as_array() {
            Some(items) => items,
            None => {
                return found;
            },
        };
        let ghost all = array_view(items@);
        let mut i: usize = 0;
        assert(all.take(0) =~= Seq::empty());
        while i < items.len()
            invariant
                i <= items.len(),
                all == array_view(items@),
                metadata_view(found@) == metadata_of(metric@, all.take(i as int)),
            decreases items.len() - i,
        {
            let ghost before = found@;
            assert(all.take(i + 1).drop_last() =~= all.take(i as int));
            assert(all.take(i + 1).last() == item_view(items@, i as int));
            let entry = &items[i];
            match (entry.get_str("type"), entry.get_str("help"), entry.get_str("unit")) {
                (Some(kind), Some(help), Some(unit)) => {
                    found.push(
                        MetricMetadata {
                            metric: String::from_str(metric),
                            kind: String::from_str(kind),
                            help: String::from_str(help),
                            unit: String::from_str(unit),
                        },
                    );
                    assert(metadata_view(found@) =~= metadata_view(before).push(
                        MetadataView { metric: metric@, kind: kind@, help: help@, unit: unit@ },
                    ));
                },
                _ => {},
            }
            i = i + 1;
        }
        assert(all.take(i as int) =~= all);
        found
    }

    /// The label sets of the series in an answer to `get_series`.
    pub fn read_series(answer: &Json) -> (series: Vec<Vec<(String, String)>>)
        ensures
            label_sets_view(series@) == data_label_sets(answer@),
            answer.wf() ==> forall|i: int|
                0 <= i < series@.len() ==> distinct_labels(pairs_view(#[trigger] series@[i]@)),
    {
        let mut series: Vec<Vec<(String, String)>> = Vec::new();
        assert(label_sets_view(series@) =~= Seq::empty());
        let data = match answer.get("data") {
            Some(data) => data,
            None => {
                return series;
            },
        };
        let items = match data.as_array() {
            Some(items) => items,
            None => {
                return series;
            },
        };
        let ghost all = array_view(items@);
        proof {
            if answer.wf() {
                lemma_field_wf(answer@, "data"@);
            }
        }
        let mut i: usize = 0;
        assert(all.take(0) =~= Seq::empty());
        while i < items.len()
            invariant
                i <= items.len(),
                all == array_view(items@),
                label_sets_view(series@) == label_sets_of(all.take(i as int)),
                answer.wf() ==> JsonValue::Array(all).wf(),
                answer.wf() ==> forall|j: int|
                    0 <= j < series@.len() ==> distinct_labels(pairs_view(#[trigger] series@[j]@)),
            decreases items.len() - i,
        {
            let ghost before = series@;
            assert(all.take(i + 1).drop_last() =~= all.take(i as int));
            assert(all.take(i + 1).last() == item_view(items@, i as int));
            match items[i].as_object() {
                Some(fields) => {
                    proof {
                        if answer.wf() {
                            let whole = JsonValue::Array(all);
                            assert(whole.wf());
                            assert(whole->Array_0[i as int].wf());
                            assert(all[i as int] == JsonValue::Object(object_view(fields@)));
                        }
                    }
                    let labels = collect_text_members(fields);
                    series.push(labels);
                    assert(label_sets_view(series@) =~= label_sets_view(before).push(
                        text_members(object_view(fields@)),
                    ));
                },
                None => {},
            }
            i = i + 1;
        }
        assert(all.take(i as int) =~= all);
        series
    }
}

/// Where a query stands between its attempts.
#[derive(Debug)]
pub enum Retry<T> {
    /// Wait `backoff_ms` where it is set, then send the request and report
    /// what came of it. `remaining` attempts are left, this one included.
    Attempt { backoff_ms: Option<u64>, remaining: u32 },
    /// Hand `result` to the caller, at once: no wait follows the last
    /// attempt.
    Done { result: Result<T, PrometheusError> },
}

/// Whether `state` is where a query with `retries` attempts starts: at its
/// first attempt, without a wait before it; with no attempt allowed, at its
/// end, which is the failure that the retries are exceeded.
pub open spec fn is_retry_start<T>(state: Retry<T>, retries: u32) -> bool {
    if retries > 0 {
        state == (Retry::<T>::Attempt { backoff_ms: None, remaining: retries })
    } else {
        state matches Retry::Done { result: Err(e) } && e@ == ErrorView::Api(
            "Maximum retries exceeded"@,
        )
    }
}

/// The state after an attempt. A success ends the query at once. After a
/// failure with attempts left, the backoff is waited for and the next
/// attempt is made: the waits stand between the attempts. After the failure
/// of the last attempt the query ends at once with that failure.
pub open spec fn after_attempt<T>(
    remaining: u32,
    backoff_ms: u64,
    outcome: Result<T, PrometheusError>,
) -> Retry<T> {
    match outcome {
        Ok(v) => Retry::Done { result: Ok(v) },
        Err(e) => if remaining > 1 {
            Retry::Attempt { backoff_ms: Some(backoff_ms), remaining: (remaining - 1) as u32 }
        } else {
            Retry::Done { result: Err(e) }
        },
    }
}

/// A query run against the outcomes that its attempts will have, the first
/// attempt against the first outcome: how many attempts are made, and how
/// the query ends (`None` where the outcomes run out before it does).
pub open spec fn drive<T>(
    state: Retry<T>,
    backoff_ms: u64,
    outcomes: Seq<Result<T, PrometheusError>>,
) -> (nat, Option<Result<T, PrometheusError>>)
    decreases outcomes.len(),
{
    match state {
        Retry::Done { result } => (0, Some(result)),
        Retry::Attempt { remaining, .. } => if outcomes.len() == 0 {
            (0, None)
        } else {
            let rest = drive(
                after_attempt(remaining, backoff_ms, outcomes[0]),
                backoff_ms,
                outcomes.skip(1),
            );
            (rest.0 + 1, rest.1)
        },
    }
}

/// With `remaining` attempts left and every one of them failing, the server
/// is asked exactly `remaining` times, and the query ends with the failure
/// of the last attempt.
pub proof fn lemma_retry_exhausts<T>(
    remaining: u32,
    wait: Option<u64>,
    backoff_ms: u64,
    outcomes: Seq<Result<T, PrometheusError>>,
)
    requires
        remaining >= 1,
        outcomes.len() >= remaining,
        forall|i: int| 0 <= i < remaining ==> (#[trigger] outcomes[i]) is Err,
    ensures
        drive(Retry::Attempt { backoff_ms: wait, remaining }, backoff_ms, outcomes) == (
            remaining as nat,
            Some(Err::<T, PrometheusError>(outcomes[remaining - 1]->Err_0)),
        ),
    decreases remaining,
{
    reveal_with_fuel(drive, 2);
    let rest = outcomes.skip(1);
    assert(outcomes[0] is Err);
    if remaining > 1 {
        assert forall|i: int| 0 <= i < remaining - 1 implies (#[trigger] rest[i]) is Err by {
            assert(rest[i] == outcomes[i + 1]);
        }
        lemma_retry_exhausts::<T>((remaining - 1) as u32, Some(backoff_ms), backoff_ms, rest);
        assert(rest[remaining - 2] == outcomes[remaining - 1]);
    }
}

/// The waits that a query asks for when it is run against the outcomes that
/// its attempts will have, in their order.
pub open spec fn waits<T>(
    state: Retry<T>,
    backoff_ms: u64,
    outcomes: Seq<Result<T, PrometheusError>>,
) -> Seq<u64>
    decreases outcomes.len(),
{
    match state {
        Retry::Done { .. } => Seq::empty(),
        Retry::Attempt { backoff_ms: wait, remaining } => {
            let before: Seq<u64> = match wait {
                Some(ms) => seq![ms],
                None => Seq::empty(),
            };
            if outcomes.len() == 0 {
                before
            } else {
                before + waits(
                    after_attempt(remaining, backoff_ms, outcomes[0]),
                    backoff_ms,
                    outcomes.skip(1),
                )
            }
        },
    }
}

/// With `retries` attempts that all fail, the query waits between the
/// attempts and nowhere else: `retries - 1` times, each time for the
/// configured backoff, which neither grows nor varies.
pub proof fn lemma_retry_waits_between_attempts<T>(
    retries: u32,
    backoff_ms: u64,
    outcomes: Seq<Result<T, PrometheusError>>,
)
    requires
        retries >= 1,
        outcomes.len() >= retries,
        forall|i: int| 0 <= i < retries ==> (#[trigger] outcomes[i]) is Err,
    ensures
        waits(Retry::Attempt { backoff_ms: None, remaining: retries }, backoff_ms, outcomes)
            == Seq::new((retries - 1) as nat, |i: int| backoff_ms),
{
    lemma_waits_after(retries, None, backoff_ms, outcomes);
    assert(Seq::<u64>::empty() + Seq::new((retries - 1) as nat, |i: int| backoff_ms) =~= Seq::new(
        (retries - 1) as nat,
        |i: int| backoff_ms,
    ));
}

/// The waits of a query with `remaining` attempts left that all fail: the
/// wait before the next attempt, where there is one, and then the backoff
/// before each of the attempts after it.
proof fn lemma_waits_after<T>(
    remaining: u32,
    wait: Option<u64>,
    backoff_ms: u64,
    outcomes: Seq<Result<T, PrometheusError>>,
)
    requires
        remaining >= 1,
        outcomes.len() >= remaining,
        forall|i: int| 0 <= i < remaining ==> (#[trigger] outcomes[i]) is Err,
    ensures
        waits(Retry::Attempt { backoff_ms: wait, remaining }, backoff_ms, outcomes) == (match wait {
            Some(ms) => seq![ms],
            None => Seq::<u64>::empty(),
        }) + Seq::new((remaining - 1) as nat, |i: int| backoff_ms),
    decreases remaining,
{
    reveal_with_fuel(waits, 2);
    let rest = outcomes.skip(1);
    let before: Seq<u64> = match wait {
        Some(ms) => seq![ms],
        None => Seq::empty(),
    };
    assert(outcomes[0] is Err);
    if remaining > 1 {
        assert forall|i: int| 0 <= i < remaining - 1 implies (#[trigger] rest[i]) is Err by {
            assert(rest[i] == outcomes[i + 1]);
        }
        lemma_waits_after::<T>((remaining - 1) as u32, Some(backoff_ms), backoff_ms, rest);
        assert(seq![backoff_ms] + Seq::new((remaining - 2) as nat, |i: int| backoff_ms) =~= Seq::new(
            (remaining - 1) as nat,
            |i: int| backoff_ms,
        ));
    } else {
        assert(Seq::new(0nat, |i: int| backoff_ms) =~= Seq::<u64>::empty());
        assert(before + Seq::<u64>::empty() =~= before);
    }
}

/// With the first success at attempt `k` (counted from 0) and attempts
/// enough to reach it, the server is asked exactly `k + 1` times, and the
/// query ends with that success.
pub proof fn lemma_retry_succeeds<T>(
    remaining: u32,
    wait: Option<u64>,
    backoff_ms: u64,
    outcomes: Seq<Result<T, PrometheusError>>,
    k: int,
)
    requires
        0 <= k < remaining,
        k < outcomes.len(),
        forall|i: int| 0 <= i < k ==> (#[trigger] outcomes[i]) is Err,
        outcomes[k] is Ok,
    ensures
        drive(Retry::Attempt { backoff_ms: wait, remaining }, backoff_ms, outcomes) == (
            (k + 1) as nat,
            Some(outcomes[k]),
        ),
    decreases k,
{
    reveal_with_fuel(drive, 2);
    let rest = outcomes.skip(1);
    if k > 0 {
        assert(outcomes[0] is Err);
        assert forall|i: int| 0 <= i < k - 1 implies (#[trigger] rest[i]) is Err by {
            assert(rest[i] == outcomes[i + 1]);
        }
        assert(rest[k - 1] == outcomes[k]);
        lemma_retry_succeeds::<T>(
            (remaining - 1) as u32,
            Some(backoff_ms),
            backoff_ms,
            rest,
            k - 1,
        );
    }
}

impl PrometheusClient {
    /// The start of a query with retry: the first attempt, or, with no
    /// attempt allowed, the end at once.
    pub fn execute_with_retry<T>(&self) -> (state: Retry<T>)
        ensures
            is_retry_start(state, self.config.retries),
    {
        if self.config.retries == 0 {
            Retry::Done {
                result: Err(PrometheusError::ApiError(String::from_str("Maximum retries exceeded"))),
            }
        } else {
            Retry::Attempt { backoff_ms: None, remaining: self.config.retries }
        }
    }

    /// The state after an attempt with `remaining` attempts left, that one
    /// included.
    pub fn retry_after<T>(&self, remaining: u32, outcome: Result<T, PrometheusError>) -> (state:
        Retry<T>)
        ensures
            state == after_attempt(remaining, self.config.retry_backoff_ms, outcome),
    {
        match outcome {
            Ok(v) => Retry::Done { result: Ok(v) },
            Err(e) => if remaining > 1 {
                Retry::Attempt {
                    backoff_ms: Some(self.config.retry_backoff_ms),
                    remaining: remaining - 1,
                }
            } else {
                Retry::Done { result: Err(e) }
            },
        }
    }

    /// What one attempt of a query came to: the result that the answer
    /// holds, or the failure to send, of the API, or to parse.
    pub fn execute_query(sent: Result<HttpReply, TransportError>) -> (r: Result<
        PrometheusQueryResult,
        PrometheusError,
    >)
        ensures
            match answer_of(sent) {
                Err(failure) => r matches Err(e) && e@ == failure,
                Ok(answer) => match decode_query(answer) {
                    Some(q) => r matches Ok(result) && result@ == q && result.wf(),
                    None => r matches Err(e) && e@ == ErrorView::Parse(parse_failure()),
                },
            },
    {
        match sent {
            Err(t) => Err(PrometheusError::ReqwestError(t)),
            Ok(reply) => match Self::read_reply(&reply) {
                Ok(answer) => match PrometheusQueryResult::from_json(&answer) {
                    Some(result) => Ok(result),
                    None => Err(
                        PrometheusError::ParseError(
                            String::from_str(
                                "Failed to parse Prometheus response: error decoding response body",
                            ),
                        ),
                    ),
                },
                Err(e) => Err(e),
            },
        }
    }
}

/// What came of a request: the JSON value that the server sent, or the
/// failure to send, of the API, or to parse.
pub open spec fn answer_of(sent: Result<HttpReply, TransportError>) -> Result<JsonValue, ErrorView> {
    match sent {
        Err(t) => Err(ErrorView::Transport { display: t.display@, debug: t.debug@ }),
        Ok(reply) => match reply_failure(reply) {
            Some(failure) => Err(failure),
            None => match json_parse(reply.body->0@) {
                Some(answer) => Ok(answer),
                None => Err(ErrorView::Parse(parse_failure())),
            },
        },
    }
}

impl PrometheusClient {
    /// What came of a request.
    pub fn read_sent(sent: Result<HttpReply, TransportError>) -> (r: Result<Json, PrometheusError>)
        ensures
            match r {
                Ok(answer) => answer_of(sent) == Ok::<JsonValue, ErrorView>(answer@)
                    && answer.wf(),
                Err(e) => answer_of(sent) == Err::<JsonValue, ErrorView>(e@),
            },
    {
        match sent {
            Err(t) => Err(PrometheusError::ReqwestError(t)),
            Ok(reply) => Self::read_reply(&reply),
        }
    }

    /// What a request for metric names, or for the values of a label, came
    /// to. Any answer that parses counts: the names are the texts under
    /// `data`.
    pub fn names_outcome(sent: Result<HttpReply, TransportError>) -> (r: Result<
        Vec<String>,
        PrometheusError,
    >)
        ensures
            match r {
                Ok(names) => answer_of(sent) matches Ok(answer) && texts(names@)
                    == data_strings(answer),
                Err(e) => answer_of(sent) == Err::<JsonValue, ErrorView>(e@),
            },
    {
        match Self::read_sent(sent) {
            Ok(answer) => Ok(Self::read_names(&answer)),
            Err(e) => Err(e),
        }
    }

    /// What a request for the metadata of `metric` came to.
    pub fn metadata_outcome(sent: Result<HttpReply, TransportError>, metric: &str) -> (r: Result<
        Vec<MetricMetadata>,
        PrometheusError,
    >)
        ensures
            match r {
                Ok(found) => answer_of(sent) matches Ok(answer) && metadata_view(found@)
                    == data_metadata(answer, metric@),
                Err(e) => answer_of(sent) == Err::<JsonValue, ErrorView>(e@),
            },
    {
        match Self::read_sent(sent) {
            Ok(answer) => Ok(Self::read_metadata(&answer, metric)),
            Err(e) => Err(e),
        }
    }

    /// What a request for series came to. No label set names a label
    /// twice.
    pub fn series_outcome(sent: Result<HttpReply, TransportError>) -> (r: Result<
        Vec<Vec<(String, String)>>,
        PrometheusError,
    >)
        ensures
            match r {
                Ok(series) => answer_of(sent) matches Ok(answer) && label_sets_view(series@)
                    == data_label_sets(answer) && forall|i: int|
                    0 <= i < series@.len() ==> distinct_labels(pairs_view(#[trigger] series@[i]@)),
                Err(e) => answer_of(sent) == Err::<JsonValue, ErrorView>(e@),
            },
    {
        match Self::read_sent(sent) {
            Ok(answer) => Ok(Self::read_series(&answer)),
            Err(e) => Err(e),
        }
    }
}

} // verus!
