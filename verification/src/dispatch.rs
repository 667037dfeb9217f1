//! The dispatch engine: what one line of input means and what is to be
//! done about it.
//!
//! A line is a frame with one JSON value. A value without an `id` is a
//! notification and is never answered. A value with an `id` is a request:
//! the generic `tools/call` is rewritten into the call of the tool that it
//! names, the method is looked up in the registry, its parameters are
//! decoded, and either the answer is written at once or the caller is told
//! which tool to run against the server.

use crate::compat::{
    compat_prompts_list, compat_resource_templates_list, compat_resources_list, empty_list,
};
use crate::json::{json_parse, json_text, lemma_field_wf, Json, JsonValue, ObjectBuilder};
use crate::names::{first_at, lemma_lookup_at, lemma_lookup_none, stamp};
use crate::prometheus_client::{
    label_values_plan, list_metrics_plan, metadata_plan, query_plan, range_plan, series_plan,
    PlanView, PrometheusClient, RequestPlan,
};
use crate::prometheus_config::ConfigView;
use crate::router::{Handler, Router};
use crate::text::{integer_text_of, opt_text, str_eq, texts};
use crate::tools::{
    decode_label_values_request, decode_list_metrics_request, decode_metadata_request,
    decode_query_request, decode_range_request, decode_series_request, optional_text,
    read_optional_text, tools_catalogue, tools_list, PrometheusGetLabelValuesRequest,
    PrometheusGetMetadataRequest, PrometheusGetSeriesRequest, PrometheusListMetricsRequest,
    PrometheusQueryRangeRequest, PrometheusQueryRequest, ToolCallView,
};
use crate::types::CallToolResult;
use crate::utilities::{
    check_initialize_request, initialize, initialize_result, is_initialize_request, ping,
};
use vstd::prelude::*;
use vstd::string::*;

verus! {

/// A message that asks for no answer.
#[derive(Debug)]
pub enum Notification {
    /// The client has taken note of the greeting.
    Initialized,
    /// The client gives up on a request. No request is stopped by it.
    Cancelled { request_id: String, reason: Option<String> },
    /// Any other notification.
    Ignored,
}

/// The mathematical value of a [`Notification`].
pub ghost enum NotificationView {
    Initialized,
    Cancelled { request_id: Seq<char>, reason: Option<Seq<char>> },
    Ignored,
}

impl View for Notification {
    type V = NotificationView;

    open spec fn view(&self) -> NotificationView {
        match self {
            Notification::Initialized => NotificationView::Initialized,
            Notification::Cancelled { request_id, reason } => NotificationView::Cancelled {
                request_id: request_id@,
                reason: opt_text(*reason),
            },
            Notification::Ignored => NotificationView::Ignored,
        }
    }
}

/// A message that asks for an answer.
#[derive(Debug)]
pub struct Request {
    pub id: Json,
    pub method: String,
    pub params: Option<Json>,
}

/// The mathematical value of a [`Request`].
pub ghost struct RequestView {
    pub id: JsonValue,
    pub method: Seq<char>,
    pub params: Option<JsonValue>,
}

impl View for Request {
    type V = RequestView;

    open spec fn view(&self) -> RequestView {
        RequestView {
            id: self.id@,
            method: self.method@,
            params: match self.params {
                Some(p) => Some(p@),
                None => None,
            },
        }
    }
}

impl Request {
    /// Whether its `id` and its parameters are well formed.
    pub open spec fn wf(&self) -> bool {
        &&& self.id.wf()
        &&& self.params matches Some(p) ==> p.wf()
    }
}

/// What a JSON value is as a message.
#[derive(Debug)]
pub enum Envelope {
    Notification(Notification),
    Request(Request),
    /// Neither: the value is passed over in silence.
    Unrecognized,
}

/// The mathematical value of an [`Envelope`].
pub ghost enum EnvelopeView {
    Notification(NotificationView),
    Request(RequestView),
    Unrecognized,
}

impl View for Envelope {
    type V = EnvelopeView;

    open spec fn view(&self) -> EnvelopeView {
        match self {
            Envelope::Notification(n) => EnvelopeView::Notification(n@),
            Envelope::Request(q) => EnvelopeView::Request(q@),
            Envelope::Unrecognized => EnvelopeView::Unrecognized,
        }
    }
}

impl Envelope {
    /// Whether the request in it, if it holds one, is well formed.
    pub open spec fn wf(&self) -> bool {
        self matches Envelope::Request(q) ==> q.wf()
    }
}

/// The member `key` where it is there and not `null`.
pub open spec fn present(v: JsonValue, key: Seq<char>) -> Option<JsonValue> {
    match v.field(key) {
        Some(JsonValue::Null) => None,
        other => other,
    }
}

/// What the parameters of a cancellation hold: the text `requestId` and,
/// where it is there, the text `reason`.
pub open spec fn decode_cancelled(v: JsonValue) -> Option<NotificationView> {
    match (v.text_field("requestId"@), optional_text(v, "reason"@)) {
        (Some(request_id), Some(reason)) => Some(NotificationView::Cancelled { request_id, reason }),
        _ => None,
    }
}

/// The notification that an object without `id` is.
pub open spec fn classify_notification(v: JsonValue) -> NotificationView {
    match v.text_field("method"@) {
        Some(method) => if method == "notifications/initialized"@ {
            NotificationView::Initialized
        } else if method == "notifications/cancelled"@ {
            match v.field("params"@) {
                Some(p) => match decode_cancelled(p) {
                    Some(cancelled) => cancelled,
                    None => NotificationView::Ignored,
                },
                None => NotificationView::Ignored,
            }
        } else {
            NotificationView::Ignored
        },
        None => NotificationView::Ignored,
    }
}

/// What a JSON value is as a message. An object without `id` is a
/// notification. Anything else is a request where it has the text `2.0`
/// under `jsonrpc`, an `id` and a text under `method`; its parameters are
/// what stands under `params`, unless that is `null`.
pub open spec fn classify_spec(v: JsonValue) -> EnvelopeView {
    if v is Object && v.field("id"@) is None {
        EnvelopeView::Notification(classify_notification(v))
    } else {
        match (v.text_field("jsonrpc"@), v.field("id"@), v.text_field("method"@)) {
            (Some(version), Some(id), Some(method)) => if version == "2.0"@ {
                EnvelopeView::Request(RequestView { id, method, params: present(v, "params"@) })
            } else {
                EnvelopeView::Unrecognized
            },
            _ => EnvelopeView::Unrecognized,
        }
    }
}

/// A request after the generic `tools/call` has been taken off it, and the
/// name of the tool that is to be counted for it.
pub ghost struct ResolvedView {
    pub request: RequestView,
    pub counted: Option<Seq<char>>,
}

/// A request after the generic `tools/call` has been taken off it.
#[derive(Debug)]
pub struct Resolved {
    pub request: Request,
    /// The tool that a `tools/call` named, to be counted.
    pub counted: Option<String>,
}

impl View for Resolved {
    type V = ResolvedView;

    open spec fn view(&self) -> ResolvedView {
        ResolvedView { request: self.request@, counted: opt_text(self.counted) }
    }
}

/// The request that is dispatched for `q`. A `tools/call` must name its
/// tool with a text under `name`; it becomes the call of that method with
/// what stands under `arguments`, and the tool is counted unless its name is
/// empty. A `tools/call` without such parameters is dropped: `None`. Any
/// other request is dispatched as it is.
pub open spec fn resolve_spec(q: RequestView) -> Option<ResolvedView> {
    if q.method == "tools/call"@ {
        match q.params {
            Some(p) => match p.text_field("name"@) {
                Some(name) => Some(
                    ResolvedView {
                        request: RequestView {
                            id: q.id,
                            method: name,
                            params: present(p, "arguments"@),
                        },
                        counted: if name.len() > 0 {
                            Some(name)
                        } else {
                            None
                        },
                    },
                ),
                None => None,
            },
            None => None,
        }
    } else {
        Some(ResolvedView { request: q, counted: None })
    }
}

/// The call of a tool with its parameters.
#[derive(Debug)]
pub enum ToolRequest {
    Query(PrometheusQueryRequest),
    QueryRange(PrometheusQueryRangeRequest),
    ListMetrics(PrometheusListMetricsRequest),
    GetMetadata(PrometheusGetMetadataRequest),
    GetSeries(PrometheusGetSeriesRequest),
    GetLabelValues(PrometheusGetLabelValuesRequest),
}

impl View for ToolRequest {
    type V = ToolCallView;

    open spec fn view(&self) -> ToolCallView {
        match self {
            ToolRequest::Query(r) => r@,
            ToolRequest::QueryRange(r) => r@,
            ToolRequest::ListMetrics(r) => r@,
            ToolRequest::GetMetadata(r) => r@,
            ToolRequest::GetSeries(r) => r@,
            ToolRequest::GetLabelValues(r) => r@,
        }
    }
}

/// The name under which a tool is counted.
pub open spec fn tool_name(call: ToolCallView) -> Seq<char> {
    match call {
        ToolCallView::Query { .. } => "prometheus_query"@,
        ToolCallView::QueryRange { .. } => "prometheus_query_range"@,
        ToolCallView::ListMetrics => "prometheus_list_metrics"@,
        ToolCallView::GetMetadata { .. } => "prometheus_get_metadata"@,
        ToolCallView::GetSeries { .. } => "prometheus_get_series"@,
        ToolCallView::GetLabelValues { .. } => "prometheus_get_label_values"@,
    }
}

/// The request to the server that the call of a tool stands for. Only the
/// two queries are paced.
pub open spec fn tool_plan(config: ConfigView, call: ToolCallView) -> PlanView {
    match call {
        ToolCallView::Query { query, time } => query_plan(config, query, time),
        ToolCallView::QueryRange { query, start, end, step } => range_plan(
            config,
            query,
            start,
            end,
            step,
        ),
        ToolCallView::ListMetrics => list_metrics_plan(config),
        ToolCallView::GetMetadata { metric } => metadata_plan(config, metric),
        ToolCallView::GetSeries { match_strings } => series_plan(config, match_strings),
        ToolCallView::GetLabelValues { label_name } => label_values_plan(config, label_name),
    }
}

impl ToolRequest {
    /// The request to the server that this call stands for.
    pub fn plan(&self, client: &PrometheusClient) -> (plan: RequestPlan)
        ensures
            plan@ == tool_plan(client.config@, self@),
    {
        match self {
            ToolRequest::Query(r) => {
                let time = match &r.time {
                    Some(t) => Some(t.as_str()),
                    None => None,
                };
                client.query(r.query.as_str(), time)
            },
            ToolRequest::QueryRange(r) => client.query_range(
                r.query.as_str(),
                r.start.as_str(),
                r.end.as_str(),
                r.step.as_str(),
            ),
            ToolRequest::ListMetrics(_) => client.list_metrics(),
            ToolRequest::GetMetadata(r) => client.get_metadata(r.metric.as_str()),
            ToolRequest::GetSeries(r) => {
                let plan = client.get_series(&r.match_strings);
                assert(plan@.params =~= tool_plan(client.config@, self@).params);
                plan
            },
            ToolRequest::GetLabelValues(r) => {
                let plan = client.get_label_values(r.label_name.as_str());
                assert(plan@.url =~= tool_plan(client.config@, self@).url);
                plan
            },
        }
    }

    /// The name under which the tool is counted.
    pub fn name(&self) -> (name: &'static str)
        ensures
            name@ == tool_name(self@),
    {
        match self {
            ToolRequest::Query(_) => "prometheus_query",
            ToolRequest::QueryRange(_) => "prometheus_query_range",
            ToolRequest::ListMetrics(_) => "prometheus_list_metrics",
            ToolRequest::GetMetadata(_) => "prometheus_get_metadata",
            ToolRequest::GetSeries(_) => "prometheus_get_series",
            ToolRequest::GetLabelValues(_) => "prometheus_get_label_values",
        }
    }
}

/// A call that the registry has resolved, with its typed parameters.
#[derive(Debug)]
pub enum Call {
    Initialize,
    Ping,
    ResourcesList,
    ResourceTemplatesList,
    PromptsList,
    ToolsList,
    Tool(ToolRequest),
}

/// The mathematical value of a [`Call`].
pub ghost enum CallView {
    Initialize,
    Ping,
    ResourcesList,
    ResourceTemplatesList,
    PromptsList,
    ToolsList,
    Tool(ToolCallView),
}

impl View for Call {
    type V = CallView;

    open spec fn view(&self) -> CallView {
        match self {
            Call::Initialize => CallView::Initialize,
            Call::Ping => CallView::Ping,
            Call::ResourcesList => CallView::ResourcesList,
            Call::ResourceTemplatesList => CallView::ResourceTemplatesList,
            Call::PromptsList => CallView::PromptsList,
            Call::ToolsList => CallView::ToolsList,
            Call::Tool(t) => CallView::Tool(t@),
        }
    }
}

/// Why a request could not be handed to a handler.
#[derive(Clone, Copy, Debug, PartialEq, Eq, Structural)]
pub enum DispatchFault {
    /// No handler is bound to the method.
    MethodUnknown,
    /// The handler needs parameters and there are none.
    ParamsMissing,
    /// The parameters are not those of the handler.
    ParamsInvalid,
}

/// Whether a JSON value holds the parameters of one of the lists: an
/// object in which `cursor`, where it is there, is a text.
pub open spec fn is_list_request(v: JsonValue) -> bool {
    v is Object && optional_text(v, "cursor"@) is Some
}

/// The call of a handler that may go without parameters.
pub open spec fn decode_optional(
    params: Option<JsonValue>,
    valid: spec_fn(JsonValue) -> bool,
    call: CallView,
) -> Result<CallView, DispatchFault> {
    match params {
        None => Ok(call),
        Some(p) => if valid(p) {
            Ok(call)
        } else {
            Err(DispatchFault::ParamsInvalid)
        },
    }
}

/// The call of a tool, which needs its parameters.
pub open spec fn decode_tool(
    params: Option<JsonValue>,
    decode: spec_fn(JsonValue) -> Option<ToolCallView>,
) -> Result<CallView, DispatchFault> {
    match params {
        None => Err(DispatchFault::ParamsMissing),
        Some(p) => match decode(p) {
            Some(call) => Ok(CallView::Tool(call)),
            None => Err(DispatchFault::ParamsInvalid),
        },
    }
}

/// The call that a handler makes of the parameters of a request, or the
/// fault where they are not its parameters.
pub open spec fn decode_call(handler: Handler, params: Option<JsonValue>) -> Result<
    CallView,
    DispatchFault,
> {
    match handler {
        Handler::Initialize => match params {
            None => Err(DispatchFault::ParamsMissing),
            Some(p) => if is_initialize_request(p) {
                Ok(CallView::Initialize)
            } else {
                Err(DispatchFault::ParamsInvalid)
            },
        },
        Handler::Ping => decode_optional(params, |p: JsonValue| p is Object, CallView::Ping),
        Handler::ResourcesList => decode_optional(
            params,
            |p: JsonValue| is_list_request(p),
            CallView::ResourcesList,
        ),
        Handler::ResourceTemplatesList => decode_optional(
            params,
            |p: JsonValue| is_list_request(p),
            CallView::ResourceTemplatesList,
        ),
        Handler::PromptsList => decode_optional(
            params,
            |p: JsonValue| is_list_request(p),
            CallView::PromptsList,
        ),
        Handler::ToolsList => decode_optional(
            params,
            |p: JsonValue| is_list_request(p),
            CallView::ToolsList,
        ),
        Handler::PrometheusQuery => decode_tool(params, |p: JsonValue| decode_query_request(p)),
        Handler::PrometheusQueryRange => decode_tool(
            params,
            |p: JsonValue| decode_range_request(p),
        ),
        Handler::PrometheusListMetrics => decode_tool(
            params,
            |p: JsonValue| decode_list_metrics_request(p),
        ),
        Handler::PrometheusGetMetadata => decode_tool(
            params,
            |p: JsonValue| decode_metadata_request(p),
        ),
        Handler::PrometheusGetSeries => decode_tool(
            params,
            |p: JsonValue| decode_series_request(p),
        ),
        Handler::PrometheusGetLabelValues => decode_tool(
            params,
            |p: JsonValue| decode_label_values_request(p),
        ),
    }
}

/// The call that a request comes to in a registry: the handler bound to
/// its method, by the exact name, with the parameters decoded.
pub open spec fn route_spec(
    routes: Map<Seq<char>, Handler>,
    method: Seq<char>,
    params: Option<JsonValue>,
) -> Result<CallView, DispatchFault> {
    if routes.dom().contains(method) {
        decode_call(routes[method], params)
    } else {
        Err(DispatchFault::MethodUnknown)
    }
}

/// What a handler that needs no answer of the server hands back; `None`
/// for the call of a tool.
pub open spec fn local_result(call: CallView) -> Option<JsonValue> {
    match call {
        CallView::Initialize => Some(initialize_result()),
        CallView::Ping => Some(JsonValue::Object(Seq::empty())),
        CallView::ResourcesList => Some(empty_list("resources"@)),
        CallView::ResourceTemplatesList => Some(empty_list("resourceTemplates"@)),
        CallView::PromptsList => Some(empty_list("prompts"@)),
        CallView::ToolsList => Some(tools_catalogue()),
        CallView::Tool(_) => None,
    }
}

/// Why a request has no result.
#[derive(Debug)]
pub enum Fault {
    /// The handler failed and says so with a payload of its own.
    Handler(Json),
    /// The request did not reach a handler.
    Dispatch(DispatchFault),
}

/// The mathematical value of a [`Fault`].
pub ghost enum FaultView {
    Handler(JsonValue),
    Dispatch(DispatchFault),
}

impl View for Fault {
    type V = FaultView;

    open spec fn view(&self) -> FaultView {
        match self {
            Fault::Handler(payload) => FaultView::Handler(payload@),
            Fault::Dispatch(fault) => FaultView::Dispatch(*fault),
        }
    }
}

/// The response with a result.
pub open spec fn result_response(id: JsonValue, result: JsonValue) -> JsonValue {
    JsonValue::Object(
        seq![("jsonrpc"@, JsonValue::Text("2.0"@)), ("id"@, id), ("result"@, result)],
    )
}

/// The response with the error payload of a handler.
pub open spec fn error_response(id: JsonValue, payload: JsonValue) -> JsonValue {
    JsonValue::Object(
        seq![("jsonrpc"@, JsonValue::Text("2.0"@)), ("error"@, payload), ("id"@, id)],
    )
}

/// The response to a request that did not reach a handler.
pub open spec fn invalid_call_response(id: JsonValue) -> JsonValue {
    JsonValue::Object(
        seq![
            ("jsonrpc"@, JsonValue::Text("2.0"@)),
            ("id"@, id),
            (
                "error"@,
                JsonValue::Object(
                    seq![
                        ("code"@, JsonValue::Number(seq!['-', '1'])),
                        ("message"@, JsonValue::Text("Invalid json-rpc call"@)),
                    ],
                ),
            ),
        ],
    )
}

/// The response to a request with the given outcome. A result of `null`
/// has no response; the error payload of a handler is handed on as it is;
/// any other fault is answered with the same error.
pub open spec fn reply_spec(id: JsonValue, outcome: Result<JsonValue, FaultView>) -> Option<
    JsonValue,
> {
    match outcome {
        Ok(JsonValue::Null) => None,
        Ok(result) => Some(result_response(id, result)),
        Err(FaultView::Handler(payload)) => Some(error_response(id, payload)),
        Err(FaultView::Dispatch(_)) => Some(invalid_call_response(id)),
    }
}

/// A response echoes the `id` of its request, and it carries a result or
/// an error, never both.
pub proof fn lemma_response_echoes_id(id: JsonValue, outcome: Result<JsonValue, FaultView>)
    requires
        reply_spec(id, outcome) is Some,
    ensures
        reply_spec(id, outcome)->0.field("id"@) == Some(id),
        reply_spec(id, outcome)->0.field("jsonrpc"@) == Some(JsonValue::Text("2.0"@)),
        reply_spec(id, outcome)->0.field("result"@) is Some <==> outcome is Ok,
        reply_spec(id, outcome)->0.field("error"@) is Some <==> outcome is Err,
{
    reveal_strlit("jsonrpc");
    reveal_strlit("id");
    reveal_strlit("result");
    reveal_strlit("error");
    let _ = stamp("jsonrpc"@);
    let _ = stamp("id"@);
    let _ = stamp("result"@);
    let _ = stamp("error"@);
    let members = reply_spec(id, outcome)->0->Object_0;
    assert(members.len() == 3);
    assert(first_at(members, "jsonrpc"@, 0));
    lemma_lookup_at(members, "jsonrpc"@, 0);
    match outcome {
        Ok(result) => {
            assert(first_at(members, "id"@, 1));
            lemma_lookup_at(members, "id"@, 1);
            assert(first_at(members, "result"@, 2));
            lemma_lookup_at(members, "result"@, 2);
            lemma_lookup_none(members, "error"@);
        },
        Err(FaultView::Handler(payload)) => {
            assert(first_at(members, "error"@, 1));
            lemma_lookup_at(members, "error"@, 1);
            assert(first_at(members, "id"@, 2));
            lemma_lookup_at(members, "id"@, 2);
            lemma_lookup_none(members, "result"@);
        },
        Err(FaultView::Dispatch(_)) => {
            assert(first_at(members, "id"@, 1));
            lemma_lookup_at(members, "id"@, 1);
            assert(first_at(members, "error"@, 2));
            lemma_lookup_at(members, "error"@, 2);
            lemma_lookup_none(members, "result"@);
        },
    }
}

/// What is to be done about a line.
#[derive(Debug)]
pub enum Step {
    /// Nothing.
    Silent,
    /// Nothing but to take note of a notification.
    Noted(Notification),
    /// This line is to be written.
    Respond(String),
    /// This tool is to be run against the server, and its result written
    /// for the request `id`.
    Ask { id: Json, request: ToolRequest },
}

/// The mathematical value of a [`Step`].
pub ghost enum StepView {
    Silent,
    Noted(NotificationView),
    Respond(Seq<char>),
    Ask { id: JsonValue, call: ToolCallView },
}

impl View for Step {
    type V = StepView;

    open spec fn view(&self) -> StepView {
        match self {
            Step::Silent => StepView::Silent,
            Step::Noted(n) => StepView::Noted(n@),
            Step::Respond(line) => StepView::Respond(line@),
            Step::Ask { id, request } => StepView::Ask { id: id@, call: request@ },
        }
    }
}

/// What is to be done about a line, and the tools that are to be counted
/// for it.
#[derive(Debug)]
pub struct Received {
    pub step: Step,
    pub counted: Vec<String>,
}

/// The mathematical value of a [`Received`].
pub ghost struct ReceivedView {
    pub step: StepView,
    pub counted: Seq<Seq<char>>,
}

impl View for Received {
    type V = ReceivedView;

    open spec fn view(&self) -> ReceivedView {
        ReceivedView { step: self.step@, counted: texts(self.counted@) }
    }
}

impl Received {
    /// Whether the `id` of the request to be answered is well formed.
    pub open spec fn wf(&self) -> bool {
        self.step matches Step::Ask { id, .. } ==> id.wf()
    }
}

/// Nothing to do and nothing to count.
pub open spec fn silent() -> ReceivedView {
    ReceivedView { step: StepView::Silent, counted: Seq::empty() }
}

/// The step that writes a response, if there is one.
pub open spec fn respond_step(response: Option<JsonValue>) -> StepView {
    match response {
        Some(json) => StepView::Respond(json_text(json)),
        None => StepView::Silent,
    }
}

/// The tool to count, as a list.
pub open spec fn counted_list(counted: Option<Seq<char>>) -> Seq<Seq<char>> {
    match counted {
        Some(name) => seq![name],
        None => Seq::empty(),
    }
}

/// What is to be done about a request: it is resolved and routed; a fault
/// is answered with the error for an invalid call, a call that needs no
/// answer of the server is answered at once, and the call of a tool is
/// handed to the caller and counted once more.
pub open spec fn dispatch_spec(routes: Map<Seq<char>, Handler>, q: RequestView) -> ReceivedView {
    match resolve_spec(q) {
        None => silent(),
        Some(resolved) => {
            let id = resolved.request.id;
            let counted = counted_list(resolved.counted);
            match route_spec(routes, resolved.request.method, resolved.request.params) {
                Err(fault) => ReceivedView {
                    step: respond_step(reply_spec(id, Err(FaultView::Dispatch(fault)))),
                    counted,
                },
                Ok(CallView::Tool(call)) => ReceivedView {
                    step: StepView::Ask { id, call },
                    counted: counted.push(tool_name(call)),
                },
                Ok(call) => ReceivedView {
                    step: respond_step(reply_spec(id, Ok(local_result(call)->0))),
                    counted,
                },
            }
        },
    }
}

/// What is to be done about a JSON value.
pub open spec fn accept_spec(routes: Map<Seq<char>, Handler>, v: JsonValue) -> ReceivedView {
    match classify_spec(v) {
        EnvelopeView::Notification(n) => ReceivedView {
            step: StepView::Noted(n),
            counted: Seq::empty(),
        },
        EnvelopeView::Unrecognized => silent(),
        EnvelopeView::Request(q) => dispatch_spec(routes, q),
    }
}

/// What is to be done about a line: an empty line and a line that is not
/// JSON are passed over in silence.
pub open spec fn receive_spec(routes: Map<Seq<char>, Handler>, line: Seq<char>) -> ReceivedView {
    if line.len() == 0 {
        silent()
    } else {
        match json_parse(line) {
            Some(v) => accept_spec(routes, v),
            None => silent(),
        }
    }
}

/// A line that is not JSON is passed over in silence: nothing is written
/// and nothing is counted. What is done about a line depends on that line
/// alone, so the lines that follow are answered as ever.
pub proof fn lemma_malformed_line_is_silent(routes: Map<Seq<char>, Handler>, line: Seq<char>)
    requires
        json_parse(line) is None,
    ensures
        receive_spec(routes, line) == silent(),
{
}

/// A notification, that is an object without `id`, is never answered:
/// nothing is written for it, no tool is run and none is counted.
pub proof fn lemma_notification_is_not_answered(
    routes: Map<Seq<char>, Handler>,
    line: Seq<char>,
    v: JsonValue,
)
    requires
        line.len() > 0,
        json_parse(line) == Some(v),
        v is Object,
        v.field("id"@) is None,
    ensures
        receive_spec(routes, line).step is Noted,
        receive_spec(routes, line).counted.len() == 0,
{
}

/// A `tools/call` that names a tool is dispatched as the direct call of
/// that tool with the same parameters is: the same step is taken, be it an
/// answer or the run of a tool. (The generic call is counted once more.)
pub proof fn lemma_tool_call_is_direct_call(
    routes: Map<Seq<char>, Handler>,
    id: JsonValue,
    envelope: JsonValue,
    name: Seq<char>,
)
    requires
        envelope.text_field("name"@) == Some(name),
        name != "tools/call"@,
    ensures
        dispatch_spec(
            routes,
            RequestView { id, method: "tools/call"@, params: Some(envelope) },
        ).step == dispatch_spec(
            routes,
            RequestView { id, method: name, params: present(envelope, "arguments"@) },
        ).step,
{
}

/// The same for whole messages: a `tools/call` message and the message
/// that calls the tool directly, with the same `id` and with the arguments
/// of the one as the parameters of the other, lead to the same step.
pub proof fn lemma_tool_call_message_is_direct_message(
    routes: Map<Seq<char>, Handler>,
    wrapped: JsonValue,
    direct: JsonValue,
    name: Seq<char>,
)
    requires
        wrapped.text_field("jsonrpc"@) == Some("2.0"@),
        direct.text_field("jsonrpc"@) == Some("2.0"@),
        wrapped.field("id"@) is Some,
        direct.field("id"@) == wrapped.field("id"@),
        wrapped.text_field("method"@) == Some("tools/call"@),
        direct.text_field("method"@) == Some(name),
        wrapped.field("params"@) matches Some(envelope) && envelope.text_field("name"@) == Some(name)
            && present(direct, "params"@) == present(envelope, "arguments"@),
        name != "tools/call"@,
    ensures
        accept_spec(routes, wrapped).step == accept_spec(routes, direct).step,
{
    let envelope = wrapped.field("params"@)->0;
    let id = wrapped.field("id"@)->0;
    assert(present(wrapped, "params"@) == Some(envelope));
    lemma_tool_call_is_direct_call(routes, id, envelope, name);
}

/// Reads the parameters of a cancellation.
fn read_cancelled(params: &Json) -> (r: Option<Notification>)
    ensures
        match r {
            Some(n) => decode_cancelled(params@) == Some(n@),
            None => decode_cancelled(params@) is None,
        },
{
    let request_id = match params.get_str("requestId") {
        Some(s) => String::from_str(s),
        None => {
            return None;
        },
    };
    match read_optional_text(params, "reason") {
        Some(reason) => Some(Notification::Cancelled { request_id, reason }),
        None => None,
    }
}

/// The member `key` where it is there and not `null`.
fn read_present(v: &Json, key: &str) -> (r: Option<Json>)
    ensures
        (match r {
            Some(json) => Some(json@),
            None => None,
        }) == present(v@, key@),
        v.wf() ==> (r matches Some(json) ==> json.wf()),
{
    match v.get(key) {
        Some(m) => {
            proof {
                if v.wf() {
                    lemma_field_wf(v@, key@);
                }
            }
            if m.is_null() {
                None
            } else {
                Some(m.duplicate())
            }
        },
        None => None,
    }
}

/// Tells what a JSON value is as a message.
pub fn classify(value: &Json) -> (envelope: Envelope)
    ensures
        envelope@ == classify_spec(value@),
        value.wf() ==> envelope.wf(),
{
    let id = value.get("id");
    if value.is_object() && id.is_none() {
        let note = match value.get_str("method") {
            Some(method) => {
                if str_eq(method, "notifications/initialized") {
                    Notification::Initialized
                } else if str_eq(method, "notifications/cancelled") {
                    match value.get("params") {
                        Some(p) => match read_cancelled(p) {
                            Some(cancelled) => cancelled,
                            None => Notification::Ignored,
                        },
                        None => Notification::Ignored,
                    }
                } else {
                    Notification::Ignored
                }
            },
            None => Notification::Ignored,
        };
        return Envelope::Notification(note);
    }
    match (value.get_str("jsonrpc"), id, value.get_str("method")) {
        (Some(version), Some(id), Some(method)) => {
            if str_eq(version, "2.0") {
                proof {
                    if value.wf() {
                        lemma_field_wf(value@, "id"@);
                    }
                }
                Envelope::Request(
                    Request {
                        id: id.duplicate(),
                        method: String::from_str(method),
                        params: read_present(value, "params"),
                    },
                )
            } else {
                Envelope::Unrecognized
            }
        },
        _ => Envelope::Unrecognized,
    }
}

/// Takes the generic `tools/call` off a request.
pub fn resolve(request: Request) -> (r: Option<Resolved>)
    ensures
        (match r {
            Some(resolved) => Some(resolved@),
            None => None,
        }) == resolve_spec(request@),
        request.wf() ==> (r matches Some(resolved) ==> resolved.request.wf()),
{
    if !str_eq(request.method.as_str(), "tools/call") {
        return Some(Resolved { request, counted: None });
    }
    let envelope = match &request.params {
        Some(p) => p,
        None => {
            return None;
        },
    };
    let name = match envelope.get_str("name") {
        Some(name) => String::from_str(name),
        None => {
            return None;
        },
    };
    let params = read_present(envelope, "arguments");
    let counted = if !name.as_str().is_empty() {
        Some(name.clone())
    } else {
        None
    };
    Some(Resolved { request: Request { id: request.id, method: name, params }, counted })
}

/// Whether a JSON value holds the parameters of one of the lists.
fn check_list_request(params: &Json) -> (ok: bool)
    ensures
        ok == is_list_request(params@),
{
    params.is_object() && read_optional_text(params, "cursor").is_some()
}

/// The call that a handler makes of the parameters of a request.
pub fn decode(handler: Handler, params: Option<&Json>) -> (r: Result<Call, DispatchFault>)
    ensures
        (match r {
            Ok(call) => Ok(call@),
            Err(fault) => Err(fault),
        }) == decode_call(
            handler,
            match params {
                Some(p) => Some(p@),
                None => None,
            },
        ),
{
    match handler {
        Handler::Initialize => match params {
            None => Err(DispatchFault::ParamsMissing),
            Some(p) => if check_initialize_request(p) {
                Ok(Call::Initialize)
            } else {
                Err(DispatchFault::ParamsInvalid)
            },
        },
        Handler::Ping => match params {
            None => Ok(Call::Ping),
            Some(p) => if p.is_object() {
                Ok(Call::Ping)
            } else {
                Err(DispatchFault::ParamsInvalid)
            },
        },
        Handler::ResourcesList => match params {
            None => Ok(Call::ResourcesList),
            Some(p) => if check_list_request(p) {
                Ok(Call::ResourcesList)
            } else {
                Err(DispatchFault::ParamsInvalid)
            },
        },
        Handler::ResourceTemplatesList => match params {
            None => Ok(Call::ResourceTemplatesList),
            Some(p) => if check_list_request(p) {
                Ok(Call::ResourceTemplatesList)
            } else {
                Err(DispatchFault::ParamsInvalid)
            },
        },
        Handler::PromptsList => match params {
            None => Ok(Call::PromptsList),
            Some(p) => if check_list_request(p) {
                Ok(Call::PromptsList)
            } else {
                Err(DispatchFault::ParamsInvalid)
            },
        },
        Handler::ToolsList => match params {
            None => Ok(Call::ToolsList),
            Some(p) => if check_list_request(p) {
                Ok(Call::ToolsList)
            } else {
                Err(DispatchFault::ParamsInvalid)
            },
        },
        Handler::PrometheusQuery => match params {
            None => Err(DispatchFault::ParamsMissing),
            Some(p) => match PrometheusQueryRequest::from_json(p) {
                Some(r) => Ok(Call::Tool(ToolRequest::Query(r))),
                None => Err(DispatchFault::ParamsInvalid),
            },
        },
        Handler::PrometheusQueryRange => match params {
            None => Err(DispatchFault::ParamsMissing),
            Some(p) => match PrometheusQueryRangeRequest::from_json(p) {
                Some(r) => Ok(Call::Tool(ToolRequest::QueryRange(r))),
                None => Err(DispatchFault::ParamsInvalid),
            },
        },
        Handler::PrometheusListMetrics => match params {
            None => Err(DispatchFault::ParamsMissing),
            Some(p) => match PrometheusListMetricsRequest::from_json(p) {
                Some(r) => Ok(Call::Tool(ToolRequest::ListMetrics(r))),
                None => Err(DispatchFault::ParamsInvalid),
            },
        },
        Handler::PrometheusGetMetadata => match params {
            None => Err(DispatchFault::ParamsMissing),
            Some(p) => match PrometheusGetMetadataRequest::from_json(p) {
                Some(r) => Ok(Call::Tool(ToolRequest::GetMetadata(r))),
                None => Err(DispatchFault::ParamsInvalid),
            },
        },
        Handler::PrometheusGetSeries => match params {
            None => Err(DispatchFault::ParamsMissing),
            Some(p) => match PrometheusGetSeriesRequest::from_json(p) {
                Some(r) => Ok(Call::Tool(ToolRequest::GetSeries(r))),
                None => Err(DispatchFault::ParamsInvalid),
            },
        },
        Handler::PrometheusGetLabelValues => match params {
            None => Err(DispatchFault::ParamsMissing),
            Some(p) => match PrometheusGetLabelValuesRequest::from_json(p) {
                Some(r) => Ok(Call::Tool(ToolRequest::GetLabelValues(r))),
                None => Err(DispatchFault::ParamsInvalid),
            },
        },
    }
}

/// Looks the method up in the registry and decodes the parameters for its
/// handler.
pub fn route(router: &Router, method: &str, params: Option<&Json>) -> (r: Result<
    Call,
    DispatchFault,
>)
    ensures
        (match r {
            Ok(call) => Ok(call@),
            Err(fault) => Err(fault),
        }) == route_spec(
            router@,
            method@,
            match params {
                Some(p) => Some(p@),
                None => None,
            },
        ),
{
    match router.lookup(method) {
        Some(handler) => decode(handler, params),
        None => Err(DispatchFault::MethodUnknown),
    }
}

/// What a handler that needs no answer of the server hands back.
fn run_local(call: &Call) -> (r: Option<Json>)
    ensures
        (match r {
            Some(json) => Some(json@),
            None => None,
        }) == local_result(call@),
        r matches Some(json) ==> json.wf(),
{
    match call {
        Call::Initialize => Some(initialize()),
        Call::Ping => Some(ping()),
        Call::ResourcesList => Some(compat_resources_list()),
        Call::ResourceTemplatesList => Some(compat_resource_templates_list()),
        Call::PromptsList => Some(compat_prompts_list()),
        Call::ToolsList => Some(tools_list().to_json()),
        Call::Tool(_) => None,
    }
}

/// The response to a request with the given outcome.
pub fn reply(id: &Json, outcome: Result<Json, Fault>) -> (r: Option<Json>)
    requires
        id.wf(),
        match outcome {
            Ok(result) => result.wf(),
            Err(Fault::Handler(payload)) => payload.wf(),
            Err(Fault::Dispatch(_)) => true,
        },
    ensures
        (match r {
            Some(json) => Some(json@),
            None => None,
        }) == reply_spec(
            id@,
            match outcome {
                Ok(result) => Ok(result@),
                Err(fault) => Err(fault@),
            },
        ),
        r matches Some(json) ==> json.wf(),
{
    proof {
        reveal_strlit("jsonrpc");
        reveal_strlit("id");
        reveal_strlit("result");
        reveal_strlit("error");
        reveal_strlit("code");
        reveal_strlit("message");
        let _ = stamp("jsonrpc"@);
        let _ = stamp("id"@);
        let _ = stamp("result"@);
        let _ = stamp("error"@);
        let _ = stamp("code"@);
        let _ = stamp("message"@);
    }
    match outcome {
        Ok(result) => {
            if result.is_null() {
                return None;
            }
            let mut b = ObjectBuilder::new();
            b.put("jsonrpc", Json::text("2.0"));
            b.put("id", id.duplicate());
            b.put("result", result);
            assert(b@ =~= result_response(id@, result@)->Object_0);
            Some(b.finish())
        },
        Err(Fault::Handler(payload)) => {
            let mut b = ObjectBuilder::new();
            b.put("jsonrpc", Json::text("2.0"));
            b.put("error", payload);
            b.put("id", id.duplicate());
            assert(b@ =~= error_response(id@, payload@)->Object_0);
            Some(b.finish())
        },
        Err(Fault::Dispatch(_)) => {
            let mut error = ObjectBuilder::new();
            let code = Json::integer(-1);
            proof {
                integer_text_of(-1);
            }
            error.put("code", code);
            error.put("message", Json::text("Invalid json-rpc call"));
            assert(error@ =~= seq![
                ("code"@, JsonValue::Number(seq!['-', '1'])),
                ("message"@, JsonValue::Text("Invalid json-rpc call"@)),
            ]);
            let mut b = ObjectBuilder::new();
            b.put("jsonrpc", Json::text("2.0"));
            b.put("id", id.duplicate());
            b.put("error", error.finish());
            assert(b@ =~= invalid_call_response(id@)->Object_0);
            Some(b.finish())
        },
    }
}

/// The step that writes a response, if there is one.
fn respond_with(response: Option<Json>) -> (step: Step)
    requires
        response matches Some(json) ==> json.wf(),
    ensures
        step@ == respond_step(
            match response {
                Some(json) => Some(json@),
                None => None,
            },
        ),
{
    match response {
        Some(json) => Step::Respond(json.render()),
        None => Step::Silent,
    }
}

/// Decides what is to be done about a request.
pub fn dispatch(router: &Router, request: Request) -> (received: Received)
    requires
        request.wf(),
    ensures
        received@ == dispatch_spec(router@, request@),
        received.wf(),
{
    let resolved = match resolve(request) {
        Some(resolved) => resolved,
        None => {
            let counted: Vec<String> = Vec::new();
            assert(texts(counted@) =~= Seq::empty());
            return Received { step: Step::Silent, counted };
        },
    };
    let mut counted: Vec<String> = Vec::new();
    assert(texts(counted@) =~= Seq::empty());
    match &resolved.counted {
        Some(name) => {
            counted.push(name.clone());
            assert(texts(counted@) =~= seq![name@]);
        },
        None => {},
    }
    let Resolved { request, counted: _ } = resolved;
    let Request { id, method, params } = request;
    match route(router, method.as_str(), params.as_ref()) {
        Err(fault) => Received {
            step: respond_with(reply(&id, Err(Fault::Dispatch(fault)))),
            counted,
        },
        Ok(Call::Tool(tool)) => {
            let ghost before = counted@;
            counted.push(String::from_str(tool.name()));
            assert(texts(counted@) =~= texts(before).push(
                tool_name(tool@),
            ));
            Received { step: Step::Ask { id, request: tool }, counted }
        },
        Ok(call) => {
            match run_local(&call) {
                Some(result) => Received { step: respond_with(reply(&id, Ok(result))), counted },
                None => Received { step: Step::Silent, counted },
            }
        },
    }
}

/// Decides what is to be done about a line of input.
pub fn handle_line(router: &Router, line: &str) -> (received: Received)
    ensures
        received@ == receive_spec(router@, line@),
        received.wf(),
{
    let counted: Vec<String> = Vec::new();
    assert(texts(counted@) =~= Seq::empty());
    if line.is_empty() {
        return Received { step: Step::Silent, counted };
    }
    let value = match Json::parse(line) {
        Some(value) => value,
        None => {
            return Received { step: Step::Silent, counted };
        },
    };
    match classify(&value) {
        Envelope::Notification(n) => Received { step: Step::Noted(n), counted },
        Envelope::Unrecognized => Received { step: Step::Silent, counted },
        Envelope::Request(request) => dispatch(router, request),
    }
}

/// The line that answers the request `id` with the result of a tool.
pub fn respond(id: &Json, result: &CallToolResult) -> (line: String)
    requires
        id.wf(),
    ensures
        line@ == json_text(result_response(id@, result@)),
{
    proof {
        reveal_strlit("content");
        let _ = stamp("content"@);
    }
    match reply(id, Ok(result.to_json())) {
        Some(json) => json.render(),
        None => String::new(),
    }
}

} // verus!
