//! The commands of the command line: each stands for the call of one tool.

use crate::dispatch::ToolRequest;
use crate::json::json_pretty;
use crate::text::{opt_text, texts};
use crate::tools::{
    PrometheusGetLabelValuesRequest, PrometheusGetMetadataRequest, PrometheusGetSeriesRequest,
    PrometheusListMetricsRequest, PrometheusQueryRangeRequest, PrometheusQueryRequest,
    ToolCallView,
};
use crate::types::CallToolResult;
use vstd::prelude::*;
use vstd::string::*;

verus! {

/// CLI subcommands for interacting with Prometheus directly.
#[derive(Debug)]
pub enum PromCmd {
    /// Instant query
    Query { query: String, time: Option<String> },
    /// Range query
    Range { query: String, start: String, end: String, step: String },
    /// List metric names
    ListMetrics,
    /// Get metric metadata
    Metadata { metric: String },
    /// Get a series for selectors
    Series { selectors: Vec<String> },
    /// Get label values
    LabelValues { label_name: String },
}

impl View for PromCmd {
    type V = ToolCallView;

    /// The call of a tool that the command stands for.
    open spec fn view(&self) -> ToolCallView {
        match self {
            PromCmd::Query { query, time } => ToolCallView::Query {
                query: query@,
                time: opt_text(*time),
            },
            PromCmd::Range { query, start, end, step } => ToolCallView::QueryRange {
                query: query@,
                start: start@,
                end: end@,
                step: step@,
            },
            PromCmd::ListMetrics => ToolCallView::ListMetrics,
            PromCmd::Metadata { metric } => ToolCallView::GetMetadata { metric: metric@ },
            PromCmd::Series { selectors } => ToolCallView::GetSeries {
                match_strings: texts(selectors@),
            },
            PromCmd::LabelValues { label_name } => ToolCallView::GetLabelValues {
                label_name: label_name@,
            },
        }
    }
}

/// The call of a tool that a command stands for: the same handlers answer
/// the command line and the server.
pub fn run_cli_command(cmd: PromCmd) -> (request: ToolRequest)
    ensures
        request@ == cmd@,
{
    match cmd {
        PromCmd::Query { query, time } => ToolRequest::Query(
            PrometheusQueryRequest { query, time },
        ),
        PromCmd::Range { query, start, end, step } => ToolRequest::QueryRange(
            PrometheusQueryRangeRequest { query, start, end, step },
        ),
        PromCmd::ListMetrics => ToolRequest::ListMetrics(PrometheusListMetricsRequest {  }),
        PromCmd::Metadata { metric } => ToolRequest::GetMetadata(
            PrometheusGetMetadataRequest { metric },
        ),
        PromCmd::Series { selectors } => ToolRequest::GetSeries(
            PrometheusGetSeriesRequest { match_strings: selectors },
        ),
        PromCmd::LabelValues { label_name } => ToolRequest::GetLabelValues(
            PrometheusGetLabelValuesRequest { label_name },
        ),
    }
}

/// The text that the command line prints for the result of a tool: its
/// JSON form over several lines.
pub fn print_tool_result(result: &CallToolResult) -> (text: String)
    ensures
        text@ == json_pretty(result@),
{
    result.to_json().render_pretty()
}

} // verus!
