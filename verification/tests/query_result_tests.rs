use prometheus_mcp::json::Json;
use prometheus_mcp::query_result::{PrometheusData, PrometheusQueryResult, PrometheusResult};

fn decode(text: &str) -> Option<PrometheusQueryResult> {
    PrometheusQueryResult::from_json(&Json::parse(text).expect("valid JSON"))
}

#[test]
fn an_empty_vector_decodes_and_is_written_again() {
    let result = decode("{\"status\":\"success\",\"data\":{\"resultType\":\"vector\",\"result\":[]}}")
        .expect("a result");
    assert_eq!(result.status, "success");
    assert_eq!(
        result.to_json().render(),
        "{\"status\":\"success\",\"data\":{\"resultType\":\"vector\",\"result\":[]}}"
    );
}

#[test]
fn samples_keep_their_value_and_read_their_time_as_floating_point() {
    let result = decode(
        "{\"status\":\"success\",\"warnings\":[],\"data\":{\"resultType\":\"matrix\",\"result\":[\
         {\"metric\":{\"__name__\":\"up\"},\"values\":[[1700000000,\"1\"],[1700000015.5,\"0\"]],\
         \"extra\":1},\
         {\"metric\":{},\"value\":[1.5,\"NaN\"],\"values\":null}]}}",
    )
    .expect("a result");
    assert_eq!(result.data.result.len(), 2);
    assert_eq!(result.data.result[0].metric, vec![("__name__".to_string(), "up".to_string())]);
    assert!(result.data.result[0].value.is_none());
    assert_eq!(result.data.result[0].values.as_ref().expect("samples").len(), 2);
    assert!(result.data.result[1].values.is_none());
    assert_eq!(
        result.to_json().render(),
        "{\"status\":\"success\",\"data\":{\"resultType\":\"matrix\",\"result\":[\
         {\"metric\":{\"__name__\":\"up\"},\"values\":[[1700000000.0,\"1\"],[1700000015.5,\"0\"]]},\
         {\"metric\":{},\"value\":[1.5,\"NaN\"]}]}}"
    );
}

#[test]
fn an_answer_of_another_shape_does_not_decode() {
    for text in [
        "[]",
        "{}",
        "{\"status\":\"success\"}",
        "{\"status\":1,\"data\":{\"resultType\":\"vector\",\"result\":[]}}",
        "{\"status\":\"success\",\"data\":[]}",
        "{\"status\":\"success\",\"data\":{\"result\":[]}}",
        "{\"status\":\"success\",\"data\":{\"resultType\":\"vector\"}}",
        "{\"status\":\"success\",\"data\":{\"resultType\":\"vector\",\"result\":{}}}",
        "{\"status\":\"success\",\"data\":{\"resultType\":\"scalar\",\"result\":[1700000000,\"1\"]}}",
        "{\"status\":\"success\",\"data\":{\"resultType\":\"vector\",\"result\":[{}]}}",
        "{\"status\":\"success\",\"data\":{\"resultType\":\"vector\",\"result\":[{\"metric\":[]}]}}",
        "{\"status\":\"success\",\"data\":{\"resultType\":\"vector\",\"result\":[{\"metric\":{\"a\":1}}]}}",
        "{\"status\":\"success\",\"data\":{\"resultType\":\"vector\",\"result\":[{\"metric\":{},\"value\":[1]}]}}",
        "{\"status\":\"success\",\"data\":{\"resultType\":\"vector\",\"result\":[{\"metric\":{},\"value\":[1,\"1\",2]}]}}",
        "{\"status\":\"success\",\"data\":{\"resultType\":\"vector\",\"result\":[{\"metric\":{},\"value\":[\"1\",\"1\"]}]}}",
        "{\"status\":\"success\",\"data\":{\"resultType\":\"vector\",\"result\":[{\"metric\":{},\"value\":[1,1]}]}}",
        "{\"status\":\"success\",\"data\":{\"resultType\":\"vector\",\"result\":[{\"metric\":{},\"values\":[1,\"1\"]}]}}",
        "{\"status\":\"success\",\"data\":{\"resultType\":\"vector\",\"result\":[{\"metric\":{},\"values\":[[1,\"1\"],[2]]}]}}",
    ] {
        assert!(decode(text).is_none(), "{}", text);
    }
}

#[test]
fn a_result_that_is_written_decodes_to_itself() {
    let result = PrometheusQueryResult {
        status: "success".into(),
        data: PrometheusData {
            result_type: "vector".into(),
            result: vec![PrometheusResult {
                metric: vec![("job".into(), "node".into()), ("instance".into(), "a:1".into())],
                value: None,
                values: Some(vec![]),
            }],
        },
    };
    let written = result.to_json();
    assert_eq!(
        written.render(),
        "{\"status\":\"success\",\"data\":{\"resultType\":\"vector\",\"result\":[\
         {\"metric\":{\"job\":\"node\",\"instance\":\"a:1\"},\"values\":[]}]}}"
    );
    let again = PrometheusQueryResult::from_json(&written).expect("a result");
    assert_eq!(again.to_json().render(), written.render());
    assert_eq!(again.data.to_json().render(), result.data.to_json().render());
    assert_eq!(
        PrometheusData::from_json(&result.data.to_json()).expect("data").result_type,
        "vector"
    );
    assert!(PrometheusResult::from_json(&Json::parse("{\"metric\":{}}").expect("valid")).is_some());
}
