use prometheus_mcp::json::{array_of, text_array, Json, ObjectBuilder};

#[test]
fn parse_then_render_keeps_member_order() {
    let json = Json::parse("{\"b\": 1, \"a\": [true, null, \"x\"]}").expect("valid JSON");
    assert_eq!(json.render(), "{\"b\":1,\"a\":[true,null,\"x\"]}");
}

#[test]
fn malformed_text_does_not_parse() {
    assert!(Json::parse("{\"method\":").is_none());
    assert!(Json::parse("").is_none());
    assert!(Json::parse("\n").is_none());
    assert!(Json::parse("{} {}").is_none());
    assert!(Json::parse("[1,]").is_none());
}

#[test]
fn blanks_around_a_value_are_accepted() {
    let json = Json::parse("  {\"id\": 1}\n").expect("valid JSON");
    assert_eq!(json.render(), "{\"id\":1}");
}

#[test]
fn a_name_that_stands_twice_keeps_its_last_value() {
    let json = Json::parse("{\"a\": 1, \"b\": 2, \"a\": 3}").expect("valid JSON");
    assert_eq!(json.render(), "{\"a\":3,\"b\":2}");
    assert_eq!(json.as_object().expect("an object").len(), 2);
}

#[test]
fn get_finds_members_of_objects_only() {
    let json = Json::parse("{\"method\": \"ping\", \"id\": null}").expect("valid JSON");
    assert_eq!(json.get_str("method"), Some("ping"));
    assert!(json.get("id").expect("id is there").is_null());
    assert!(json.get("params").is_none());
    assert!(json.get("Method").is_none());
    assert!(json.get_str("id").is_none());
    let list = Json::parse("[\"method\"]").expect("valid JSON");
    assert!(list.get("method").is_none());
    assert!(!list.is_object());
    assert!(json.is_object());
}

#[test]
fn accessors_tell_the_kinds_apart() {
    let json = Json::parse("[\"x\", 2, [], {}, null, false]").expect("valid JSON");
    let items = json.as_array().expect("an array");
    assert_eq!(items.len(), 6);
    assert_eq!(items[0].as_str(), Some("x"));
    assert!(items[0].as_array().is_none());
    assert!(items[1].as_number().is_some());
    assert!(items[1].as_str().is_none());
    assert!(items[2].as_array().is_some());
    assert!(items[3].as_object().is_some());
    assert!(items[4].is_null());
    assert!(!items[5].is_null());
    assert!(items[5].as_number().is_none());
}

#[test]
fn numbers_are_written_as_they_were_read() {
    let json = Json::parse("[0, -7, 1.5, 1e3, 18446744073709551615, 1700000000.123]")
        .expect("valid JSON");
    assert_eq!(json.render(), "[0,-7,1.5,1000.0,18446744073709551615,1700000000.123]");
}

#[test]
fn as_real_reads_a_number_as_floating_point() {
    let json = Json::parse("[1700000000, 1.5, \"1\"]").expect("valid JSON");
    let items = json.as_array().expect("an array");
    assert_eq!(items[0].as_real().expect("a number").render(), "1700000000.0");
    assert_eq!(items[1].as_real().expect("a number").render(), "1.5");
    assert!(items[2].as_real().is_none());
}

#[test]
fn integers_are_written_in_plain_digits() {
    assert_eq!(Json::unsigned(0).render(), "0");
    assert_eq!(Json::unsigned(1).render(), "1");
    assert_eq!(Json::unsigned(u64::MAX).render(), "18446744073709551615");
    assert_eq!(Json::integer(-1).render(), "-1");
    assert_eq!(Json::integer(-32602).render(), "-32602");
    assert_eq!(Json::integer(42).render(), "42");
    assert_eq!(Json::integer(i64::MIN).render(), "-9223372036854775808");
}

#[test]
fn text_is_written_with_escapes() {
    assert_eq!(Json::text("up").render(), "\"up\"");
    assert_eq!(Json::text("a\"b\\c\n").render(), "\"a\\\"b\\\\c\\n\"");
}

#[test]
fn duplicate_copies_the_whole_tree() {
    let text = "{\"a\":[1,{\"b\":\"c\"},null],\"d\":-2.5,\"e\":true}";
    let json = Json::parse(text).expect("valid JSON");
    let copy = json.duplicate();
    assert_eq!(copy.render(), text);
    assert_eq!(json.render(), text);
}

#[test]
fn builder_keeps_the_order_of_the_members() {
    let mut b = ObjectBuilder::new();
    b.put("jsonrpc", Json::text("2.0"));
    b.put_opt("skipped", None);
    b.put_opt("id", Some(Json::unsigned(7)));
    b.put("result", array_of(vec![Json::Null, Json::Bool(true)]));
    assert_eq!(b.finish().render(), "{\"jsonrpc\":\"2.0\",\"id\":7,\"result\":[null,true]}");
}

#[test]
fn text_array_holds_the_texts_in_order() {
    let json = text_array(&vec!["up".to_string(), "node_cpu_seconds_total".to_string()]);
    assert_eq!(json.render(), "[\"up\",\"node_cpu_seconds_total\"]");
    assert_eq!(text_array(&Vec::new()).render(), "[]");
}

#[test]
fn render_pretty_indents_by_two_blanks() {
    let json = Json::parse("{\"a\":[1,2],\"b\":{}}").expect("valid JSON");
    assert_eq!(json.render_pretty(), "{\n  \"a\": [\n    1,\n    2\n  ],\n  \"b\": {}\n}");
    assert_eq!(text_array(&Vec::new()).render_pretty(), "[]");
}

#[test]
fn what_is_rendered_parses_to_the_same_value() {
    let text = "{\"a\":[1,{\"b\":\"c\"},null],\"d\":-2.5,\"e\":true}";
    let json = Json::parse(text).expect("valid JSON");
    let again = Json::parse(&json.render_pretty()).expect("valid JSON");
    assert_eq!(again.render(), text);
}

#[test]
fn a_builder_tells_which_members_it_has() {
    let mut b = ObjectBuilder::new();
    assert!(!b.contains("id"));
    b.put("id", Json::unsigned(1));
    assert!(b.contains("id"));
    assert!(!b.contains("ID"));
    assert!(!b.contains("result"));
}

#[test]
fn is_wf_finds_a_name_that_stands_twice_at_any_depth() {
    assert!(Json::parse("{\"a\":[{\"b\":1,\"c\":{}}]}").expect("valid JSON").is_wf());
    assert!(Json::Null.is_wf());
    let twice = Json::Object(vec![
        ("a".to_string(), Json::Null),
        ("a".to_string(), Json::Bool(true)),
    ]);
    assert!(!twice.is_wf());
    let deep = Json::Array(vec![Json::Object(vec![("x".to_string(), twice)])]);
    assert!(!deep.is_wf());
    let fine = Json::Object(vec![
        ("a".to_string(), Json::Object(vec![("a".to_string(), Json::Null)])),
        ("b".to_string(), Json::Array(vec![])),
    ]);
    assert!(fine.is_wf());
    assert_eq!(fine.render(), "{\"a\":{\"a\":null},\"b\":[]}");
}
