//! The handlers of the protocol itself: the greeting and the ping.

use crate::json::{Json, JsonValue, ObjectBuilder};
use crate::names::stamp;
use vstd::prelude::*;
use vstd::string::*;

verus! {

/// The answer to `initialize`: the version of the protocol, what the
/// server can do, which is to offer tools, and its name and version.
pub open spec fn initialize_result() -> JsonValue {
    JsonValue::Object(
        seq![
            ("protocolVersion"@, JsonValue::Text("2024-11-05"@)),
            (
                "capabilities"@,
                JsonValue::Object(seq![("tools"@, JsonValue::Object(Seq::empty()))]),
            ),
            (
                "serverInfo"@,
                JsonValue::Object(
                    seq![
                        ("name"@, JsonValue::Text("prometheus-mcp"@)),
                        ("version"@, JsonValue::Text("0.1.1"@)),
                    ],
                ),
            ),
        ],
    )
}

/// Whether a JSON value holds the parameters of `initialize`: the version
/// of the protocol that the client speaks, what the client can do, and its
/// name and version.
pub open spec fn is_initialize_request(v: JsonValue) -> bool {
    &&& v.text_field("protocolVersion"@) is Some
    &&& v.field("capabilities"@) matches Some(c) && c is Object
    &&& v.field("clientInfo"@) matches Some(info) && info.text_field("name"@) is Some
        && info.text_field("version"@) is Some
}

/// Whether a JSON value holds the parameters of `initialize`.
pub fn check_initialize_request(params: &Json) -> (ok: bool)
    ensures
        ok == is_initialize_request(params@),
{
    if params.get_str("protocolVersion").is_none() {
        return false;
    }
    match params.get("capabilities") {
        Some(c) => {
            if !c.is_object() {
                return false;
            }
        },
        None => {
            return false;
        },
    }
    match params.get("clientInfo") {
        Some(info) => info.get_str("name").is_some() && info.get_str("version").is_some(),
        None => false,
    }
}

/// handler for `initialize` request from client
pub fn initialize() -> (result: Json)
    ensures
        result@ == initialize_result(),
        result.wf(),
{
    proof {
        reveal_strlit("protocolVersion");
        reveal_strlit("capabilities");
        reveal_strlit("serverInfo");
        reveal_strlit("name");
        reveal_strlit("version");
        let _ = stamp("protocolVersion"@);
        let _ = stamp("capabilities"@);
        let _ = stamp("serverInfo"@);
        let _ = stamp("name"@);
        let _ = stamp("version"@);
    }
    let mut capabilities = ObjectBuilder::new();
    capabilities.put("tools", ObjectBuilder::new().finish());
    assert(capabilities@ =~= seq![("tools"@, JsonValue::Object(Seq::empty()))]);
    let mut info = ObjectBuilder::new();
    info.put("name", Json::text("prometheus-mcp"));
    info.put("version", Json::text("0.1.1"));
    assert(info@ =~= seq![
        ("name"@, JsonValue::Text("prometheus-mcp"@)),
        ("version"@, JsonValue::Text("0.1.1"@)),
    ]);
    let mut b = ObjectBuilder::new();
    b.put("protocolVersion", Json::text("2024-11-05"));
    b.put("capabilities", capabilities.finish());
    b.put("serverInfo", info.finish());
    assert(b@ =~= initialize_result()->Object_0);
    b.finish()
}

/// handler for `ping` request from client: an empty object
pub fn ping() -> (result: Json)
    ensures
        result@ == JsonValue::Object(Seq::empty()),
        result.wf(),
{
    ObjectBuilder::new().finish()
}

} // verus!
