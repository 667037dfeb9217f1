//! One sample resource: its entry in the list, and its content.

use crate::dispatch::{Fault, FaultView};
use crate::json::{array_of, array_view, item_view, Json, JsonValue, ObjectBuilder};
use crate::names::stamp;
use crate::prompts::{invalid_params, invalid_params_fault};
use vstd::prelude::*;
use vstd::string::*;

verus! {

/// What `url::Url::parse` makes of a text: the URL in its normal form, or
/// the message of the error.
pub uninterp spec fn parsed_url(text: Seq<char>) -> Result<Seq<char>, Seq<char>>;

/// Parses an absolute URL with `url::Url::parse` and gives it back as the
/// text that the crate writes for it, or the message of the error.
#[verifier::external_body]
fn parse_url(text: &str) -> (r: Result<String, String>)
    ensures
        match r {
            Ok(url) => parsed_url(text@) == Ok::<Seq<char>, Seq<char>>(url@),
            Err(message) => parsed_url(text@) == Err::<Seq<char>, Seq<char>>(message@),
        },
{
    match url::Url::parse(text) {
        Ok(url) => Ok(String::from(url)),
        Err(e) => Err(e.to_string()),
    }
}

/// The entry of the sample resource, for its URL in normal form.
pub open spec fn resources_catalogue(uri: Seq<char>) -> JsonValue {
    JsonValue::Object(
        seq![
            (
                "resources"@,
                JsonValue::Array(
                    seq![
                        JsonValue::Object(
                            seq![
                                ("uri"@, JsonValue::Text(uri)),
                                ("name"@, JsonValue::Text("Application Logs"@)),
                                ("mimeType"@, JsonValue::Text("text/plain"@)),
                            ],
                        ),
                    ],
                ),
            ),
        ],
    )
}

/// What `resources_list` answers for what became of parsing the URL of the
/// resource.
pub open spec fn resources_list_spec(parsed: Result<Seq<char>, Seq<char>>) -> Result<
    JsonValue,
    FaultView,
> {
    match parsed {
        Ok(uri) => Ok(resources_catalogue(uri)),
        Err(message) => Err(FaultView::Handler(invalid_params("Invalid resource URI: "@ + message))),
    }
}

/// The list of the resources for the parsed URL of the one resource.
pub fn list_for(parsed: Result<String, String>) -> (r: Result<Json, Fault>)
    ensures
        (match r {
            Ok(result) => Ok(result@),
            Err(fault) => Err(fault@),
        }) == resources_list_spec(
            match parsed {
                Ok(uri) => Ok(uri@),
                Err(message) => Err(message@),
            },
        ),
        match r {
            Ok(result) => result.wf(),
            Err(Fault::Handler(payload)) => payload.wf(),
            Err(_) => true,
        },
{
    let uri = match parsed {
        Ok(uri) => uri,
        Err(message) => {
            let text = String::from_str("Invalid resource URI: ").concat(message.as_str());
            return Err(invalid_params_fault(text.as_str()));
        },
    };
    proof {
        reveal_strlit("uri");
        reveal_strlit("name");
        reveal_strlit("mimeType");
        let _ = stamp("uri"@);
        let _ = stamp("name"@);
        let _ = stamp("mimeType"@);
    }
    let mut entry = ObjectBuilder::new();
    entry.put("uri", Json::Text(uri));
    entry.put("name", Json::text("Application Logs"));
    entry.put("mimeType", Json::text("text/plain"));
    assert(entry@ =~= seq![
        ("uri"@, JsonValue::Text(uri@)),
        ("name"@, JsonValue::Text("Application Logs"@)),
        ("mimeType"@, JsonValue::Text("text/plain"@)),
    ]);
    let mut entries: Vec<Json> = Vec::new();
    entries.push(entry.finish());
    let list = array_of(entries);
    assert(array_view(entries@) =~= seq![JsonValue::Object(entry@)]) by {
        assert(array_view(entries@)[0] == item_view(entries@, 0));
    }
    let mut b = ObjectBuilder::new();
    b.put("resources", list);
    assert(b@ =~= resources_catalogue(uri@)->Object_0);
    Ok(b.finish())
}

/// The resources that there are: the log of the application.
pub fn resources_list() -> (r: Result<Json, Fault>)
    ensures
        (match r {
            Ok(result) => Ok(result@),
            Err(fault) => Err(fault@),
        }) == resources_list_spec(parsed_url("file:///logs/app.log"@)),
{
    list_for(parse_url("file:///logs/app.log"))
}

/// The parameters of `resources/read`: the URL of the resource, in its
/// normal form.
#[derive(Debug)]
pub struct ReadResourceRequest {
    pub uri: String,
}

impl ReadResourceRequest {
    /// The request for the resource at `uri`; `None` where that is no URL.
    pub fn new(uri: &str) -> (r: Option<Self>)
        ensures
            match r {
                Some(request) => parsed_url(uri@) == Ok::<Seq<char>, Seq<char>>(request.uri@),
                None => parsed_url(uri@) is Err,
            },
    {
        match parse_url(uri) {
            Ok(uri) => Some(ReadResourceRequest { uri }),
            Err(_) => None,
        }
    }
}

/// The content of the resource at `uri`: one line of a log.
pub open spec fn resource_content(uri: Seq<char>) -> JsonValue {
    JsonValue::Object(
        seq![
            (
                "content"@,
                JsonValue::Object(
                    seq![
                        ("uri"@, JsonValue::Text(uri)),
                        ("mimeType"@, JsonValue::Text("text/plain"@)),
                        (
                            "text"@,
                            JsonValue::Text(
                                "2024-11-28T08:19:18.974368Z,INFO,main,this is message"@,
                            ),
                        ),
                    ],
                ),
            ),
        ],
    )
}

/// The content of a resource.
pub fn resource_read(request: &ReadResourceRequest) -> (result: Json)
    ensures
        result@ == resource_content(request.uri@),
        result.wf(),
{
    proof {
        reveal_strlit("uri");
        reveal_strlit("mimeType");
        reveal_strlit("text");
        let _ = stamp("uri"@);
        let _ = stamp("mimeType"@);
        let _ = stamp("text"@);
    }
    let mut content = ObjectBuilder::new();
    content.put("uri", Json::Text(request.uri.clone()));
    content.put("mimeType", Json::text("text/plain"));
    content.put(
        "text",
        Json::text("2024-11-28T08:19:18.974368Z,INFO,main,this is message"),
    );
    assert(content@ =~= resource_content(request.uri@)->Object_0[0].1->Object_0);
    let mut b = ObjectBuilder::new();
    b.put("content", content.finish());
    assert(b@ =~= resource_content(request.uri@)->Object_0);
    b.finish()
}

} // verus!
