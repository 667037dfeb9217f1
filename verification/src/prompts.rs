//! Two sample prompts: their list, and the messages of one of them.

use crate::dispatch::{Fault, FaultView};
use crate::json::{array_of, array_view, item_view, Json, JsonValue, ObjectBuilder};
use crate::names::stamp;
use crate::text::{integer_text, str_eq, wrap};
use vstd::prelude::*;
use vstd::string::*;

verus! {

/// The error payload of a handler that was given wrong parameters.
pub open spec fn invalid_params(message: Seq<char>) -> JsonValue {
    JsonValue::Object(
        seq![
            ("code"@, JsonValue::Number(integer_text(-32602))),
            ("message"@, JsonValue::Text(message)),
        ],
    )
}

/// The fault of a handler that was given wrong parameters.
pub fn invalid_params_fault(message: &str) -> (fault: Fault)
    ensures
        fault@ == FaultView::Handler(invalid_params(message@)),
        fault matches Fault::Handler(payload) && payload.wf(),
{
    proof {
        reveal_strlit("code");
        reveal_strlit("message");
        let _ = stamp("code"@);
        let _ = stamp("message"@);
    }
    let mut b = ObjectBuilder::new();
    b.put("code", Json::integer(-32602));
    b.put("message", Json::text(message));
    assert(b@ =~= invalid_params(message@)->Object_0);
    Fault::Handler(b.finish())
}

/// A prompt with one argument that must be given.
pub open spec fn prompt_json(
    name: Seq<char>,
    description: Seq<char>,
    argument: Seq<char>,
    argument_description: Seq<char>,
) -> JsonValue {
    JsonValue::Object(
        seq![
            ("name"@, JsonValue::Text(name)),
            ("description"@, JsonValue::Text(description)),
            (
                "arguments"@,
                JsonValue::Array(
                    seq![
                        JsonValue::Object(
                            seq![
                                ("name"@, JsonValue::Text(argument)),
                                ("description"@, JsonValue::Text(argument_description)),
                                ("required"@, JsonValue::Bool(true)),
                            ],
                        ),
                    ],
                ),
            ),
        ],
    )
}

/// The list of the prompts.
pub open spec fn prompts_catalogue() -> JsonValue {
    JsonValue::Object(
        seq![
            (
                "prompts"@,
                JsonValue::Array(
                    seq![
                        prompt_json(
                            "current_time"@,
                            "Display current time in the city"@,
                            "city"@,
                            "city name"@,
                        ),
                        prompt_json(
                            "analyze-code"@,
                            "Analyze code for potential improvements"@,
                            "language"@,
                            "Programming language"@,
                        ),
                    ],
                ),
            ),
        ],
    )
}

/// A prompt with one argument that must be given.
fn prompt(name: &str, description: &str, argument: &str, argument_description: &str) -> (json:
    Json)
    ensures
        json@ == prompt_json(name@, description@, argument@, argument_description@),
        json.wf(),
{
    proof {
        reveal_strlit("name");
        reveal_strlit("description");
        reveal_strlit("required");
        reveal_strlit("arguments");
        let _ = stamp("name"@);
        let _ = stamp("description"@);
        let _ = stamp("required"@);
        let _ = stamp("arguments"@);
    }
    let mut a = ObjectBuilder::new();
    a.put("name", Json::text(argument));
    a.put("description", Json::text(argument_description));
    a.put("required", Json::Bool(true));
    let mut arguments: Vec<Json> = Vec::new();
    arguments.push(a.finish());
    let list = array_of(arguments);
    assert(array_view(arguments@) =~= seq![
        JsonValue::Object(
            seq![
                ("name"@, JsonValue::Text(argument@)),
                ("description"@, JsonValue::Text(argument_description@)),
                ("required"@, JsonValue::Bool(true)),
            ],
        ),
    ]) by {
        assert(array_view(arguments@)[0] == item_view(arguments@, 0));
        assert(a@ =~= seq![
            ("name"@, JsonValue::Text(argument@)),
            ("description"@, JsonValue::Text(argument_description@)),
            ("required"@, JsonValue::Bool(true)),
        ]);
    }
    let mut b = ObjectBuilder::new();
    b.put("name", Json::text(name));
    b.put("description", Json::text(description));
    b.put("arguments", list);
    assert(b@ =~= prompt_json(name@, description@, argument@, argument_description@)->Object_0);
    b.finish()
}

/// The prompts that there are.
pub fn prompts_list() -> (result: Json)
    ensures
        result@ == prompts_catalogue(),
        result.wf(),
{
    let mut prompts: Vec<Json> = Vec::new();
    prompts.push(
        prompt("current_time", "Display current time in the city", "city", "city name"),
    );
    prompts.push(
        prompt(
            "analyze-code",
            "Analyze code for potential improvements",
            "language",
            "Programming language",
        ),
    );
    let list = array_of(prompts);
    assert(array_view(prompts@) =~= prompts_catalogue()->Object_0[0].1->Array_0) by {
        assert(array_view(prompts@)[0] == item_view(prompts@, 0));
        assert(array_view(prompts@)[1] == item_view(prompts@, 1));
    }
    let mut b = ObjectBuilder::new();
    b.put("prompts", list);
    assert(b@ =~= prompts_catalogue()->Object_0);
    b.finish()
}

/// The parameters of `prompts/get`: the name of a prompt and, in an
/// object, its arguments.
#[derive(Debug)]
pub struct GetPromptRequest {
    pub name: String,
    pub arguments: Option<Json>,
}

/// The messages of the prompt `current_time` for a city.
pub open spec fn current_time_prompt(city: Seq<char>) -> JsonValue {
    JsonValue::Object(
        seq![
            ("description"@, JsonValue::Text("Get the current time in city"@)),
            (
                "messages"@,
                JsonValue::Array(
                    seq![
                        JsonValue::Object(
                            seq![
                                ("role"@, JsonValue::Text("user"@)),
                                (
                                    "content"@,
                                    JsonValue::Object(
                                        seq![
                                            ("type"@, JsonValue::Text("text"@)),
                                            (
                                                "text"@,
                                                JsonValue::Text(
                                                    "What's the time of "@ + city + "?"@,
                                                ),
                                            ),
                                        ],
                                    ),
                                ),
                            ],
                        ),
                    ],
                ),
            ),
        ],
    )
}

/// The argument `key` of a request, where it is given as a text.
pub open spec fn text_argument(arguments: Option<Json>, key: Seq<char>) -> Option<Seq<char>> {
    match arguments {
        Some(a) => a@.text_field(key),
        None => None,
    }
}

/// What `prompts/get` answers: the messages of `current_time` for the city
/// that is given; a fault where the city is missing or is no text, and
/// where any other prompt is asked for.
pub open spec fn prompts_get_spec(request: GetPromptRequest) -> Result<JsonValue, FaultView> {
    if request.name@ == "current_time"@ {
        match text_argument(request.arguments, "city"@) {
            Some(city) => Ok(current_time_prompt(city)),
            None => Err(FaultView::Handler(invalid_params("Missing required argument: city"@))),
        }
    } else {
        Err(FaultView::Handler(invalid_params("Prompt not found"@)))
    }
}

/// The messages of a prompt.
pub fn prompts_get(request: &GetPromptRequest) -> (r: Result<Json, Fault>)
    ensures
        (match r {
            Ok(result) => Ok(result@),
            Err(fault) => Err(fault@),
        }) == prompts_get_spec(*request),
        match r {
            Ok(result) => result.wf(),
            Err(Fault::Handler(payload)) => payload.wf(),
            Err(_) => true,
        },
{
    if !str_eq(request.name.as_str(), "current_time") {
        return Err(invalid_params_fault("Prompt not found"));
    }
    let city = match &request.arguments {
        Some(a) => a.get_str("city"),
        None => None,
    };
    let city = match city {
        Some(city) => city,
        None => {
            return Err(invalid_params_fault("Missing required argument: city"));
        },
    };
    proof {
        reveal_strlit("type");
        reveal_strlit("text");
        reveal_strlit("role");
        reveal_strlit("content");
        reveal_strlit("description");
        reveal_strlit("messages");
        let _ = stamp("type"@);
        let _ = stamp("text"@);
        let _ = stamp("role"@);
        let _ = stamp("content"@);
        let _ = stamp("description"@);
        let _ = stamp("messages"@);
    }
    let mut content = ObjectBuilder::new();
    content.put("type", Json::text("text"));
    content.put("text", Json::Text(wrap("What's the time of ", city, "?")));
    assert(content@ =~= seq![
        ("type"@, JsonValue::Text("text"@)),
        ("text"@, JsonValue::Text("What's the time of "@ + city@ + "?"@)),
    ]);
    let mut message = ObjectBuilder::new();
    message.put("role", Json::text("user"));
    message.put("content", content.finish());
    assert(message@ =~= seq![
        ("role"@, JsonValue::Text("user"@)),
        ("content"@, JsonValue::Object(content@)),
    ]);
    let mut messages: Vec<Json> = Vec::new();
    messages.push(message.finish());
    let list = array_of(messages);
    assert(array_view(messages@) =~= seq![JsonValue::Object(message@)]) by {
        assert(array_view(messages@)[0] == item_view(messages@, 0));
    }
    let mut b = ObjectBuilder::new();
    b.put("description", Json::text("Get the current time in city"));
    b.put("messages", list);
    assert(b@ =~= current_time_prompt(city@)->Object_0);
    Ok(b.finish())
}

} // verus!
