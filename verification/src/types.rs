//! The typed messages of the tool protocol. The mathematical value of each
//! is the JSON value that stands for it on the wire.

use crate::json::{
    absent, array_of, array_view, distinct_keys, item_view, opt_member, text_array, Json,
    JsonValue, ObjectBuilder,
};
use crate::names::{names_distinct, stamp};
use crate::text::{decimal_digits, str_eq};
use vstd::prelude::*;
use vstd::string::*;

verus! {

/// The JSON string for an optional text.
pub open spec fn opt_text_json(text: Option<String>) -> Option<JsonValue> {
    match text {
        Some(s) => Some(JsonValue::Text(s@)),
        None => None,
    }
}

/// The JSON array of strings for a list of texts.
pub open spec fn texts_json(items: Seq<String>) -> JsonValue {
    JsonValue::Array(Seq::new(items.len(), |i: int| JsonValue::Text(items[i]@)))
}

/// One piece of what a tool hands back.
#[derive(Debug)]
pub enum CallToolResultContent {
    Text { text: String },
}

impl View for CallToolResultContent {
    type V = JsonValue;

    open spec fn view(&self) -> JsonValue {
        match self {
            CallToolResultContent::Text { text } => JsonValue::Object(
                seq![("type"@, JsonValue::Text("text"@)), ("text"@, JsonValue::Text(text@))],
            ),
        }
    }
}

impl CallToolResultContent {
    /// The JSON value that this is written as.
    pub fn to_json(&self) -> (json: Json)
        ensures
            json@ == self@,
            json.wf(),
    {
        proof {
            reveal_strlit("type");
            let _ = stamp("type"@);
            reveal_strlit("text");
            let _ = stamp("text"@);
        }
        match self {
            CallToolResultContent::Text { text } => {
                let mut b = ObjectBuilder::new();
                b.put("type", Json::text("text"));
                b.put("text", Json::Text(text.clone()));
                assert(b@ =~= seq![
                    ("type"@, JsonValue::Text("text"@)),
                    ("text"@, JsonValue::Text(text@)),
                ]);
                b.finish()
            },
        }
    }
}

/// What a tool hands back: its content, and whether it reports a failure.
#[derive(Debug)]
pub struct CallToolResult {
    pub content: Vec<CallToolResultContent>,
    pub is_error: bool,
}

impl View for CallToolResult {
    type V = JsonValue;

    open spec fn view(&self) -> JsonValue {
        JsonValue::Object(
            seq![
                (
                    "content"@,
                    JsonValue::Array(Seq::new(self.content@.len(), |i: int| self.content@[i]@)),
                ),
                ("isError"@, JsonValue::Bool(self.is_error)),
            ],
        )
    }
}

/// The result with one piece of text.
pub open spec fn text_result(text: Seq<char>, is_error: bool) -> JsonValue {
    JsonValue::Object(
        seq![
            (
                "content"@,
                JsonValue::Array(
                    seq![
                        JsonValue::Object(
                            seq![("type"@, JsonValue::Text("text"@)), ("text"@, JsonValue::Text(text))],
                        ),
                    ],
                ),
            ),
            ("isError"@, JsonValue::Bool(is_error)),
        ],
    )
}

impl CallToolResult {
    /// The result that holds `text` alone.
    pub fn of_text(text: String, is_error: bool) -> (r: Self)
        ensures
            r@ == text_result(text@, is_error),
            r.content@.len() == 1,
            r.content@[0] == (CallToolResultContent::Text { text }),
            r.is_error == is_error,
    {
        let mut content: Vec<CallToolResultContent> = Vec::new();
        content.push(CallToolResultContent::Text { text });
        let r = CallToolResult { content, is_error };
        assert(Seq::new(r.content@.len(), |i: int| r.content@[i]@) =~= seq![r.content@[0]@]);
        r
    }

    /// The JSON value that this is written as.
    pub fn to_json(&self) -> (json: Json)
        ensures
            json@ == self@,
            json.wf(),
    {
        proof {
            reveal_strlit("content");
            let _ = stamp("content"@);
            reveal_strlit("isError");
            let _ = stamp("isError"@);
        }
        let mut items: Vec<Json> = Vec::new();
        let mut i: usize = 0;
        while i < self.content.len()
            invariant
                i <= self.content.len(),
                items.len() == i,
                forall|j: int| 0 <= j < i ==> (#[trigger] items[j])@ == self.content@[j]@,
                forall|j: int| 0 <= j < i ==> (#[trigger] items[j]).wf(),
            decreases self.content.len() - i,
        {
            items.push(self.content[i].to_json());
            i = i + 1;
        }
        let content = array_of(items);
        assert(array_view(items@) =~= Seq::new(self.content@.len(), |i: int| self.content@[i]@))
            by {
            assert forall|i: int| 0 <= i < items@.len() implies array_view(items@)[i]
                == self.content@[i]@ by {
                assert(array_view(items@)[i] == item_view(items@, i));
            }
        }
        let mut b = ObjectBuilder::new();
        b.put("content", content);
        b.put("isError", Json::Bool(self.is_error));
        assert(b@ =~= self@->Object_0);
        b.finish()
    }
}

/// The schema of one parameter of a tool.
#[derive(Debug)]
pub struct ToolInputSchemaProperty {
    pub kind: Option<String>,
    pub enum_values: Option<Vec<String>>,
    pub description: Option<String>,
    pub items: Option<Box<ToolInputSchemaProperty>>,
    pub min_items: Option<u64>,
}

/// The JSON schema that a property stands for. What is not set is left out.
pub open spec fn property_json(p: ToolInputSchemaProperty) -> JsonValue
    decreases p,
{
    JsonValue::Object(
        opt_member("type"@, opt_text_json(p.kind)) + opt_member(
            "enum"@,
            match p.enum_values {
                Some(values) => Some(texts_json(values@)),
                None => None,
            },
        ) + opt_member("description"@, opt_text_json(p.description)) + opt_member(
            "items"@,
            match p.items {
                Some(inner) => Some(property_json(*inner)),
                None => None,
            },
        ) + opt_member(
            "minItems"@,
            match p.min_items {
                Some(n) => Some(JsonValue::Number(decimal_digits(n as nat))),
                None => None,
            },
        ),
    )
}

impl View for ToolInputSchemaProperty {
    type V = JsonValue;

    open spec fn view(&self) -> JsonValue {
        property_json(*self)
    }
}

impl ToolInputSchemaProperty {
    /// The JSON value that this is written as.
    pub fn to_json(&self) -> (json: Json)
        ensures
            json@ == self@,
            json.wf(),
        decreases self,
    {
        proof {
            reveal_strlit("type");
            let _ = stamp("type"@);
            reveal_strlit("enum");
            let _ = stamp("enum"@);
            reveal_strlit("description");
            let _ = stamp("description"@);
            reveal_strlit("items");
            let _ = stamp("items"@);
            reveal_strlit("minItems");
            let _ = stamp("minItems"@);
        }
        let mut b = ObjectBuilder::new();
        let kind = match &self.kind {
            Some(s) => Some(Json::Text(s.clone())),
            None => None,
        };
        b.put_opt("type", kind);
        let enum_values = match &self.enum_values {
            Some(values) => Some(text_array(values)),
            None => None,
        };
        b.put_opt("enum", enum_values);
        let description = match &self.description {
            Some(s) => Some(Json::Text(s.clone())),
            None => None,
        };
        b.put_opt("description", description);
        let items = match &self.items {
            Some(inner) => Some(inner.to_json()),
            None => None,
        };
        b.put_opt("items", items);
        let min_items = match self.min_items {
            Some(n) => Some(Json::unsigned(n)),
            None => None,
        };
        b.put_opt("minItems", min_items);
        b.finish()
    }
}

/// The schema of the parameters of a tool: an object with named properties.
#[derive(Debug)]
pub struct ToolInputSchema {
    pub kind: String,
    pub properties: Vec<(String, ToolInputSchemaProperty)>,
    pub required: Vec<String>,
    pub additional_properties: Option<bool>,
}

/// The JSON members for a list of named properties.
pub open spec fn properties_json(properties: Seq<(String, ToolInputSchemaProperty)>) -> Seq<
    (Seq<char>, JsonValue),
> {
    Seq::new(properties.len(), |i: int| (properties[i].0@, properties[i].1@))
}

impl View for ToolInputSchema {
    type V = JsonValue;

    open spec fn view(&self) -> JsonValue {
        JsonValue::Object(
            seq![
                ("type"@, JsonValue::Text(self.kind@)),
                ("properties"@, JsonValue::Object(properties_json(self.properties@))),
                ("required"@, texts_json(self.required@)),
            ] + opt_member(
                "additionalProperties"@,
                match self.additional_properties {
                    Some(b) => Some(JsonValue::Bool(b)),
                    None => None,
                },
            ),
        )
    }
}

impl ToolInputSchema {
    /// Whether no two properties have the same name.
    pub open spec fn wf(&self) -> bool {
        distinct_keys(properties_json(self.properties@))
    }

    /// Tells whether no two properties have the same name.
    pub fn is_wf(&self) -> (r: bool)
        ensures
            r == self.wf(),
    {
        let r = names_distinct(&self.properties);
        proof {
            let views = properties_json(self.properties@);
            if r {
                assert forall|i: int, j: int| 0 <= i < j < views.len() implies (
                #[trigger] views[i]).0 != (#[trigger] views[j]).0 by {
                    assert(self.properties@[i].0@ != self.properties@[j].0@);
                }
            } else if distinct_keys(views) {
                assert forall|i: int, j: int| 0 <= i < j < self.properties@.len() implies (
                #[trigger] self.properties@[i]).0@ != (#[trigger] self.properties@[j]).0@ by {
                    assert(views[i].0 != views[j].0);
                }
            }
        }
        r
    }

    /// The property named `name`: the first of that name.
    pub fn property(&self, name: &str) -> (r: Option<&ToolInputSchemaProperty>)
        ensures
            match r {
                Some(p) => exists|i: int|
                    0 <= i < self.properties@.len() && (#[trigger] self.properties@[i]).0@ == name@
                        && self.properties@[i].1 == *p && forall|j: int|
                        0 <= j < i ==> (#[trigger] self.properties@[j]).0@ != name@,
                None => forall|i: int|
                    0 <= i < self.properties@.len() ==> (#[trigger] self.properties@[i]).0@
                        != name@,
            },
    {
        let mut i: usize = 0;
        while i < self.properties.len()
            invariant
                i <= self.properties.len(),
                forall|j: int| 0 <= j < i ==> (#[trigger] self.properties@[j]).0@ != name@,
            decreases self.properties.len() - i,
        {
            if str_eq(self.properties[i].0.as_str(), name) {
                return Some(&self.properties[i].1);
            }
            i = i + 1;
        }
        None
    }

    /// The JSON value that this is written as.
    pub fn to_json(&self) -> (json: Json)
        requires
            self.wf(),
        ensures
            json@ == self@,
            json.wf(),
    {
        proof {
            reveal_strlit("type");
            let _ = stamp("type"@);
            reveal_strlit("properties");
            let _ = stamp("properties"@);
            reveal_strlit("required");
            let _ = stamp("required"@);
            reveal_strlit("additionalProperties");
            let _ = stamp("additionalProperties"@);
        }
        let mut props = ObjectBuilder::new();
        let mut i: usize = 0;
        while i < self.properties.len()
            invariant
                i <= self.properties.len(),
                self.wf(),
                props.wf(),
                props@ == properties_json(self.properties@).take(i as int),
            decreases self.properties.len() - i,
        {
            let ghost all = properties_json(self.properties@);
            assert(absent(props@, self.properties@[i as int].0@)) by {
                assert forall|j: int| 0 <= j < props@.len() implies (#[trigger] props@[j]).0
                    != self.properties@[i as int].0@ by {
                    assert(props@[j] == all[j]);
                    assert(all[j].0 != all[i as int].0);
                }
            }
            props.put(self.properties[i].0.as_str(), self.properties[i].1.to_json());
            assert(props@ =~= all.take(i + 1));
            i = i + 1;
        }
        assert(props@ =~= properties_json(self.properties@));
        let mut b = ObjectBuilder::new();
        b.put("type", Json::Text(self.kind.clone()));
        b.put("properties", props.finish());
        b.put("required", text_array(&self.required));
        let additional = match self.additional_properties {
            Some(flag) => Some(Json::Bool(flag)),
            None => None,
        };
        b.put_opt("additionalProperties", additional);
        assert(b@ =~= self@->Object_0);
        b.finish()
    }
}

/// A tool as `tools/list` describes it. The schema of its parameters stands
/// under `inputSchema` and, for clients that look there, under `parameters`.
#[derive(Debug)]
pub struct Tool {
    pub name: String,
    pub description: Option<String>,
    pub input_schema: ToolInputSchema,
    pub parameters: Option<ToolInputSchema>,
}

impl View for Tool {
    type V = JsonValue;

    open spec fn view(&self) -> JsonValue {
        JsonValue::Object(
            seq![("name"@, JsonValue::Text(self.name@))] + opt_member(
                "description"@,
                opt_text_json(self.description),
            ) + seq![("inputSchema"@, self.input_schema@)] + opt_member(
                "parameters"@,
                match self.parameters {
                    Some(schema) => Some(schema@),
                    None => None,
                },
            ),
        )
    }
}

impl Tool {
    /// Whether its schemas are well formed.
    pub open spec fn wf(&self) -> bool {
        &&& self.input_schema.wf()
        &&& self.parameters matches Some(schema) ==> schema.wf()
    }

    /// Tells whether its schemas are well formed.
    pub fn is_wf(&self) -> (r: bool)
        ensures
            r == self.wf(),
    {
        self.input_schema.is_wf() && match &self.parameters {
            Some(schema) => schema.is_wf(),
            None => true,
        }
    }

    /// The JSON value that this is written as.
    pub fn to_json(&self) -> (json: Json)
        requires
            self.wf(),
        ensures
            json@ == self@,
            json.wf(),
    {
        proof {
            reveal_strlit("name");
            let _ = stamp("name"@);
            reveal_strlit("description");
            let _ = stamp("description"@);
            reveal_strlit("inputSchema");
            let _ = stamp("inputSchema"@);
            reveal_strlit("parameters");
            let _ = stamp("parameters"@);
        }
        let mut b = ObjectBuilder::new();
        b.put("name", Json::Text(self.name.clone()));
        let description = match &self.description {
            Some(s) => Some(Json::Text(s.clone())),
            None => None,
        };
        b.put_opt("description", description);
        b.put("inputSchema", self.input_schema.to_json());
        let parameters = match &self.parameters {
            Some(schema) => Some(schema.to_json()),
            None => None,
        };
        b.put_opt("parameters", parameters);
        assert(b@ =~= self@->Object_0);
        b.finish()
    }
}

/// The answer to `tools/list`.
#[derive(Debug)]
pub struct ListToolsResult {
    pub tools: Vec<Tool>,
    pub next_cursor: Option<String>,
}

impl View for ListToolsResult {
    type V = JsonValue;

    open spec fn view(&self) -> JsonValue {
        JsonValue::Object(
            seq![
                ("tools"@, JsonValue::Array(Seq::new(self.tools@.len(), |i: int| self.tools@[i]@))),
            ] + opt_member("nextCursor"@, opt_text_json(self.next_cursor)),
        )
    }
}

impl ListToolsResult {
    /// Whether the schemas of all its tools are well formed.
    pub open spec fn wf(&self) -> bool {
        forall|i: int| 0 <= i < self.tools@.len() ==> (#[trigger] self.tools@[i]).wf()
    }

    /// Tells whether the schemas of all its tools are well formed.
    pub fn is_wf(&self) -> (r: bool)
        ensures
            r == self.wf(),
    {
        let mut i: usize = 0;
        while i < self.tools.len()
            invariant
                i <= self.tools.len(),
                forall|j: int| 0 <= j < i ==> (#[trigger] self.tools@[j]).wf(),
            decreases self.tools.len() - i,
        {
            if !self.tools[i].is_wf() {
                return false;
            }
            i = i + 1;
        }
        true
    }

    /// The JSON value that this is written as.
    pub fn to_json(&self) -> (json: Json)
        requires
            self.wf(),
        ensures
            json@ == self@,
            json.wf(),
    {
        proof {
            reveal_strlit("tools");
            let _ = stamp("tools"@);
            reveal_strlit("nextCursor");
            let _ = stamp("nextCursor"@);
        }
        let mut items: Vec<Json> = Vec::new();
        let mut i: usize = 0;
        while i < self.tools.len()
            invariant
                i <= self.tools.len(),
                self.wf(),
                items.len() == i,
                forall|j: int| 0 <= j < i ==> (#[trigger] items[j])@ == self.tools@[j]@,
                forall|j: int| 0 <= j < i ==> (#[trigger] items[j]).wf(),
            decreases self.tools.len() - i,
        {
            items.push(self.tools[i].to_json());
            i = i + 1;
        }
        let tools = array_of(items);
        assert(array_view(items@) =~= Seq::new(self.tools@.len(), |i: int| self.tools@[i]@)) by {
            assert forall|i: int| 0 <= i < items@.len() implies array_view(items@)[i]
                == self.tools@[i]@ by {
                assert(array_view(items@)[i] == item_view(items@, i));
            }
        }
        let mut b = ObjectBuilder::new();
        b.put("tools", tools);
        let cursor = match &self.next_cursor {
            Some(s) => Some(Json::Text(s.clone())),
            None => None,
        };
        b.put_opt("nextCursor", cursor);
        assert(b@ =~= self@->Object_0);
        b.finish()
    }
}

} // verus!
