//! JSON values as the library sees them.
//!
//! [`Json`] is a plain tree that verified code can read and build. Text is
//! turned into a tree, and a tree into text, by `serde_json`; the functions
//! that call it are the trusted edge of this module.

use crate::names::{
    distinct_names, first_at, lemma_lookup_at, lemma_lookup_none, lookup, names_distinct,
};
use crate::text::{decimal_digits, integer_text, str_eq};
use vstd::prelude::*;
use vstd::string::*;

verus! {

/// A number of `serde_json`. It is carried through as it is; all that is
/// said of it is the text that it is written as.
#[verifier::external_type_specification]
#[verifier::external_body]
pub struct ExJsonNumber(serde_json::Number);

/// A value of `serde_json`, as its parser makes it and its writer takes
/// it.
#[verifier::external_type_specification]
#[verifier::external_body]
pub struct ExJsonDocument(serde_json::Value);

/// A JSON value. An object keeps its members in the order in which they
/// were written.
#[derive(Debug)]
pub enum Json {
    Null,
    Bool(bool),
    Number(serde_json::Number),
    Text(String),
    Array(Vec<Json>),
    Object(Vec<(String, Json)>),
}

/// The mathematical value of a [`Json`]: a number is its decimal text.
pub ghost enum JsonValue {
    Null,
    Bool(bool),
    Number(Seq<char>),
    Text(Seq<char>),
    Array(Seq<JsonValue>),
    Object(Seq<(Seq<char>, JsonValue)>),
}

/// The text that `serde_json` writes for a number.
pub uninterp spec fn number_text(n: serde_json::Number) -> Seq<char>;

/// The tree that a `serde_json::Value` holds, members in their order.
pub uninterp spec fn json_tree(v: serde_json::Value) -> JsonValue;

/// What `serde_json::from_str` makes of a text: the tree, or `None` where
/// the text is not one JSON value.
pub uninterp spec fn json_parse(text: Seq<char>) -> Option<JsonValue>;

/// The compact text that `serde_json::to_string` writes for a tree.
pub uninterp spec fn json_text(v: JsonValue) -> Seq<char>;

/// The indented text that `serde_json::to_string_pretty` writes for a tree.
pub uninterp spec fn json_pretty(v: JsonValue) -> Seq<char>;

/// The text of the floating-point number nearest to the number with the
/// given text, as `serde_json` writes it; `None` where `serde_json` has no
/// floating-point number for it.
pub uninterp spec fn real_text(text: Seq<char>) -> Option<Seq<char>>;

/// The text of a number that is read as a floating-point number. A number
/// that `serde_json` has no floating-point number for stays as it is.
pub open spec fn as_real_text(text: Seq<char>) -> Seq<char> {
    match real_text(text) {
        Some(read) => read,
        None => text,
    }
}

/// The view of the item at `i`.
pub open spec fn item_view(items: Seq<Json>, i: int) -> JsonValue
    decreases items, 0nat,
{
    if 0 <= i < items.len() {
        items[i].view()
    } else {
        JsonValue::Null
    }
}

/// The view of the member at `i`.
pub open spec fn member_view(fields: Seq<(String, Json)>, i: int) -> (Seq<char>, JsonValue)
    decreases fields, 0nat,
{
    if 0 <= i < fields.len() {
        (fields[i].0@, fields[i].1.view())
    } else {
        (Seq::empty(), JsonValue::Null)
    }
}

/// The views of a sequence of values.
pub open spec fn array_view(items: Seq<Json>) -> Seq<JsonValue>
    decreases items, 1nat,
{
    Seq::new(items.len(), |i: int| item_view(items, i))
}

/// The views of the members of an object.
pub open spec fn object_view(fields: Seq<(String, Json)>) -> Seq<(Seq<char>, JsonValue)>
    decreases fields, 1nat,
{
    Seq::new(fields.len(), |i: int| member_view(fields, i))
}

/// Whether no member of `fields` is named `key`.
pub open spec fn absent(fields: Seq<(Seq<char>, JsonValue)>, key: Seq<char>) -> bool {
    forall|i: int| 0 <= i < fields.len() ==> (#[trigger] fields[i]).0 != key
}

/// The member `key` where there is a value for it, and no member otherwise.
pub open spec fn opt_member(key: Seq<char>, value: Option<JsonValue>) -> Seq<
    (Seq<char>, JsonValue),
> {
    match value {
        Some(v) => seq![(key, v)],
        None => Seq::empty(),
    }
}

/// The view of an optional value.
pub open spec fn opt_view(value: Option<Json>) -> Option<JsonValue> {
    match value {
        Some(v) => Some(v@),
        None => None,
    }
}

/// Whether the members are well formed and no two have the same name.
pub open spec fn members_wf(fields: Seq<(Seq<char>, JsonValue)>) -> bool {
    distinct_keys(fields) && forall|i: int| 0 <= i < fields.len() ==> (#[trigger] fields[i]).1.wf()
}

/// Whether no two of `fields` have the same name.
pub open spec fn distinct_keys(fields: Seq<(Seq<char>, JsonValue)>) -> bool {
    forall|i: int, j: int|
        0 <= i < j < fields.len() ==> #[trigger] fields[i].0 != #[trigger] fields[j].0
}

impl JsonValue {
    /// Whether no object inside this value names a member twice. Values that
    /// come from a JSON text are so, and only such values have a text.
    pub open spec fn wf(self) -> bool
        decreases self,
    {
        match self {
            JsonValue::Array(items) => forall|i: int|
                0 <= i < items.len() ==> (#[trigger] items[i]).wf(),
            JsonValue::Object(fields) => distinct_keys(fields) && forall|i: int|
                0 <= i < fields.len() ==> (#[trigger] fields[i]).1.wf(),
            _ => true,
        }
    }

    /// The member `key` of an object; `None` for any other value and for an
    /// object without that member.
    pub open spec fn field(self, key: Seq<char>) -> Option<JsonValue> {
        match self {
            JsonValue::Object(fields) => lookup(fields, key),
            _ => None,
        }
    }

    /// The text of a string value.
    pub open spec fn text(self) -> Option<Seq<char>> {
        match self {
            JsonValue::Text(s) => Some(s),
            _ => None,
        }
    }

    /// The text member `key` of an object, where it is there and a string.
    pub open spec fn text_field(self, key: Seq<char>) -> Option<Seq<char>> {
        match self.field(key) {
            Some(v) => v.text(),
            None => None,
        }
    }
}

impl View for Json {
    type V = JsonValue;

    open spec fn view(&self) -> JsonValue
        decreases self, 2nat,
    {
        match self {
            Json::Null => JsonValue::Null,
            Json::Bool(b) => JsonValue::Bool(*b),
            Json::Number(n) => JsonValue::Number(number_text(*n)),
            Json::Text(s) => JsonValue::Text(s@),
            Json::Array(items) => JsonValue::Array(array_view(items@)),
            Json::Object(fields) => JsonValue::Object(object_view(fields@)),
        }
    }
}

/// A member of a well-formed object is well formed.
pub proof fn lemma_field_wf(v: JsonValue, key: Seq<char>)
    requires
        v.wf(),
        v.field(key) is Some,
    ensures
        v.field(key)->0.wf(),
{
    let fields = v->Object_0;
    let i = choose|i: int| first_at(fields, key, i);
    assert(fields[i].1.wf());
}

/// Copies a number. `serde_json::Number` is plain data and its `clone`
/// returns an equal number.
#[verifier::external_body]
pub(crate) fn number_clone(n: &serde_json::Number) -> (r: serde_json::Number)
    ensures
        r == *n,
{
    n.clone()
}

/// Makes a number of an unsigned integer with `serde_json::Number::from`,
/// which keeps it as an integer and writes it in plain decimal digits.
#[verifier::external_body]
fn number_from_u64(n: u64) -> (r: serde_json::Number)
    ensures
        number_text(r) == decimal_digits(n as nat),
{
    serde_json::Number::from(n)
}

/// Makes a number of a signed integer with `serde_json::Number::from`,
/// which keeps it as an integer and writes it in plain decimal digits,
/// after a `-` where it is negative.
#[verifier::external_body]
fn number_from_i64(n: i64) -> (r: serde_json::Number)
    ensures
        number_text(r) == integer_text(n as int),
{
    serde_json::Number::from(n)
}

/// Reads a number as a floating-point number with `Number::as_f64` and
/// makes a number of that again with `Number::from_f64`: what a field of
/// floating-point type keeps of a JSON number. The two calls stand in one
/// wrapper because what passes between them is a floating-point number.
#[verifier::external_body]
fn number_to_real(n: &serde_json::Number) -> (r: Option<serde_json::Number>)
    ensures
        match r {
            Some(read) => real_text(number_text(*n)) == Some(number_text(read)),
            None => real_text(number_text(*n)) is None,
        },
{
    n.as_f64().and_then(serde_json::Number::from_f64)
}

/// The number that a field of floating-point type keeps of a number.
pub(crate) fn number_as_real(n: &serde_json::Number) -> (r: serde_json::Number)
    ensures
        number_text(r) == as_real_text(number_text(*n)),
{
    match number_to_real(n) {
        Some(read) => read,
        None => number_clone(n),
    }
}

/// Parses a text with `serde_json::from_str`, which accepts exactly one
/// JSON value with blanks around it and fails on anything else.
#[verifier::external_body]
fn document_from_str(text: &str) -> (r: Option<serde_json::Value>)
    ensures
        match r {
            Some(v) => json_parse(text@) == Some(json_tree(v)),
            None => json_parse(text@) is None,
        },
{
    serde_json::from_str::<serde_json::Value>(text).ok()
}

/// The trees that a list of values holds.
pub open spec fn trees(items: Seq<&serde_json::Value>) -> Seq<JsonValue> {
    Seq::new(items.len(), |i: int| json_tree(*items[i]))
}

/// The trees that a list of named values holds.
pub open spec fn named_trees(members: Seq<(String, &serde_json::Value)>) -> Seq<
    (Seq<char>, JsonValue),
> {
    Seq::new(members.len(), |i: int| (members[i].0@, json_tree(*members[i].1)))
}

/// The trees of a list of values that are owned.
pub open spec fn owned_trees(items: Seq<serde_json::Value>) -> Seq<JsonValue> {
    Seq::new(items.len(), |i: int| json_tree(items[i]))
}

/// The trees of a list of named values that are owned.
pub open spec fn owned_named_trees(members: Seq<(String, serde_json::Value)>) -> Seq<
    (Seq<char>, JsonValue),
> {
    Seq::new(members.len(), |i: int| (members[i].0@, json_tree(members[i].1)))
}

/// `Value::is_null`: whether the value is `null`.
#[verifier::external_body]
fn document_is_null(v: &serde_json::Value) -> (r: bool)
    ensures
        r == (json_tree(*v) is Null),
{
    v.is_null()
}

/// `Value::as_bool`: the truth value that the value is, if it is one.
#[verifier::external_body]
fn document_as_bool(v: &serde_json::Value) -> (r: Option<bool>)
    ensures
        match r {
            Some(b) => json_tree(*v) == JsonValue::Bool(b),
            None => !(json_tree(*v) is Bool),
        },
{
    v.as_bool()
}

/// `Value::as_number`: the number that the value is, if it is one.
#[verifier::external_body]
fn document_as_number(v: &serde_json::Value) -> (r: Option<serde_json::Number>)
    ensures
        match r {
            Some(n) => json_tree(*v) == JsonValue::Number(number_text(n)),
            None => !(json_tree(*v) is Number),
        },
{
    v.as_number().cloned()
}

/// `Value::as_str`: the text that the value is, if it is one.
#[verifier::external_body]
fn document_as_text(v: &serde_json::Value) -> (r: Option<String>)
    ensures
        match r {
            Some(s) => json_tree(*v) == JsonValue::Text(s@),
            None => !(json_tree(*v) is Text),
        },
{
    v.as_str().map(String::from)
}

/// `Value::as_array`: the items of the value, in their order, if it is an
/// array.
#[verifier::external_body]
fn document_as_items(v: &serde_json::Value) -> (r: Option<Vec<&serde_json::Value>>)
    ensures
        match r {
            Some(items) => json_tree(*v) == JsonValue::Array(trees(items@)),
            None => !(json_tree(*v) is Array),
        },
{
    v.as_array().map(|items| items.iter().collect())
}

/// `Value::as_object`: the members of the value, in their order, if it is
/// an object. An object of `serde_json` holds each name once, and with its
/// feature `preserve_order` it keeps the order in which they were put.
#[verifier::external_body]
fn document_as_members(v: &serde_json::Value) -> (r: Option<Vec<(String, &serde_json::Value)>>)
    ensures
        match r {
            Some(members) => json_tree(*v) == JsonValue::Object(named_trees(members@))
                && distinct_names(members@),
            None => !(json_tree(*v) is Object),
        },
{
    v.as_object().map(|members| members.iter().map(|(k, v)| (k.clone(), v)).collect())
}

/// The value `null` of `serde_json`.
#[verifier::external_body]
fn document_null() -> (v: serde_json::Value)
    ensures
        json_tree(v) == JsonValue::Null,
{
    serde_json::Value::Null
}

/// The truth value `b` as a value of `serde_json`.
#[verifier::external_body]
fn document_bool(b: bool) -> (v: serde_json::Value)
    ensures
        json_tree(v) == JsonValue::Bool(b),
{
    serde_json::Value::Bool(b)
}

/// The number `n` as a value of `serde_json`.
#[verifier::external_body]
fn document_number(n: serde_json::Number) -> (v: serde_json::Value)
    ensures
        json_tree(v) == JsonValue::Number(number_text(n)),
{
    serde_json::Value::Number(n)
}

/// The text `s` as a value of `serde_json`.
#[verifier::external_body]
fn document_text(s: String) -> (v: serde_json::Value)
    ensures
        json_tree(v) == JsonValue::Text(s@),
{
    serde_json::Value::String(s)
}

/// The array of the given items as a value of `serde_json`.
#[verifier::external_body]
fn document_array(items: Vec<serde_json::Value>) -> (v: serde_json::Value)
    ensures
        json_tree(v) == JsonValue::Array(owned_trees(items@)),
{
    serde_json::Value::Array(items)
}

/// The object of the given members as a value of `serde_json`, which
/// collects them into its map. With every name standing once, no member is
/// lost, and with the feature `preserve_order` the map keeps their order.
#[verifier::external_body]
fn document_object(members: Vec<(String, serde_json::Value)>) -> (v: serde_json::Value)
    requires
        distinct_names(members@),
    ensures
        json_tree(v) == JsonValue::Object(owned_named_trees(members@)),
{
    serde_json::Value::Object(members.into_iter().collect())
}

/// Copies a `serde_json::Value` into a [`Json`]. What comes of it is well
/// formed.
fn json_of_document(v: &serde_json::Value) -> (json: Json)
    ensures
        json@ == json_tree(*v),
        json@.wf(),
    decreases json_tree(*v),
{
    if document_is_null(v) {
        return Json::Null;
    }
    match document_as_bool(v) {
        Some(b) => {
            return Json::Bool(b);
        },
        None => {},
    }
    match document_as_number(v) {
        Some(n) => {
            return Json::Number(n);
        },
        None => {},
    }
    match document_as_text(v) {
        Some(s) => {
            return Json::Text(s);
        },
        None => {},
    }
    match document_as_items(v) {
        Some(items) => {
            let ghost whole = json_tree(*v);
            let mut out: Vec<Json> = Vec::new();
            let mut i: usize = 0;
            while i < items.len()
                invariant
                    i <= items.len(),
                    whole == json_tree(*v),
                    whole == JsonValue::Array(trees(items@)),
                    out.len() == i,
                    forall|j: int| 0 <= j < i ==> (#[trigger] out@[j])@ == json_tree(*items@[j]),
                    forall|j: int| 0 <= j < i ==> (#[trigger] out@[j]).wf(),
                decreases items.len() - i,
            {
                proof {
                    assert(whole->Array_0[i as int] == json_tree(*items@[i as int]));
                    assert(decreases_to!(whole => json_tree(*items@[i as int])));
                }
                out.push(json_of_document(items[i]));
                i = i + 1;
            }
            let json = Json::Array(out);
            proof {
                assert forall|j: int| 0 <= j < out@.len() implies #[trigger] array_view(out@)[j]
                    == trees(items@)[j] by {
                    assert(array_view(out@)[j] == item_view(out@, j));
                }
                assert(array_view(out@) =~= trees(items@));
                assert forall|j: int| 0 <= j < array_view(out@).len() implies (
                #[trigger] array_view(out@)[j]).wf() by {
                    assert(array_view(out@)[j] == item_view(out@, j));
                }
            }
            return json;
        },
        None => {},
    }
    match document_as_members(v) {
        Some(members) => {
            let ghost whole = json_tree(*v);
            let mut out: Vec<(String, Json)> = Vec::new();
            let mut i: usize = 0;
            while i < members.len()
                invariant
                    i <= members.len(),
                    whole == json_tree(*v),
                    whole == JsonValue::Object(named_trees(members@)),
                    out.len() == i,
                    forall|j: int|
                        0 <= j < i ==> (#[trigger] out@[j]).0@ == members@[j].0@ && out@[j].1@
                            == json_tree(*members@[j].1),
                    forall|j: int| 0 <= j < i ==> (#[trigger] out@[j]).1.wf(),
                decreases members.len() - i,
            {
                proof {
                    assert(whole->Object_0[i as int].1 == json_tree(*members@[i as int].1));
                    assert(decreases_to!(whole => json_tree(*members@[i as int].1)));
                }
                out.push((members[i].0.clone(), json_of_document(members[i].1)));
                i = i + 1;
            }
            let json = Json::Object(out);
            proof {
                let views = object_view(out@);
                assert forall|j: int| 0 <= j < out@.len() implies #[trigger] views[j]
                    == named_trees(members@)[j] by {
                    assert(views[j] == member_view(out@, j));
                }
                assert(views =~= named_trees(members@));
                assert forall|a: int, b: int| 0 <= a < b < views.len() implies (
                #[trigger] views[a]).0 != (#[trigger] views[b]).0 by {
                    assert(members@[a].0@ != members@[b].0@);
                }
                assert forall|j: int| 0 <= j < views.len() implies (#[trigger] views[j]).1.wf() by {
                    assert(views[j] == member_view(out@, j));
                }
            }
            return json;
        },
        None => {},
    }
    Json::Null
}

/// Copies a [`Json`] that is well formed into a `serde_json::Value`.
fn document_of_json(json: &Json) -> (v: serde_json::Value)
    requires
        json@.wf(),
    ensures
        json_tree(v) == json@,
    decreases json,
{
    match json {
        Json::Null => document_null(),
        Json::Bool(b) => document_bool(*b),
        Json::Number(n) => document_number(number_clone(n)),
        Json::Text(s) => document_text(s.clone()),
        Json::Array(items) => {
            let mut out: Vec<serde_json::Value> = Vec::new();
            let mut i: usize = 0;
            while i < items.len()
                invariant
                    i <= items.len(),
                    json matches Json::Array(v) && v == items,
                    json@.wf(),
                    out.len() == i,
                    forall|j: int| 0 <= j < i ==> json_tree(#[trigger] out@[j]) == items@[j]@,
                decreases items.len() - i,
            {
                proof {
                    assert(array_view(items@)[i as int] == item_view(items@, i as int));
                    assert(json@->Array_0[i as int].wf());
                }
                out.push(document_of_json(&items[i]));
                i = i + 1;
            }
            proof {
                assert forall|j: int| 0 <= j < out@.len() implies #[trigger] owned_trees(out@)[j]
                    == array_view(items@)[j] by {
                    assert(array_view(items@)[j] == item_view(items@, j));
                }
                assert(owned_trees(out@) =~= array_view(items@));
            }
            document_array(out)
        },
        Json::Object(fields) => {
            let ghost views = object_view(fields@);
            let mut out: Vec<(String, serde_json::Value)> = Vec::new();
            let mut i: usize = 0;
            while i < fields.len()
                invariant
                    i <= fields.len(),
                    json matches Json::Object(v) && v == fields,
                    json@.wf(),
                    views == object_view(fields@),
                    out.len() == i,
                    forall|j: int|
                        0 <= j < i ==> (#[trigger] out@[j]).0@ == fields@[j].0@ && json_tree(
                            out@[j].1,
                        ) == fields@[j].1@,
                decreases fields.len() - i,
            {
                proof {
                    assert(views[i as int] == member_view(fields@, i as int));
                    assert(json@->Object_0[i as int].1.wf());
                }
                out.push((fields[i].0.clone(), document_of_json(&fields[i].1)));
                i = i + 1;
            }
            proof {
                assert forall|j: int| 0 <= j < out@.len() implies #[trigger] owned_named_trees(
                    out@,
                )[j] == views[j] by {
                    assert(views[j] == member_view(fields@, j));
                }
                assert(owned_named_trees(out@) =~= views);
                assert forall|a: int, b: int| 0 <= a < b < out@.len() implies (#[trigger] out@[a]).0@
                    != (#[trigger] out@[b]).0@ by {
                    assert(views[a] == member_view(fields@, a));
                    assert(views[b] == member_view(fields@, b));
                    assert(json@->Object_0[a].0 != json@->Object_0[b].0);
                }
            }
            document_object(out)
        },
    }
}

/// Writes a value on one line with `serde_json::to_string`, which cannot
/// fail for a `serde_json::Value`.
#[verifier::external_body]
fn document_to_string(v: &serde_json::Value) -> (text: String)
    ensures
        text@ == json_text(json_tree(*v)),
{
    serde_json::to_string(v).unwrap_or_default()
}

/// Writes a value over several indented lines with
/// `serde_json::to_string_pretty`, which cannot fail for a
/// `serde_json::Value`.
#[verifier::external_body]
fn document_to_string_pretty(v: &serde_json::Value) -> (text: String)
    ensures
        text@ == json_pretty(json_tree(*v)),
{
    serde_json::to_string_pretty(v).unwrap_or_default()
}

impl Json {
    /// Whether no object inside this value names a member twice.
    pub open spec fn wf(&self) -> bool {
        self@.wf()
    }

    /// Parses one JSON value. `None` where the text is not JSON.
    pub fn parse(text: &str) -> (r: Option<Json>)
        ensures
            match r {
                Some(json) => json_parse(text@) == Some(json@) && json.wf(),
                None => json_parse(text@) is None,
            },
    {
        match document_from_str(text) {
            Some(v) => Some(json_of_document(&v)),
            None => None,
        }
    }

    /// The value on one line.
    pub fn render(&self) -> (text: String)
        requires
            self.wf(),
        ensures
            text@ == json_text(self@),
    {
        let v = document_of_json(self);
        document_to_string(&v)
    }

    /// The value over several lines, indented by two blanks.
    pub fn render_pretty(&self) -> (text: String)
        requires
            self.wf(),
        ensures
            text@ == json_pretty(self@),
    {
        let v = document_of_json(self);
        document_to_string_pretty(&v)
    }

    /// A string value.
    pub fn text(s: &str) -> (json: Json)
        ensures
            json@ == JsonValue::Text(s@),
    {
        Json::Text(String::from_str(s))
    }

    /// An unsigned integer.
    pub fn unsigned(n: u64) -> (json: Json)
        ensures
            json@ == JsonValue::Number(decimal_digits(n as nat)),
    {
        Json::Number(number_from_u64(n))
    }

    /// A signed integer.
    pub fn integer(n: i64) -> (json: Json)
        ensures
            json@ == JsonValue::Number(integer_text(n as int)),
    {
        Json::Number(number_from_i64(n))
    }

    /// The number that a floating-point field keeps of this number; `None`
    /// where the value is no number.
    pub fn as_real(&self) -> (r: Option<Json>)
        ensures
            match self@ {
                JsonValue::Number(t) => r matches Some(j) && j@ == JsonValue::Number(
                    as_real_text(t),
                ),
                _ => r is None,
            },
    {
        match self {
            Json::Number(n) => Some(Json::Number(number_as_real(n))),
            _ => None,
        }
    }

    /// The number of a number value.
    pub fn as_number(&self) -> (r: Option<&serde_json::Number>)
        ensures
            match r {
                Some(n) => self@ == JsonValue::Number(number_text(*n)),
                None => !(self@ is Number),
            },
    {
        match self {
            Json::Number(n) => Some(n),
            _ => None,
        }
    }

    /// Whether the value is `null`.
    pub fn is_null(&self) -> (r: bool)
        ensures
            r == (self@ is Null),
    {
        match self {
            Json::Null => true,
            _ => false,
        }
    }

    /// Whether the value is an object.
    pub fn is_object(&self) -> (r: bool)
        ensures
            r == (self@ is Object),
    {
        match self {
            Json::Object(_) => true,
            _ => false,
        }
    }

    /// The text of a string value.
    pub fn as_str(&self) -> (r: Option<&str>)
        ensures
            match r {
                Some(s) => self@.text() == Some(s@),
                None => self@.text() is None,
            },
    {
        match self {
            Json::Text(s) => Some(s.as_str()),
            _ => None,
        }
    }

    /// The items of an array.
    pub fn as_array(&self) -> (r: Option<&Vec<Json>>)
        ensures
            match r {
                Some(items) => self@ == JsonValue::Array(array_view(items@)),
                None => !(self@ is Array),
            },
    {
        match self {
            Json::Array(items) => Some(items),
            _ => None,
        }
    }

    /// The members of an object.
    pub fn as_object(&self) -> (r: Option<&Vec<(String, Json)>>)
        ensures
            match r {
                Some(fields) => self@ == JsonValue::Object(object_view(fields@)),
                None => !(self@ is Object),
            },
    {
        match self {
            Json::Object(fields) => Some(fields),
            _ => None,
        }
    }

    /// The member `key` of an object: the first of that name.
    pub fn get(&self, key: &str) -> (r: Option<&Json>)
        ensures
            match r {
                Some(json) => self@.field(key@) == Some(json@),
                None => self@.field(key@) is None,
            },
    {
        match self {
            Json::Object(fields) => {
                let ghost members = object_view(fields@);
                let mut i: usize = 0;
                while i < fields.len()
                    invariant
                        i <= fields.len(),
                        members == object_view(fields@),
                        self@ == JsonValue::Object(members),
                        forall|j: int| 0 <= j < i ==> #[trigger] members[j].0 != key@,
                    decreases fields.len() - i,
                {
                    if str_eq(fields[i].0.as_str(), key) {
                        proof {
                            assert(members[i as int] == member_view(fields@, i as int));
                            lemma_lookup_at(members, key@, i as int);
                        }
                        return Some(&fields[i].1);
                    }
                    assert(members[i as int] == member_view(fields@, i as int));
                    i = i + 1;
                }
                proof {
                    lemma_lookup_none(members, key@);
                }
                None
            },
            _ => None,
        }
    }

    /// The text member `key` of an object.
    pub fn get_str(&self, key: &str) -> (r: Option<&str>)
        ensures
            match r {
                Some(s) => self@.text_field(key@) == Some(s@),
                None => self@.text_field(key@) is None,
            },
    {
        match self.get(key) {
            Some(v) => v.as_str(),
            None => None,
        }
    }

    /// Tells whether no object inside this value names a member twice.
    pub fn is_wf(&self) -> (r: bool)
        ensures
            r == self.wf(),
        decreases self,
    {
        match self {
            Json::Array(items) => {
                let mut i: usize = 0;
                while i < items.len()
                    invariant
                        i <= items.len(),
                        self matches Json::Array(v) && v == items,
                        forall|j: int| 0 <= j < i ==> (#[trigger] items@[j]).wf(),
                    decreases items.len() - i,
                {
                    if !items[i].is_wf() {
                        assert(array_view(items@)[i as int] == item_view(items@, i as int));
                        assert(!self@->Array_0[i as int].wf());
                        return false;
                    }
                    i = i + 1;
                }
                assert forall|j: int| 0 <= j < array_view(items@).len() implies (
                #[trigger] array_view(items@)[j]).wf() by {
                    assert(array_view(items@)[j] == item_view(items@, j));
                }
                true
            },
            Json::Object(fields) => {
                let ghost members = object_view(fields@);
                assert forall|j: int| 0 <= j < members.len() implies #[trigger] members[j]
                    == member_view(fields@, j) by {}
                if !names_distinct(fields) {
                    assert(!distinct_keys(members)) by {
                        if distinct_keys(members) {
                            assert forall|a: int, b: int| 0 <= a < b < fields@.len() implies (
                            #[trigger] fields@[a]).0@ != (#[trigger] fields@[b]).0@ by {
                                assert(members[a].0 != members[b].0);
                            }
                        }
                    }
                    return false;
                }
                assert(distinct_keys(members)) by {
                    assert forall|a: int, b: int| 0 <= a < b < members.len() implies (
                    #[trigger] members[a]).0 != (#[trigger] members[b]).0 by {
                        assert(fields@[a].0@ != fields@[b].0@);
                    }
                }
                let mut i: usize = 0;
                while i < fields.len()
                    invariant
                        i <= fields.len(),
                        self matches Json::Object(v) && v == fields,
                        members == object_view(fields@),
                        distinct_keys(members),
                        forall|j: int| 0 <= j < i ==> (#[trigger] fields@[j]).1.wf(),
                    decreases fields.len() - i,
                {
                    if !fields[i].1.is_wf() {
                        assert(members[i as int] == member_view(fields@, i as int));
                        assert(!self@->Object_0[i as int].1.wf());
                        return false;
                    }
                    i = i + 1;
                }
                assert forall|j: int| 0 <= j < members.len() implies (#[trigger] members[j]).1.wf() by {
                    assert(members[j] == member_view(fields@, j));
                }
                true
            },
            _ => true,
        }
    }

    /// A copy of this value.
    pub fn duplicate(&self) -> (r: Json)
        ensures
            r@ == self@,
        decreases self,
    {
        match self {
            Json::Null => Json::Null,
            Json::Bool(b) => Json::Bool(*b),
            Json::Number(n) => Json::Number(number_clone(n)),
            Json::Text(s) => Json::Text(s.clone()),
            Json::Array(items) => {
                let mut copy: Vec<Json> = Vec::new();
                let mut i: usize = 0;
                while i < items.len()
                    invariant
                        i <= items.len(),
                        copy.len() == i,
                        self matches Json::Array(v) && v == items,
                        forall|j: int| 0 <= j < i ==> (#[trigger] copy@[j])@ == items@[j]@,
                    decreases items.len() - i,
                {
                    copy.push(items[i].duplicate());
                    i = i + 1;
                }
                assert(array_view(copy@) =~= array_view(items@));
                Json::Array(copy)
            },
            Json::Object(fields) => {
                let mut copy: Vec<(String, Json)> = Vec::new();
                let mut i: usize = 0;
                while i < fields.len()
                    invariant
                        i <= fields.len(),
                        copy.len() == i,
                        self matches Json::Object(v) && v == fields,
                        forall|j: int|
                            0 <= j < i ==> (#[trigger] copy@[j]).0@ == fields@[j].0@ && copy@[j].1@
                                == fields@[j].1@,
                    decreases fields.len() - i,
                {
                    copy.push((fields[i].0.clone(), fields[i].1.duplicate()));
                    i = i + 1;
                }
                assert(object_view(copy@) =~= object_view(fields@));
                Json::Object(copy)
            },
        }
    }
}

/// The members of an object while it is being written. A name can be put
/// only once, so that the finished object is well formed.
pub struct ObjectBuilder {
    fields: Vec<(String, Json)>,
}

impl View for ObjectBuilder {
    type V = Seq<(Seq<char>, JsonValue)>;

    closed spec fn view(&self) -> Seq<(Seq<char>, JsonValue)> {
        object_view(self.fields@)
    }
}

impl ObjectBuilder {
    /// Whether the members so far are well formed, each name once.
    pub open spec fn wf(&self) -> bool {
        members_wf(self@)
    }

    /// A builder with no member in it.
    pub fn new() -> (b: Self)
        ensures
            b@ == Seq::<(Seq<char>, JsonValue)>::empty(),
            b.wf(),
    {
        let b = ObjectBuilder { fields: Vec::new() };
        assert(b@ =~= Seq::empty());
        b
    }

    /// Tells whether a member is named `key` already.
    pub fn contains(&self, key: &str) -> (r: bool)
        ensures
            r == !absent(self@, key@),
    {
        let ghost members = object_view(self.fields@);
        let mut i: usize = 0;
        while i < self.fields.len()
            invariant
                i <= self.fields.len(),
                members == object_view(self.fields@),
                forall|j: int| 0 <= j < i ==> (#[trigger] members[j]).0 != key@,
            decreases self.fields.len() - i,
        {
            assert(members[i as int] == member_view(self.fields@, i as int));
            if str_eq(self.fields[i].0.as_str(), key) {
                return true;
            }
            i = i + 1;
        }
        false
    }

    /// Adds the member `key`.
    pub fn put(&mut self, key: &str, value: Json)
        requires
            old(self).wf(),
            value.wf(),
            absent(old(self)@, key@),
        ensures
            final(self)@ == old(self)@.push((key@, value@)),
            final(self).wf(),
            forall|k: Seq<char>|
                absent(old(self)@, k) && k != key@ ==> #[trigger] absent(final(self)@, k),
    {
        let ghost before = self.fields@;
        self.fields.push((String::from_str(key), value));
        proof {
            let after = self.fields@;
            assert forall|i: int| 0 <= i < after.len() implies #[trigger] member_view(after, i) == (
                if i < before.len() {
                    member_view(before, i)
                } else {
                    (key@, value@)
                }) by {}
            assert(object_view(after) =~= object_view(before).push((key@, value@)));
        }
    }

    /// Adds the member `key` where there is a value for it.
    pub fn put_opt(&mut self, key: &str, value: Option<Json>)
        requires
            old(self).wf(),
            value matches Some(v) ==> v.wf(),
            absent(old(self)@, key@),
        ensures
            final(self)@ == old(self)@ + opt_member(key@, opt_view(value)),
            final(self).wf(),
            forall|k: Seq<char>|
                absent(old(self)@, k) && k != key@ ==> #[trigger] absent(final(self)@, k),
    {
        match value {
            Some(v) => {
                self.put(key, v);
                assert(self@ =~= old(self)@ + opt_member(key@, opt_view(value)));
            },
            None => {
                assert(self@ =~= old(self)@ + opt_member(key@, opt_view(value)));
            },
        }
    }

    /// The object with the members put so far.
    pub fn finish(self) -> (json: Json)
        requires
            self.wf(),
        ensures
            json@ == JsonValue::Object(self@),
            json.wf(),
    {
        Json::Object(self.fields)
    }
}

/// The array of the given items.
pub fn array_of(items: Vec<Json>) -> (json: Json)
    requires
        forall|i: int| 0 <= i < items.len() ==> (#[trigger] items[i]).wf(),
    ensures
        json@ == JsonValue::Array(array_view(items@)),
        json.wf(),
{
    let json = Json::Array(items);
    assert forall|i: int| 0 <= i < array_view(items@).len() implies (#[trigger] array_view(
        items@,
    )[i]).wf() by {
        assert(array_view(items@)[i] == item_view(items@, i));
    }
    json
}

/// The array of the given texts.
pub fn text_array(items: &Vec<String>) -> (json: Json)
    ensures
        json@ == JsonValue::Array(Seq::new(items.len() as nat, |i: int| JsonValue::Text(items[i]@))),
        json.wf(),
{
    let mut out: Vec<Json> = Vec::new();
    let mut i: usize = 0;
    while i < items.len()
        invariant
            i <= items.len(),
            out.len() == i,
            forall|j: int| 0 <= j < i ==> (#[trigger] out[j])@ == JsonValue::Text(items[j]@),
        decreases items.len() - i,
    {
        out.push(Json::Text(items[i].clone()));
        i = i + 1;
    }
    let json = array_of(out);
    assert(array_view(out@) =~= Seq::new(items.len() as nat, |i: int| JsonValue::Text(items[i]@)));
    json
}

} // verus!
