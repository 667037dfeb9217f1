//! Handlers for the lists that clients probe and this server has nothing
//! to put in.

use crate::json::{array_of, array_view, Json, JsonValue, ObjectBuilder};
use vstd::prelude::*;
use vstd::string::*;

verus! {

/// An object whose one member `name` is an empty list.
pub open spec fn empty_list(name: Seq<char>) -> JsonValue {
    JsonValue::Object(seq![(name, JsonValue::Array(Seq::empty()))])
}

/// An object whose one member `name` is an empty list.
fn empty_list_of(name: &str) -> (result: Json)
    ensures
        result@ == empty_list(name@),
        result.wf(),
{
    let items: Vec<Json> = Vec::new();
    let list = array_of(items);
    assert(array_view(items@) =~= Seq::empty());
    let mut b = ObjectBuilder::new();
    b.put(name, list);
    assert(b@ =~= empty_list(name@)->Object_0);
    b.finish()
}

/// No-op handler for `resources/list` to satisfy clients that probe this method.
pub fn compat_resources_list() -> (result: Json)
    ensures
        result@ == empty_list("resources"@),
        result.wf(),
{
    empty_list_of("resources")
}

/// No-op handler for `resources/templates/list` to satisfy clients that probe this method.
pub fn compat_resource_templates_list() -> (result: Json)
    ensures
        result@ == empty_list("resourceTemplates"@),
        result.wf(),
{
    empty_list_of("resourceTemplates")
}

/// No-op handler for `prompts/list` to satisfy clients that probe this method.
pub fn compat_prompts_list() -> (result: Json)
    ensures
        result@ == empty_list("prompts"@),
        result.wf(),
{
    empty_list_of("prompts")
}

} // verus!
