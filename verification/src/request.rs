//! Reading the fields of a JSON-RPC `tools/call` request.
use vstd::prelude::*;
use crate::json::{Json, JsonValue, member};

verus! {

/// The characters of `v` where it is a string; no characters otherwise.
pub open spec fn text_or_empty(v: Option<JsonValue>) -> Seq<char> {
    match v {
        Some(JsonValue::Str(s)) => s,
        _ => Seq::empty(),
    }
}

/// The member `key` of `v`, where `v` is present and has one.
pub open spec fn member_of(v: Option<JsonValue>, key: Seq<char>) -> Option<JsonValue> {
    match v {
        Some(x) => member(x, key),
        None => None,
    }
}

/// The tool that a request calls: `params.name`, or nothing.
pub open spec fn tool_name_of(req: JsonValue) -> Seq<char> {
    text_or_empty(member_of(member(req, "params"@), "name"@))
}

/// An argument of the tool call: `params.arguments.<key>`, or nothing.
pub open spec fn argument_of(req: JsonValue, key: Seq<char>) -> Seq<char> {
    text_or_empty(member_of(member_of(member(req, "params"@), "arguments"@), key))
}

pub(crate) fn text_or_empty_str<'a>(v: Option<&'a Json>) -> (r: &'a str)
    ensures
        r@ == text_or_empty(crate::json::value_of(v)),
{
    proof {
        reveal_strlit("");
    }
    match v {
        Some(j) => match j.as_str() {
            Some(s) => s,
            None => "",
        },
        None => "",
    }
}

fn argument<'a>(req: &'a Json, key: &str) -> (r: &'a str)
    ensures
        r@ == argument_of(req@, key@),
{
    match req.get("params") {
        Some(params) => match params.get("arguments") {
            Some(arguments) => text_or_empty_str(arguments.get(key)),
            None => text_or_empty_str(None),
        },
        None => text_or_empty_str(None),
    }
}

/// The name of the tool that `req` calls (`params.name`); empty where absent or
/// not a string.
pub fn extract_tool_name(req: &Json) -> (r: &str)
    ensures
        r@ == tool_name_of(req@),
{
    match req.get("params") {
        Some(params) => text_or_empty_str(params.get("name")),
        None => text_or_empty_str(None),
    }
}

/// The `link` argument of the call; empty where absent or not a string.
pub fn extract_link(req: &Json) -> (r: &str)
    ensures
        r@ == argument_of(req@, "link"@),
{
    argument(req, "link")
}

/// The `hash` argument of the call; empty where absent or not a string.
pub fn extract_hash(req: &Json) -> (r: &str)
    ensures
        r@ == argument_of(req@, "hash"@),
{
    argument(req, "hash")
}

/// The `priority` argument of the call; empty where absent or not a string.
pub fn extract_priority(req: &Json) -> (r: &str)
    ensures
        r@ == argument_of(req@, "priority"@),
{
    argument(req, "priority")
}

} // verus!
