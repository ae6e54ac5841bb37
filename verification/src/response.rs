//! The JSON-RPC 2.0 responses that the server sends.
use vstd::prelude::*;
use crate::json::{Json, JsonValue, int_number, entry};

verus! {

/// An object made of the given members, in order.
pub open spec fn object_of(members: Seq<(Seq<char>, JsonValue)>) -> JsonValue {
    JsonValue::Object(members)
}

/// A string value.
pub open spec fn str_of(text: Seq<char>) -> JsonValue {
    JsonValue::Str(text)
}

/// The response that reports `message` under error code `code` for request `id`.
pub open spec fn error_response(id: JsonValue, code: int, message: Seq<char>) -> JsonValue {
    object_of(
        seq![
            ("jsonrpc"@, str_of("2.0"@)),
            ("id"@, id),
            ("error"@, object_of(seq![("code"@, JsonValue::Number(int_number(code))), ("message"@, str_of(message))])),
        ],
    )
}

/// The response that carries `text` as the single text item of the result of request `id`.
pub open spec fn success_response(id: JsonValue, text: Seq<char>) -> JsonValue {
    object_of(
        seq![
            ("jsonrpc"@, str_of("2.0"@)),
            ("id"@, id),
            ("result"@, object_of(seq![("content"@, JsonValue::Array(seq![object_of(seq![("type"@, str_of("text"@)), ("text"@, str_of(text))])]))])),
        ],
    )
}

/// Builds the response that reports `message` under error code `code` for request `id`.
pub fn build_error_response(id: &Json, code: i32, message: &str) -> (r: Json)
    ensures
        r@ == error_response(id@, code as int, message@),
{
    let error = Json::object(vec![entry("code", Json::integer(code)), entry("message", Json::text(message))]);
    assert(error@->Object_0 =~= seq![("code"@, JsonValue::Number(int_number(code as int))), ("message"@, str_of(message@))]);
    let r = Json::object(vec![entry("jsonrpc", Json::text("2.0")), entry("id", id.clone()), entry("error", error)]);
    assert(r@->Object_0 =~= error_response(id@, code as int, message@)->Object_0);
    r
}

/// Builds the response whose result holds `result_text` as its single text item.
pub fn build_success_response(id: &Json, result_text: &str) -> (r: Json)
    ensures
        r@ == success_response(id@, result_text@),
{
    let item = Json::object(vec![entry("type", Json::text("text")), entry("text", Json::text(result_text))]);
    assert(item@->Object_0 =~= seq![("type"@, str_of("text"@)), ("text"@, str_of(result_text@))]);
    let content = Json::array(vec![item]);
    assert(content@->Array_0 =~= seq![item@]);
    let result = Json::object(vec![entry("content", content)]);
    assert(result@->Object_0 =~= seq![("content"@, content@)]);
    let r = Json::object(vec![entry("jsonrpc", Json::text("2.0")), entry("id", id.clone()), entry("result", result)]);
    assert(r@->Object_0 =~= success_response(id@, result_text@)->Object_0);
    r
}

} // verus!
