//! How the fields of requests are read and what the responses hold, stated over
//! JSON values built from their parts.
use vstd::prelude::*;
use crate::catalog::{initialize_response, tool_catalog, tools_list_response};
use crate::json::{JsonNumber, JsonValue, lookup, member};
use crate::request::{argument_of, member_of, tool_name_of};
use crate::response::{error_response, success_response};
use crate::server::{
    CommandOutcome, StepValue, ToolCallValue, method_of, outcome_text, step_for, tool_call_of,
};

verus! {

broadcast use vstd::string::group_string_axioms;

/// Looking a key up finds the first member with that key.
pub proof fn law_lookup_finds_first_member(
    members: Seq<(Seq<char>, JsonValue)>,
    key: Seq<char>,
    i: int,
)
    requires
        0 <= i < members.len(),
        members[i].0 == key,
        forall|j: int| 0 <= j < i ==> members[j].0 != key,
    ensures
        lookup(members, key) == Some(members[i].1),
    decreases i,
{
    if i > 0 {
        let rest = members.drop_first();
        assert forall|j: int| 0 <= j < i - 1 implies rest[j].0 != key by {
            assert(rest[j] == members[j + 1]);
        }
        law_lookup_finds_first_member(rest, key, i - 1);
    }
}

/// Looking up a key that no member has finds nothing.
pub proof fn law_lookup_misses_absent_keys(members: Seq<(Seq<char>, JsonValue)>, key: Seq<char>)
    requires
        forall|j: int| 0 <= j < members.len() ==> members[j].0 != key,
    ensures
        lookup(members, key) is None,
    decreases members.len(),
{
    if members.len() > 0 {
        let rest = members.drop_first();
        assert forall|j: int| 0 <= j < rest.len() implies rest[j].0 != key by {
            assert(rest[j] == members[j + 1]);
        }
        law_lookup_misses_absent_keys(rest, key);
    }
}

/// Only objects have members.
pub proof fn law_only_objects_have_members(v: JsonValue, key: Seq<char>)
    requires
        !(v is Object),
    ensures
        member(v, key) is None,
{
}

proof fn lemma_request_keys()
    ensures
        "name"@ != "arguments"@,
        "params"@ != "id"@,
        "params"@ != "method"@,
{
    reveal_strlit("name");
    reveal_strlit("arguments");
    reveal_strlit("params");
    reveal_strlit("id");
    reveal_strlit("method");
    assert("name"@.len() != "arguments"@.len());
    assert("params"@.len() != "id"@.len());
    assert("params"@[0] != "method"@[0]);
}

/// The request that calls tool `name` with the single argument `key` set to `value`.
pub open spec fn call_request(name: Seq<char>, key: Seq<char>, value: Seq<char>) -> JsonValue {
    JsonValue::Object(
        seq![
            ("params"@, JsonValue::Object(
                seq![
                    ("name"@, JsonValue::Str(name)),
                    ("arguments"@, JsonValue::Object(seq![(key, JsonValue::Str(value))])),
                ],
            )),
        ],
    )
}

/// The tool's name is read from `params.name` and an argument from
/// `params.arguments.<key>`; where these are missing, or not strings, they read
/// as empty.
pub proof fn law_request_fields_read_back(
    name: Seq<char>,
    key: Seq<char>,
    value: Seq<char>,
    other: JsonValue,
)
    requires
        !(other is Str),
    ensures
        tool_name_of(call_request(name, key, value)) == name,
        argument_of(call_request(name, key, value), key) == value,
        tool_name_of(JsonValue::Object(seq![])) == Seq::<char>::empty(),
        argument_of(JsonValue::Object(seq![]), key) == Seq::<char>::empty(),
        tool_name_of(JsonValue::Object(seq![("params"@, JsonValue::Object(seq![("name"@, other)]))]))
            == Seq::<char>::empty(),
        argument_of(JsonValue::Object(seq![("params"@, JsonValue::Object(seq![("name"@, JsonValue::Str(name))]))]), key)
            == Seq::<char>::empty(),
{
    lemma_request_keys();
    let req = call_request(name, key, value);
    let params = req->Object_0[0].1;
    law_lookup_finds_first_member(req->Object_0, "params"@, 0);
    law_lookup_finds_first_member(params->Object_0, "name"@, 0);
    law_lookup_finds_first_member(params->Object_0, "arguments"@, 1);
    law_lookup_finds_first_member(params->Object_0[1].1->Object_0, key, 0);
    let empty: Seq<(Seq<char>, JsonValue)> = seq![];
    law_lookup_misses_absent_keys(empty, "params"@);
    let only_name = seq![("name"@, JsonValue::Str(name))];
    law_lookup_misses_absent_keys(only_name, "arguments"@);
    law_lookup_finds_first_member(seq![("params"@, JsonValue::Object(only_name))], "params"@, 0);
    law_lookup_finds_first_member(seq![("params"@, JsonValue::Object(seq![("name"@, other)]))], "params"@, 0);
    law_lookup_finds_first_member(seq![("name"@, other)], "name"@, 0);
}

/// The method of a request is read from its member `method`; where that is
/// missing or not a string, the method reads as empty.
pub proof fn law_method_is_read_back(method: Seq<char>, id: JsonValue, other: JsonValue)
    requires
        !(other is Str),
    ensures
        method_of(JsonValue::Object(seq![("id"@, id), ("method"@, JsonValue::Str(method))])) == method,
        method_of(JsonValue::Object(seq![("id"@, id), ("method"@, other)])) == Seq::<char>::empty(),
        method_of(JsonValue::Object(seq![("id"@, id)])) == Seq::<char>::empty(),
{
    reveal_strlit("id");
    reveal_strlit("method");
    assert("id"@.len() != "method"@.len());
    law_lookup_finds_first_member(seq![("id"@, id), ("method"@, JsonValue::Str(method))], "method"@, 1);
    law_lookup_finds_first_member(seq![("id"@, id), ("method"@, other)], "method"@, 1);
    law_lookup_misses_absent_keys(seq![("id"@, id)], "method"@);
}

proof fn lemma_response_keys()
    ensures
        "result"@ != "jsonrpc"@,
        "result"@ != "id"@,
        "error"@ != "jsonrpc"@,
        "error"@ != "id"@,
        "code"@ != "message"@,
        "type"@ != "text"@,
        "protocolVersion"@ != "capabilities"@,
        "protocolVersion"@ != "serverInfo"@,
        "capabilities"@ != "serverInfo"@,
        "name"@ != "version"@,
{
    reveal_strlit("jsonrpc");
    reveal_strlit("id");
    reveal_strlit("result");
    reveal_strlit("error");
    reveal_strlit("code");
    reveal_strlit("message");
    reveal_strlit("type");
    reveal_strlit("text");
    reveal_strlit("protocolVersion");
    reveal_strlit("capabilities");
    reveal_strlit("serverInfo");
    reveal_strlit("name");
    reveal_strlit("version");
    assert("result"@[0] != "jsonrpc"@[0]);
    assert("result"@.len() != "id"@.len());
    assert("error"@[0] != "jsonrpc"@[0]);
    assert("error"@.len() != "id"@.len());
    assert("code"@.len() != "message"@.len());
    assert("type"@[0] == 't' && "type"@[1] != "text"@[1]);
    assert("protocolVersion"@[0] != "capabilities"@[0]);
    assert("protocolVersion"@[0] != "serverInfo"@[0]);
    assert("capabilities"@[0] != "serverInfo"@[0]);
    assert("name"@.len() != "version"@.len());
}

/// The items of `v`, where it is an array.
pub open spec fn items_of(v: Option<JsonValue>) -> Seq<JsonValue> {
    match v {
        Some(JsonValue::Array(items)) => items,
        _ => Seq::empty(),
    }
}

/// A success response holds, under `result.content`, a single item of type
/// `text` whose text is the one it was built with.
pub proof fn law_success_response_holds_its_text(id: JsonValue, text: Seq<char>)
    ensures
        items_of(member_of(member(success_response(id, text), "result"@), "content"@)).len() == 1,
        member(items_of(member_of(member(success_response(id, text), "result"@), "content"@))[0], "type"@)
            == Some(JsonValue::Str("text"@)),
        member(items_of(member_of(member(success_response(id, text), "result"@), "content"@))[0], "text"@)
            == Some(JsonValue::Str(text)),
        member(success_response(id, text), "error"@) is None,
{
    lemma_response_keys();
    let r = success_response(id, text);
    law_lookup_finds_first_member(r->Object_0, "result"@, 2);
    let result = r->Object_0[2].1;
    law_lookup_finds_first_member(result->Object_0, "content"@, 0);
    let item = result->Object_0[0].1->Array_0[0];
    law_lookup_finds_first_member(item->Object_0, "type"@, 0);
    law_lookup_finds_first_member(item->Object_0, "text"@, 1);
    reveal_strlit("error");
    reveal_strlit("jsonrpc");
    reveal_strlit("id");
    reveal_strlit("result");
    assert("error"@.len() != "result"@.len());
    law_lookup_misses_absent_keys(r->Object_0, "error"@);
}

/// An error response holds, under `error`, the code and the message it was built
/// with; the code as serde_json holds a 32-bit integer.
pub proof fn law_error_response_holds_code_and_message(id: JsonValue, code: i32, message: Seq<char>)
    ensures
        member_of(member(error_response(id, code as int, message), "error"@), "code"@) == Some(
            JsonValue::Number(
                if code < 0 {
                    JsonNumber::NegInt(code as i64)
                } else {
                    JsonNumber::PosInt(code as u64)
                },
            ),
        ),
        member_of(member(error_response(id, code as int, message), "error"@), "message"@) == Some(
            JsonValue::Str(message),
        ),
        member(error_response(id, code as int, message), "result"@) is None,
{
    lemma_response_keys();
    let r = error_response(id, code as int, message);
    law_lookup_finds_first_member(r->Object_0, "error"@, 2);
    let e = r->Object_0[2].1;
    law_lookup_finds_first_member(e->Object_0, "code"@, 0);
    law_lookup_finds_first_member(e->Object_0, "message"@, 1);
    reveal_strlit("error");
    reveal_strlit("jsonrpc");
    reveal_strlit("id");
    reveal_strlit("result");
    assert("error"@.len() != "result"@.len());
    law_lookup_misses_absent_keys(r->Object_0, "result"@);
}

/// The answer to `initialize` gives protocol version `2024-11-05`, a `tools`
/// capability, and the server's name `amule-mcp` and version `0.1.0`.
pub proof fn law_initialize_names_the_server(id: JsonValue)
    ensures
        member_of(member(initialize_response(id), "result"@), "protocolVersion"@) == Some(
            JsonValue::Str("2024-11-05"@),
        ),
        member_of(member_of(member(initialize_response(id), "result"@), "capabilities"@), "tools"@)
            == Some(JsonValue::Object(seq![])),
        member_of(member_of(member(initialize_response(id), "result"@), "serverInfo"@), "name"@)
            == Some(JsonValue::Str("amule-mcp"@)),
        member_of(member_of(member(initialize_response(id), "result"@), "serverInfo"@), "version"@)
            == Some(JsonValue::Str("0.1.0"@)),
{
    lemma_response_keys();
    let r = initialize_response(id);
    law_lookup_finds_first_member(r->Object_0, "result"@, 2);
    let result = r->Object_0[2].1;
    law_lookup_finds_first_member(result->Object_0, "protocolVersion"@, 0);
    law_lookup_finds_first_member(result->Object_0, "capabilities"@, 1);
    law_lookup_finds_first_member(result->Object_0, "serverInfo"@, 2);
    law_lookup_finds_first_member(result->Object_0[1].1->Object_0, "tools"@, 0);
    law_lookup_finds_first_member(result->Object_0[2].1->Object_0, "name"@, 0);
    law_lookup_finds_first_member(result->Object_0[2].1->Object_0, "version"@, 1);
}

/// The answer to `tools/list` holds, under `result.tools`, the catalog of tools.
pub proof fn law_tools_list_holds_the_catalog(id: JsonValue)
    ensures
        member_of(member(tools_list_response(id), "result"@), "tools"@) == Some(
            JsonValue::Array(tool_catalog()),
        ),
{
    lemma_response_keys();
    let r = tools_list_response(id);
    law_lookup_finds_first_member(r->Object_0, "result"@, 2);
    law_lookup_finds_first_member(r->Object_0[2].1->Object_0, "tools"@, 0);
}

/// A request with an id is answered according to its method: `initialize` and
/// `tools/list` at once; a `tools/call` with the answer of its tool, or by
/// running the tool's command for that same id.
pub proof fn law_methods_are_dispatched(req: JsonValue)
    requires
        member(req, "id"@) is Some,
    ensures
        method_of(req) == "initialize"@ ==> step_for(req) == StepValue::Reply(
            initialize_response(member(req, "id"@)->0),
        ),
        method_of(req) == "tools/list"@ ==> step_for(req) == StepValue::Reply(
            tools_list_response(member(req, "id"@)->0),
        ),
        method_of(req) == "tools/call"@ ==> match tool_call_of(req) {
            ToolCallValue::Answer(t) => step_for(req) == StepValue::Reply(
                success_response(member(req, "id"@)->0, t),
            ),
            ToolCallValue::Run(action) => step_for(req) == StepValue::Run {
                id: member(req, "id"@)->0,
                action,
            },
        },
{
    reveal_strlit("initialize");
    reveal_strlit("tools/list");
    reveal_strlit("tools/call");
    assert("initialize"@[0] != "tools/list"@[0]);
    assert("initialize"@[0] != "tools/call"@[0]);
    assert("tools/list"@[6] != "tools/call"@[6]);
}

/// What came of a command is reported as its output where it succeeded, as its
/// error output after `Error de amulecmd: ` where it failed, and as the reason
/// after `Error al ejecutar docker: ` where it could not start.
pub proof fn law_outcomes_are_reported(outcome: CommandOutcome)
    ensures
        outcome matches CommandOutcome::Exited { success, stdout, stderr } ==> outcome_text(outcome)
            == if success {
            stdout@
        } else {
            "Error de amulecmd: "@ + stderr@
        },
        outcome matches CommandOutcome::NotStarted { error } ==> outcome_text(outcome)
            == "Error al ejecutar docker: "@ + error@,
{
}

} // verus!
