//! Properties of the server as a whole, proved over the specifications of its parts.
use vstd::prelude::*;
use crate::catalog::{initialize_response, tool_catalog, tools_list_response};
use crate::json::{JsonValue, member, lookup, text_of};
use crate::request::{argument_of, tool_name_of};
use crate::response::{error_response, success_response};
use crate::server::{
    StepValue, ToolCallValue, bad_link, bad_priority, hash_required, method_of, step_for,
    tool_call_of, tool_call_plan, unknown_tool,
};
use crate::validate::{link_accepted, normalized, priority_name, priority_of};

verus! {

broadcast use vstd::string::group_string_axioms;

/// The members that every response begins with: the protocol version and the id.
pub open spec fn answers(r: JsonValue, id: JsonValue) -> bool {
    &&& member(r, "jsonrpc"@) == Some(JsonValue::Str("2.0"@))
    &&& member(r, "id"@) == Some(id)
}

proof fn lemma_response_keys()
    ensures
        "result"@ != "jsonrpc"@,
        "result"@ != "id"@,
        "error"@ != "jsonrpc"@,
        "error"@ != "id"@,
        "jsonrpc"@ != "id"@,
{
    reveal_strlit("jsonrpc");
    reveal_strlit("id");
    reveal_strlit("result");
    reveal_strlit("error");
    assert("jsonrpc"@.len() != "id"@.len());
    assert("result"@[0] != "jsonrpc"@[0]);
    assert("result"@.len() != "id"@.len());
    assert("error"@[0] != "jsonrpc"@[0]);
    assert("error"@.len() != "id"@.len());
}

proof fn lemma_header(id: JsonValue, last: (Seq<char>, JsonValue))
    requires
        last.0 != "jsonrpc"@,
        last.0 != "id"@,
    ensures
        answers(
            JsonValue::Object(seq![("jsonrpc"@, JsonValue::Str("2.0"@)), ("id"@, id), last]),
            id,
        ),
{
    lemma_response_keys();
    let ms = seq![("jsonrpc"@, JsonValue::Str("2.0"@)), ("id"@, id), last];
    assert(ms.drop_first()[0] == ("id"@, id));
    assert(lookup(ms, "id"@) == lookup(ms.drop_first(), "id"@));
}

/// Every response the server sends names JSON-RPC 2.0 and carries the id of the
/// request it answers, be it sent at once or after a command ran, whatever the
/// command's report.
pub proof fn law_responses_carry_request_id(req: JsonValue, report: Seq<char>)
    ensures
        step_for(req) matches StepValue::Reply(r) ==> answers(r, member(req, "id"@)->0),
        step_for(req) matches StepValue::Run { id, action } ==> member(req, "id"@) == Some(id)
            && answers(success_response(id, report), id),
{
    lemma_response_keys();
    if let Some(id) = member(req, "id"@) {
        let ans = tool_call_of(req);
        lemma_header(id, initialize_response(id)->Object_0[2]);
        lemma_header(id, tools_list_response(id)->Object_0[2]);
        lemma_header(id, error_response(id, -32601, "Method not found"@)->Object_0[2]);
        lemma_header(id, success_response(id, report)->Object_0[2]);
        if let ToolCallValue::Answer(t) = ans {
            lemma_header(id, success_response(id, t)->Object_0[2]);
        }
    }
}

/// A request is answered exactly when it carries an id; one without an id
/// (a notification) is neither answered nor acted on.
pub proof fn law_only_requests_with_id_are_answered(req: JsonValue)
    ensures
        step_for(req) is Ignore <==> member(req, "id"@) is None,
{
}

/// A request with a method other than `initialize`, `tools/list` and `tools/call`
/// is answered with error -32601, "Method not found".
pub proof fn law_unknown_method_is_refused(req: JsonValue)
    requires
        member(req, "id"@) is Some,
        method_of(req) != "initialize"@,
        method_of(req) != "tools/list"@,
        method_of(req) != "tools/call"@,
    ensures
        step_for(req) == StepValue::Reply(
            error_response(member(req, "id"@)->0, -32601, "Method not found"@),
        ),
{
}

/// Length and first character of each tool name; no two names agree on both.
pub(crate) proof fn lemma_tool_names()
    ensures
        "get_status"@.len() == 10 && "get_status"@[0] == 'g',
        "list_downloads"@.len() == 14 && "list_downloads"@[0] == 'l',
        "add_link"@.len() == 8 && "add_link"@[0] == 'a',
        "pause_download"@.len() == 14 && "pause_download"@[0] == 'p',
        "pause_all_downloads"@.len() == 19 && "pause_all_downloads"@[0] == 'p',
        "resume_download"@.len() == 15 && "resume_download"@[0] == 'r',
        "resume_all_downloads"@.len() == 20 && "resume_all_downloads"@[0] == 'r',
        "cancel_download"@.len() == 15 && "cancel_download"@[0] == 'c',
        "cancel_all_downloads"@.len() == 20 && "cancel_all_downloads"@[0] == 'c',
        "set_priority"@.len() == 12 && "set_priority"@[0] == 's',
        "set_priority_all"@.len() == 16 && "set_priority_all"@[0] == 's',
{
    reveal_strlit("get_status");
    reveal_strlit("list_downloads");
    reveal_strlit("add_link");
    reveal_strlit("pause_download");
    reveal_strlit("pause_all_downloads");
    reveal_strlit("resume_download");
    reveal_strlit("resume_all_downloads");
    reveal_strlit("cancel_download");
    reveal_strlit("cancel_all_downloads");
    reveal_strlit("set_priority");
    reveal_strlit("set_priority_all");
}

/// A command runs only on a `tools/call` request whose arguments pass the
/// tool's checks: `add_link` only with an eD2k or Magnet link, the tools on one
/// download only with a hash, the priority tools only with a priority that names
/// one, given under its canonical name.
pub proof fn law_commands_run_only_on_checked_input(req: JsonValue)
    ensures
        step_for(req) matches StepValue::Run { id, action } ==> {
            let name = tool_name_of(req);
            let link = argument_of(req, "link"@);
            let hash = argument_of(req, "hash"@);
            let priority = argument_of(req, "priority"@);
            &&& method_of(req) == "tools/call"@
            &&& name == "add_link"@ ==> link_accepted(link) && action == "Add "@ + link
            &&& (name == "pause_download"@ || name == "resume_download"@ || name
                == "cancel_download"@ || name == "set_priority"@) ==> hash.len() > 0
            &&& (name == "set_priority"@ || name == "set_priority_all"@) ==> (
            priority_of(priority) matches Some(p) && action == (if name == "set_priority"@ {
                "Priority "@ + hash + " "@ + priority_name(p)
            } else {
                "Priority all "@ + priority_name(p)
            }))
        },
{
    lemma_tool_names();
}

/// Normalising a priority gives the canonical name of the priority that it
/// names, whatever its letter case, and leaves a word that names none unchanged.
pub proof fn law_normalize_gives_canonical_names(word: Seq<char>)
    ensures
        priority_of(word) matches Some(p) ==> normalized(word) == priority_name(p) && (normalized(
            word,
        ) == "Low"@ || normalized(word) == "Normal"@ || normalized(word) == "High"@ || normalized(
            word,
        ) == "Auto"@),
        priority_of(word) is None ==> normalized(word) == word,
{
}

/// The names of the tools that `tools/list` announces.
pub open spec fn listed_names() -> Seq<Seq<char>> {
    tool_catalog().map_values(|t: JsonValue| text_of(member(t, "name"@)->0)->0)
}

/// The names of the tools that `tools/list` announces, in order.
pub proof fn lemma_listed_names()
    ensures
        listed_names() == seq![
            "get_status"@, "list_downloads"@, "add_link"@, "pause_download"@,
            "pause_all_downloads"@, "resume_download"@, "resume_all_downloads"@,
            "cancel_download"@, "cancel_all_downloads"@, "set_priority"@, "set_priority_all"@,
        ],
{
    assert(listed_names() =~= seq![
        "get_status"@, "list_downloads"@, "add_link"@, "pause_download"@,
        "pause_all_downloads"@, "resume_download"@, "resume_all_downloads"@,
        "cancel_download"@, "cancel_all_downloads"@, "set_priority"@, "set_priority_all"@,
    ]);
}

/// The first characters of the refusals: none of them is the answer to an unknown tool.
proof fn lemma_refusals_differ(name: Seq<char>)
    ensures
        hash_required() != unknown_tool(name),
        bad_link() != unknown_tool(name),
        bad_priority() != unknown_tool(name),
{
    reveal_strlit("Error: Hash requerido");
    reveal_strlit("Error: El enlace no tiene un formato válido");
    reveal_strlit("Error: Prioridad inválida. Usa: Low, Normal, High o Auto");
    reveal_strlit("Herramienta desconocida: ");
    assert(unknown_tool(name)[0] == 'H');
    assert(hash_required()[0] == 'E');
    assert(bad_link()[0] == 'E');
    assert(bad_priority()[0] == 'E');
}

/// Every tool that `tools/list` announces is one that `tools/call` handles, and
/// every other name is answered as an unknown tool.
pub proof fn law_listed_tools_are_handled(
    name: Seq<char>,
    link: Seq<char>,
    hash: Seq<char>,
    priority: Seq<char>,
)
    ensures
        listed_names().contains(name) ==> tool_call_plan(name, link, hash, priority)
            != ToolCallValue::Answer(unknown_tool(name)),
        !listed_names().contains(name) ==> tool_call_plan(name, link, hash, priority)
            == ToolCallValue::Answer(unknown_tool(name)),
{
    lemma_listed_names();
    lemma_tool_names();
    lemma_refusals_differ(name);
    let names = listed_names();
    assert(names[0] == "get_status"@);
    assert(names[1] == "list_downloads"@);
    assert(names[2] == "add_link"@);
    assert(names[3] == "pause_download"@);
    assert(names[4] == "pause_all_downloads"@);
    assert(names[5] == "resume_download"@);
    assert(names[6] == "resume_all_downloads"@);
    assert(names[7] == "cancel_download"@);
    assert(names[8] == "cancel_all_downloads"@);
    assert(names[9] == "set_priority"@);
    assert(names[10] == "set_priority_all"@);
}

} // verus!
