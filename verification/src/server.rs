//! The decisions of the server: what each request is answered, and which aMule
//! command a tool call runs. Reading requests, running `amulecmd` and writing
//! responses are left to the caller, which hands back what came of a command.
use vstd::prelude::*;
use crate::catalog::{
    build_initialize_response, build_tools_list_response, initialize_response, tools_list_response,
};
use crate::json::{Json, JsonValue, member};
use crate::request::{
    argument_of, extract_hash, extract_link, extract_priority, extract_tool_name, text_or_empty,
    text_or_empty_str, tool_name_of,
};
use crate::response::{build_error_response, build_success_response, error_response, success_response};
use crate::text::{joined, same_text};
use crate::validate::{
    is_valid_link, is_valid_priority, link_accepted, normalize_priority, normalized, priority_of,
};

verus! {

/// What a tool call comes to: a text to answer at once, or an aMule command to run.
pub enum ToolCall {
    Answer(String),
    Run(String),
}

/// The value of a [`ToolCall`].
pub ghost enum ToolCallValue {
    Answer(Seq<char>),
    Run(Seq<char>),
}

impl View for ToolCall {
    type V = ToolCallValue;

    open spec fn view(&self) -> ToolCallValue {
        match self {
            ToolCall::Answer(t) => ToolCallValue::Answer(t@),
            ToolCall::Run(a) => ToolCallValue::Run(a@),
        }
    }
}

/// The answer to a call of a tool that needs a download's hash but got none.
pub open spec fn hash_required() -> Seq<char> {
    "Error: Hash requerido"@
}

/// The answer to a call of `add_link` with a link that aMule cannot queue.
pub open spec fn bad_link() -> Seq<char> {
    "Error: El enlace no tiene un formato válido"@
}

/// The answer to a call with a priority that names none.
pub open spec fn bad_priority() -> Seq<char> {
    "Error: Prioridad inválida. Usa: Low, Normal, High o Auto"@
}

/// The answer to a call of a tool that the server does not offer.
pub open spec fn unknown_tool(name: Seq<char>) -> Seq<char> {
    "Herramienta desconocida: "@ + name
}

/// The command for a tool that acts on one download, or its refusal when the hash is missing.
pub open spec fn per_download(verb: Seq<char>, hash: Seq<char>) -> ToolCallValue {
    if hash.len() == 0 {
        ToolCallValue::Answer(hash_required())
    } else {
        ToolCallValue::Run(verb + " "@ + hash)
    }
}

/// What a call of tool `name` with the given arguments comes to.
pub open spec fn tool_call_plan(
    name: Seq<char>,
    link: Seq<char>,
    hash: Seq<char>,
    priority: Seq<char>,
) -> ToolCallValue {
    if name == "get_status"@ {
        ToolCallValue::Run("status"@)
    } else if name == "list_downloads"@ {
        ToolCallValue::Run("show DL"@)
    } else if name == "add_link"@ {
        if link_accepted(link) {
            ToolCallValue::Run("Add "@ + link)
        } else {
            ToolCallValue::Answer(bad_link())
        }
    } else if name == "pause_download"@ {
        per_download("Pause"@, hash)
    } else if name == "pause_all_downloads"@ {
        ToolCallValue::Run("Pause all"@)
    } else if name == "resume_download"@ {
        per_download("Resume"@, hash)
    } else if name == "resume_all_downloads"@ {
        ToolCallValue::Run("Resume all"@)
    } else if name == "cancel_download"@ {
        per_download("Cancel"@, hash)
    } else if name == "cancel_all_downloads"@ {
        ToolCallValue::Run("Cancel all"@)
    } else if name == "set_priority"@ {
        if hash.len() == 0 {
            ToolCallValue::Answer(hash_required())
        } else if priority_of(priority) is None {
            ToolCallValue::Answer(bad_priority())
        } else {
            ToolCallValue::Run("Priority "@ + hash + " "@ + normalized(priority))
        }
    } else if name == "set_priority_all"@ {
        if priority_of(priority) is None {
            ToolCallValue::Answer(bad_priority())
        } else {
            ToolCallValue::Run("Priority all "@ + normalized(priority))
        }
    } else {
        ToolCallValue::Answer(unknown_tool(name))
    }
}

/// What the `tools/call` request `req` comes to.
pub open spec fn tool_call_of(req: JsonValue) -> ToolCallValue {
    tool_call_plan(
        tool_name_of(req),
        argument_of(req, "link"@),
        argument_of(req, "hash"@),
        argument_of(req, "priority"@),
    )
}

fn text(t: &str) -> (r: String)
    ensures
        r@ == t@,
{
    String::from_str(t)
}

fn per_download_call(verb: &str, hash: &str) -> (r: ToolCall)
    ensures
        r@ == per_download(verb@, hash@),
{
    if hash.is_empty() {
        ToolCall::Answer(text("Error: Hash requerido"))
    } else {
        let mut action = joined(verb, " ");
        action.append(hash);
        ToolCall::Run(action)
    }
}

/// Decides what the `tools/call` request `req` comes to, from the tool it names
/// and that tool's arguments.
pub fn plan_tool_call(req: &Json) -> (r: ToolCall)
    ensures
        r@ == tool_call_of(req@),
{
    let name = extract_tool_name(req);
    if same_text(name, "get_status") {
        ToolCall::Run(text("status"))
    } else if same_text(name, "list_downloads") {
        ToolCall::Run(text("show DL"))
    } else if same_text(name, "add_link") {
        let link = extract_link(req);
        if is_valid_link(link) {
            ToolCall::Run(joined("Add ", link))
        } else {
            ToolCall::Answer(text("Error: El enlace no tiene un formato válido"))
        }
    } else if same_text(name, "pause_download") {
        per_download_call("Pause", extract_hash(req))
    } else if same_text(name, "pause_all_downloads") {
        ToolCall::Run(text("Pause all"))
    } else if same_text(name, "resume_download") {
        per_download_call("Resume", extract_hash(req))
    } else if same_text(name, "resume_all_downloads") {
        ToolCall::Run(text("Resume all"))
    } else if same_text(name, "cancel_download") {
        per_download_call("Cancel", extract_hash(req))
    } else if same_text(name, "cancel_all_downloads") {
        ToolCall::Run(text("Cancel all"))
    } else if same_text(name, "set_priority") {
        let hash = extract_hash(req);
        let priority = extract_priority(req);
        if hash.is_empty() {
            ToolCall::Answer(text("Error: Hash requerido"))
        } else if !is_valid_priority(priority) {
            ToolCall::Answer(text("Error: Prioridad inválida. Usa: Low, Normal, High o Auto"))
        } else {
            let prio = normalize_priority(priority);
            let mut action = joined("Priority ", hash);
            action.append(" ");
            action.append(prio);
            ToolCall::Run(action)
        }
    } else if same_text(name, "set_priority_all") {
        let priority = extract_priority(req);
        if !is_valid_priority(priority) {
            ToolCall::Answer(text("Error: Prioridad inválida. Usa: Low, Normal, High o Auto"))
        } else {
            ToolCall::Run(joined("Priority all ", normalize_priority(priority)))
        }
    } else {
        ToolCall::Answer(joined("Herramienta desconocida: ", name))
    }
}

/// What the server does with a request.
pub enum Step {
    /// Nothing: the request carries no `id`.
    Ignore,
    /// Sends this response.
    Reply(Json),
    /// Runs the aMule command `action`, then answers request `id` with what came of it.
    Run { id: Json, action: String },
}

/// The value of a [`Step`].
pub ghost enum StepValue {
    Ignore,
    Reply(JsonValue),
    Run { id: JsonValue, action: Seq<char> },
}

impl View for Step {
    type V = StepValue;

    open spec fn view(&self) -> StepValue {
        match self {
            Step::Ignore => StepValue::Ignore,
            Step::Reply(r) => StepValue::Reply(r@),
            Step::Run { id, action } => StepValue::Run { id: id@, action: action@ },
        }
    }
}

/// The method that a request names, or nothing.
pub open spec fn method_of(req: JsonValue) -> Seq<char> {
    text_or_empty(member(req, "method"@))
}

/// What the server does with request `req`.
pub open spec fn step_for(req: JsonValue) -> StepValue {
    match member(req, "id"@) {
        None => StepValue::Ignore,
        Some(id) => {
            let method = method_of(req);
            if method == "initialize"@ {
                StepValue::Reply(initialize_response(id))
            } else if method == "tools/list"@ {
                StepValue::Reply(tools_list_response(id))
            } else if method == "tools/call"@ {
                match tool_call_of(req) {
                    ToolCallValue::Answer(t) => StepValue::Reply(success_response(id, t)),
                    ToolCallValue::Run(action) => StepValue::Run { id, action },
                }
            } else {
                StepValue::Reply(error_response(id, -32601, "Method not found"@))
            }
        },
    }
}

/// Decides what the server does with request `req`.
pub fn handle_request(req: &Json) -> (r: Step)
    ensures
        r@ == step_for(req@),
{
    match req.get("id") {
        None => Step::Ignore,
        Some(id) => {
            let method = text_or_empty_str(req.get("method"));
            if same_text(method, "initialize") {
                Step::Reply(build_initialize_response(id))
            } else if same_text(method, "tools/list") {
                Step::Reply(build_tools_list_response(id))
            } else if same_text(method, "tools/call") {
                match plan_tool_call(req) {
                    ToolCall::Answer(t) => Step::Reply(build_success_response(id, t.as_str())),
                    ToolCall::Run(action) => Step::Run { id: id.clone(), action },
                }
            } else {
                Step::Reply(build_error_response(id, -32601, "Method not found"))
            }
        },
    }
}

/// What came of running an aMule command through `docker exec`.
pub enum CommandOutcome {
    /// The command ran and exited; its output streams, as text.
    Exited { success: bool, stdout: String, stderr: String },
    /// The command could not be started; the error's description.
    NotStarted { error: String },
}

/// The text that reports what came of a command.
pub open spec fn outcome_text(outcome: CommandOutcome) -> Seq<char> {
    match outcome {
        CommandOutcome::Exited { success, stdout, stderr } => if success {
            stdout@
        } else {
            "Error de amulecmd: "@ + stderr@
        },
        CommandOutcome::NotStarted { error } => "Error al ejecutar docker: "@ + error@,
    }
}

/// The text that reports what came of a command: its output where it succeeded,
/// its error output or the reason it did not start otherwise.
pub fn outcome_report(outcome: &CommandOutcome) -> (r: String)
    ensures
        r@ == outcome_text(*outcome),
{
    match outcome {
        CommandOutcome::Exited { success, stdout, stderr } => if *success {
            stdout.clone()
        } else {
            joined("Error de amulecmd: ", stderr.as_str())
        },
        CommandOutcome::NotStarted { error } => joined("Error al ejecutar docker: ", error.as_str()),
    }
}

/// The response to tool call `id` once its command has run.
pub fn complete_tool_call(id: &Json, outcome: &CommandOutcome) -> (r: Json)
    ensures
        r@ == success_response(id@, outcome_text(*outcome)),
{
    let report = outcome_report(outcome);
    build_success_response(id, report.as_str())
}

/// The arguments of `docker` that run aMule command `action` in `container`.
pub open spec fn docker_arguments(container: Seq<char>, password: Seq<char>, action: Seq<char>) -> Seq<Seq<char>> {
    seq!["exec"@, "-i"@, container, "amulecmd"@, "-P"@, password, "-c"@, action]
}

/// Builds the arguments of `docker` that run aMule command `action` in
/// `container`, authenticating with `password`.
pub fn docker_args(container: &str, password: &str, action: &str) -> (r: Vec<String>)
    ensures
        r@.map_values(|a: String| a@) == docker_arguments(container@, password@, action@),
        r@.len() == 8,
        r@[0]@ == "exec"@,
        r@[1]@ == "-i"@,
        r@[2]@ == container@,
        r@[3]@ == "amulecmd"@,
        r@[4]@ == "-P"@,
        r@[5]@ == password@,
        r@[6]@ == "-c"@,
        r@[7]@ == action@,
{
    let r = vec![
        text("exec"),
        text("-i"),
        text(container),
        text("amulecmd"),
        text("-P"),
        text(password),
        text("-c"),
        text(action),
    ];
    assert(r@.map_values(|a: String| a@) =~= docker_arguments(container@, password@, action@));
    r
}

/// The container that runs aMule: the configured one, or `amule`.
pub fn container_name(configured: Option<String>) -> (r: String)
    ensures
        r@ == match configured {
            Some(c) => c@,
            None => "amule"@,
        },
{
    match configured {
        Some(c) => c,
        None => text("amule"),
    }
}

} // verus!
