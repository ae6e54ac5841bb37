use amule_mcp::catalog::{build_initialize_response, build_tools_list_response, tool_catalog_json};
use amule_mcp::json::{entry, Json, JsonNumber};
use amule_mcp::server::{
    complete_tool_call, container_name, docker_args, handle_request, outcome_report, plan_tool_call,
    CommandOutcome, Step, ToolCall,
};
use amule_mcp::text::{has_prefix, joined, same_text};
use amule_mcp::validate::{normalize_priority, priority_from_lowercase, Priority};

fn s(text: &str) -> Json {
    Json::Str(text.to_string())
}

fn obj(members: Vec<(&str, Json)>) -> Json {
    Json::Object(members.into_iter().map(|(k, v)| (k.to_string(), v)).collect())
}

fn field<'a>(j: &'a Json, key: &str) -> &'a Json {
    j.get(key).expect("member present")
}

fn call(id: i64, tool: &str, arguments: Vec<(&str, Json)>) -> Json {
    obj(vec![
        ("jsonrpc", s("2.0")),
        ("id", Json::Number(JsonNumber::PosInt(id as u64))),
        ("method", s("tools/call")),
        ("params", obj(vec![("name", s(tool)), ("arguments", obj(arguments))])),
    ])
}

fn text_of_reply(step: &Step) -> String {
    match step {
        Step::Reply(r) => {
            let content = field(field(r, "result"), "content");
            match content {
                Json::Array(items) => field(&items[0], "text").as_str().unwrap().to_string(),
                _ => panic!("content is not an array"),
            }
        },
        _ => panic!("not a reply"),
    }
}

fn action_of(step: &Step) -> String {
    match step {
        Step::Run { action, .. } => action.clone(),
        _ => panic!("not a command"),
    }
}

#[test]
fn notification_without_id_is_ignored() {
    let req = obj(vec![("method", s("tools/call")), ("params", obj(vec![("name", s("get_status"))]))]);
    assert!(matches!(handle_request(&req), Step::Ignore));
}

#[test]
fn null_id_is_still_answered() {
    let req = obj(vec![("id", Json::Null), ("method", s("ping"))]);
    match handle_request(&req) {
        Step::Reply(r) => {
            assert_eq!(field(&r, "id"), &Json::Null);
            assert_eq!(field(field(&r, "error"), "code"), &Json::Number(JsonNumber::NegInt(-32601)));
        },
        _ => panic!("expected a reply"),
    }
}

#[test]
fn unknown_method_is_refused() {
    let req = obj(vec![("id", s("x")), ("method", s("resources/list"))]);
    match handle_request(&req) {
        Step::Reply(r) => {
            assert_eq!(field(&r, "jsonrpc"), &s("2.0"));
            assert_eq!(field(&r, "id"), &s("x"));
            assert_eq!(field(field(&r, "error"), "message"), &s("Method not found"));
        },
        _ => panic!("expected a reply"),
    }
}

#[test]
fn initialize_names_the_server() {
    let req = obj(vec![("id", s("i")), ("method", s("initialize"))]);
    match handle_request(&req) {
        Step::Reply(r) => {
            assert_eq!(r, build_initialize_response(&s("i")));
            let result = field(&r, "result");
            assert_eq!(field(result, "protocolVersion"), &s("2024-11-05"));
            assert_eq!(field(field(result, "serverInfo"), "name"), &s("amule-mcp"));
            assert_eq!(field(field(result, "serverInfo"), "version"), &s("0.1.0"));
            assert_eq!(field(field(result, "capabilities"), "tools"), &obj(vec![]));
        },
        _ => panic!("expected a reply"),
    }
}

#[test]
fn tools_list_names_every_tool() {
    let req = obj(vec![("id", Json::Number(JsonNumber::PosInt(3))), ("method", s("tools/list"))]);
    let names = [
        "get_status",
        "list_downloads",
        "add_link",
        "pause_download",
        "pause_all_downloads",
        "resume_download",
        "resume_all_downloads",
        "cancel_download",
        "cancel_all_downloads",
        "set_priority",
        "set_priority_all",
    ];
    match handle_request(&req) {
        Step::Reply(r) => {
            assert_eq!(r, build_tools_list_response(&Json::Number(JsonNumber::PosInt(3))));
            let tools = field(field(&r, "result"), "tools");
            assert_eq!(tools, &tool_catalog_json());
            match tools {
                Json::Array(items) => {
                    assert_eq!(items.len(), names.len());
                    for (t, n) in items.iter().zip(names.iter()) {
                        assert_eq!(field(t, "name"), &s(n));
                        // every listed tool is one that a call handles
                        let step = handle_request(&call(1, n, vec![]));
                        if let Step::Reply(_) = step {
                            assert!(!text_of_reply(&step).starts_with("Herramienta desconocida"));
                        }
                    }
                },
                _ => panic!("tools is not an array"),
            }
        },
        _ => panic!("expected a reply"),
    }
}

#[test]
fn set_priority_schema_lists_the_priorities() {
    let tools = tool_catalog_json();
    let set_priority = match &tools {
        Json::Array(items) => &items[9],
        _ => panic!("not an array"),
    };
    let schema = field(set_priority, "inputSchema");
    assert_eq!(field(schema, "required"), &Json::Array(vec![s("hash"), s("priority")]));
    let priority = field(field(schema, "properties"), "priority");
    assert_eq!(
        field(priority, "enum"),
        &Json::Array(vec![s("Low"), s("Normal"), s("High"), s("Auto")])
    );
}

#[test]
fn commands_of_the_tools() {
    assert_eq!(action_of(&handle_request(&call(1, "get_status", vec![]))), "status");
    assert_eq!(action_of(&handle_request(&call(1, "list_downloads", vec![]))), "show DL");
    assert_eq!(action_of(&handle_request(&call(1, "pause_all_downloads", vec![]))), "Pause all");
    assert_eq!(action_of(&handle_request(&call(1, "resume_all_downloads", vec![]))), "Resume all");
    assert_eq!(action_of(&handle_request(&call(1, "cancel_all_downloads", vec![]))), "Cancel all");
    assert_eq!(
        action_of(&handle_request(&call(1, "pause_download", vec![("hash", s("AB12"))]))),
        "Pause AB12"
    );
    assert_eq!(
        action_of(&handle_request(&call(1, "resume_download", vec![("hash", s("AB12"))]))),
        "Resume AB12"
    );
    assert_eq!(
        action_of(&handle_request(&call(1, "cancel_download", vec![("hash", s("AB12"))]))),
        "Cancel AB12"
    );
}

#[test]
fn run_step_keeps_the_request_id() {
    match handle_request(&call(77, "get_status", vec![])) {
        Step::Run { id, action } => {
            assert_eq!(id, Json::Number(JsonNumber::PosInt(77)));
            assert_eq!(action, "status");
        },
        _ => panic!("expected a command"),
    }
}

#[test]
fn add_link_runs_only_valid_links() {
    let ok = handle_request(&call(1, "add_link", vec![("link", s("magnet:?xt=urn:btih:abc"))]));
    assert_eq!(action_of(&ok), "Add magnet:?xt=urn:btih:abc");
    let bad = handle_request(&call(1, "add_link", vec![("link", s("http://example.com"))]));
    assert_eq!(text_of_reply(&bad), "Error: El enlace no tiene un formato válido");
    let missing = handle_request(&call(1, "add_link", vec![]));
    assert_eq!(text_of_reply(&missing), "Error: El enlace no tiene un formato válido");
}

#[test]
fn download_tools_need_a_hash() {
    for tool in ["pause_download", "resume_download", "cancel_download", "set_priority"] {
        let step = handle_request(&call(1, tool, vec![("priority", s("high"))]));
        assert_eq!(text_of_reply(&step), "Error: Hash requerido");
        let step = handle_request(&call(1, tool, vec![("hash", s("")), ("priority", s("high"))]));
        assert_eq!(text_of_reply(&step), "Error: Hash requerido");
    }
}

#[test]
fn priority_tools_normalise_the_priority() {
    let step = handle_request(&call(
        1,
        "set_priority",
        vec![("hash", s("ABC123")), ("priority", s("HIGH"))],
    ));
    assert_eq!(action_of(&step), "Priority ABC123 High");
    let step = handle_request(&call(1, "set_priority_all", vec![("priority", s("auto"))]));
    assert_eq!(action_of(&step), "Priority all Auto");
}

#[test]
fn priority_tools_refuse_unknown_priorities() {
    let expected = "Error: Prioridad inválida. Usa: Low, Normal, High o Auto";
    let step = handle_request(&call(1, "set_priority", vec![("hash", s("ABC")), ("priority", s("urgent"))]));
    assert_eq!(text_of_reply(&step), expected);
    let step = handle_request(&call(1, "set_priority_all", vec![]));
    assert_eq!(text_of_reply(&step), expected);
}

#[test]
fn unknown_tool_is_named_in_the_answer() {
    let step = handle_request(&call(5, "reboot", vec![]));
    assert_eq!(text_of_reply(&step), "Herramienta desconocida: reboot");
    let step = handle_request(&obj(vec![("id", s("q")), ("method", s("tools/call"))]));
    assert_eq!(text_of_reply(&step), "Herramienta desconocida: ");
}

#[test]
fn plan_of_a_tool_call() {
    match plan_tool_call(&call(1, "set_priority_all", vec![("priority", s("Normal"))])) {
        ToolCall::Run(a) => assert_eq!(a, "Priority all Normal"),
        ToolCall::Answer(_) => panic!("expected a command"),
    }
    match plan_tool_call(&call(1, "nothing", vec![])) {
        ToolCall::Answer(t) => assert_eq!(t, "Herramienta desconocida: nothing"),
        ToolCall::Run(_) => panic!("expected an answer"),
    }
}

#[test]
fn docker_arguments_keep_the_action_whole() {
    let args = docker_args("amule", "secret", "Add ed2k://|file|a b.avi|1|h|/");
    assert_eq!(
        args,
        vec!["exec", "-i", "amule", "amulecmd", "-P", "secret", "-c", "Add ed2k://|file|a b.avi|1|h|/"]
    );
}

#[test]
fn container_defaults_to_amule() {
    assert_eq!(container_name(None), "amule");
    assert_eq!(container_name(Some("mule2".to_string())), "mule2");
}

#[test]
fn outcome_reports() {
    let ok = CommandOutcome::Exited { success: true, stdout: "Connected".to_string(), stderr: "x".to_string() };
    assert_eq!(outcome_report(&ok), "Connected");
    let failed = CommandOutcome::Exited { success: false, stdout: "x".to_string(), stderr: "bad password".to_string() };
    assert_eq!(outcome_report(&failed), "Error de amulecmd: bad password");
    let not_started = CommandOutcome::NotStarted { error: "No such file".to_string() };
    assert_eq!(outcome_report(&not_started), "Error al ejecutar docker: No such file");
}

#[test]
fn completed_call_answers_with_the_report() {
    let id = s("abc");
    let outcome = CommandOutcome::Exited { success: true, stdout: "Line 1\nLine 2".to_string(), stderr: String::new() };
    let r = complete_tool_call(&id, &outcome);
    assert_eq!(field(&r, "id"), &id);
    assert_eq!(field(&r, "jsonrpc"), &s("2.0"));
    let step = Step::Reply(r);
    assert_eq!(text_of_reply(&step), "Line 1\nLine 2");
}

#[test]
fn normalize_leaves_unknown_words() {
    assert_eq!(normalize_priority("urgent"), "urgent");
    assert_eq!(normalize_priority(""), "");
    assert_eq!(normalize_priority("Low"), "Low");
}

#[test]
fn priority_words() {
    assert_eq!(priority_from_lowercase("low"), Some(Priority::Low));
    assert_eq!(priority_from_lowercase("normal"), Some(Priority::Normal));
    assert_eq!(priority_from_lowercase("high"), Some(Priority::High));
    assert_eq!(priority_from_lowercase("auto"), Some(Priority::Auto));
    assert_eq!(priority_from_lowercase("LOW"), None);
    assert_eq!(Priority::Normal.name(), "Normal");
}

#[test]
fn text_operations() {
    assert!(same_text("añade", "añade"));
    assert!(!same_text("añade", "anade"));
    assert!(!same_text("ab", "abc"));
    assert!(has_prefix("ed2k://x", "ed2k://"));
    assert!(!has_prefix("ed2", "ed2k://"));
    assert!(has_prefix("x", ""));
    assert_eq!(joined("Add ", "ñ"), "Add ñ");
}

#[test]
fn lookup_finds_the_first_member() {
    let j = obj(vec![("k", s("first")), ("k", s("second"))]);
    assert_eq!(j.get("k"), Some(&s("first")));
    assert_eq!(j.get("missing"), None);
    assert_eq!(s("x").get("k"), None);
    assert_eq!(s("x").as_str(), Some("x"));
    assert_eq!(Json::Null.as_str(), None);
}

#[test]
fn clone_copies_every_member() {
    let j = obj(vec![
        ("a", Json::Array(vec![Json::Bool(true), Json::Number(JsonNumber::FloatBits(0x3ff0000000000000))])),
        ("b", obj(vec![("c", Json::Null)])),
    ]);
    assert_eq!(j.clone(), j);
    let built = Json::object(vec![entry("n", Json::integer(-5)), entry("m", Json::integer(5))]);
    assert_eq!(field(&built, "n"), &Json::Number(JsonNumber::NegInt(-5)));
    assert_eq!(field(&built, "m"), &Json::Number(JsonNumber::PosInt(5)));
    assert_eq!(Json::array(vec![Json::text("t")]), Json::Array(vec![s("t")]));
}
