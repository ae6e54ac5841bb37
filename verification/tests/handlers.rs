use amule_mcp::json::{Json, JsonNumber};
use amule_mcp::request::{extract_hash, extract_link, extract_priority, extract_tool_name};
use amule_mcp::response::{build_error_response, build_success_response};
use amule_mcp::validate::{is_valid_link, is_valid_priority, normalize_priority};

fn s(text: &str) -> Json {
    Json::Str(text.to_string())
}

fn obj(members: Vec<(&str, Json)>) -> Json {
    Json::Object(members.into_iter().map(|(k, v)| (k.to_string(), v)).collect())
}

fn num(n: i64) -> Json {
    if n < 0 {
        Json::Number(JsonNumber::NegInt(n))
    } else {
        Json::Number(JsonNumber::PosInt(n as u64))
    }
}

fn field<'a>(j: &'a Json, key: &str) -> &'a Json {
    j.get(key).expect("member present")
}

fn item(j: &Json, i: usize) -> &Json {
    match j {
        Json::Array(items) => &items[i],
        _ => panic!("not an array"),
    }
}

#[test]
fn test_is_valid_link_ed2k() {
    assert!(is_valid_link("ed2k://|file|test.avi|123456|hash|/"));
}

#[test]
fn test_is_valid_link_magnet() {
    assert!(is_valid_link("magnet:?xt=urn:btih:abc123"));
}

#[test]
fn test_is_valid_link_invalid() {
    assert!(!is_valid_link("http://example.com"));
    assert!(!is_valid_link("ftp://files.com"));
    assert!(!is_valid_link(""));
    assert!(!is_valid_link("ed2k"));
}

#[test]
fn test_extract_tool_name() {
    let req = obj(vec![("params", obj(vec![("name", s("get_status")), ("arguments", obj(vec![]))]))]);
    assert_eq!(extract_tool_name(&req), "get_status");
}

#[test]
fn test_extract_tool_name_missing() {
    let req = obj(vec![]);
    assert_eq!(extract_tool_name(&req), "");
}

#[test]
fn test_extract_tool_name_no_params() {
    let req = obj(vec![("method", s("tools/call"))]);
    assert_eq!(extract_tool_name(&req), "");
}

#[test]
fn test_extract_link() {
    let req = obj(vec![(
        "params",
        obj(vec![
            ("name", s("add_link")),
            ("arguments", obj(vec![("link", s("ed2k://|file|test.avi|123|hash|/"))])),
        ]),
    )]);
    assert_eq!(extract_link(&req), "ed2k://|file|test.avi|123|hash|/");
}

#[test]
fn test_extract_link_missing() {
    let req = obj(vec![("params", obj(vec![("name", s("add_link")), ("arguments", obj(vec![]))]))]);
    assert_eq!(extract_link(&req), "");
}

#[test]
fn test_extract_link_no_arguments() {
    let req = obj(vec![("params", obj(vec![("name", s("add_link"))]))]);
    assert_eq!(extract_link(&req), "");
}

#[test]
fn test_build_error_response() {
    let id = num(1);
    let response = build_error_response(&id, -32601, "Method not found");

    assert_eq!(field(&response, "jsonrpc"), &s("2.0"));
    assert_eq!(field(&response, "id"), &num(1));
    assert_eq!(field(field(&response, "error"), "code"), &num(-32601));
    assert_eq!(field(field(&response, "error"), "message"), &s("Method not found"));
}

#[test]
fn test_build_error_response_string_id() {
    let id = s("abc-123");
    let response = build_error_response(&id, -32600, "Invalid request");

    assert_eq!(field(&response, "id"), &s("abc-123"));
    assert_eq!(field(field(&response, "error"), "code"), &num(-32600));
}

#[test]
fn test_build_success_response() {
    let id = num(42);
    let response = build_success_response(&id, "OK: Connected");

    assert_eq!(field(&response, "jsonrpc"), &s("2.0"));
    assert_eq!(field(&response, "id"), &num(42));
    let content = item(field(field(&response, "result"), "content"), 0);
    assert_eq!(field(content, "type"), &s("text"));
    assert_eq!(field(content, "text"), &s("OK: Connected"));
}

#[test]
fn test_build_success_response_multiline() {
    let id = num(1);
    let text = "Line 1\nLine 2\nLine 3";
    let response = build_success_response(&id, text);

    let content = item(field(field(&response, "result"), "content"), 0);
    assert_eq!(field(content, "text"), &s(text));
}

#[test]
fn test_build_success_response_empty() {
    let id = num(1);
    let response = build_success_response(&id, "");

    let content = item(field(field(&response, "result"), "content"), 0);
    assert_eq!(field(content, "text"), &s(""));
}

#[test]
fn test_extract_hash() {
    let req = obj(vec![(
        "params",
        obj(vec![("name", s("pause_download")), ("arguments", obj(vec![("hash", s("ABC123DEF456"))]))]),
    )]);
    assert_eq!(extract_hash(&req), "ABC123DEF456");
}

#[test]
fn test_extract_hash_missing() {
    let req = obj(vec![("params", obj(vec![("name", s("pause_download")), ("arguments", obj(vec![]))]))]);
    assert_eq!(extract_hash(&req), "");
}

#[test]
fn test_extract_hash_no_arguments() {
    let req = obj(vec![("params", obj(vec![("name", s("pause_download"))]))]);
    assert_eq!(extract_hash(&req), "");
}

#[test]
fn test_extract_priority() {
    let req = obj(vec![(
        "params",
        obj(vec![
            ("name", s("set_priority")),
            ("arguments", obj(vec![("hash", s("ABC123")), ("priority", s("High"))])),
        ]),
    )]);
    assert_eq!(extract_priority(&req), "High");
}

#[test]
fn test_extract_priority_missing() {
    let req = obj(vec![(
        "params",
        obj(vec![("name", s("set_priority")), ("arguments", obj(vec![("hash", s("ABC123"))]))]),
    )]);
    assert_eq!(extract_priority(&req), "");
}

#[test]
fn test_is_valid_priority_low() {
    assert!(is_valid_priority("Low"));
    assert!(is_valid_priority("low"));
    assert!(is_valid_priority("LOW"));
}

#[test]
fn test_is_valid_priority_normal() {
    assert!(is_valid_priority("Normal"));
    assert!(is_valid_priority("normal"));
}

#[test]
fn test_is_valid_priority_high() {
    assert!(is_valid_priority("High"));
    assert!(is_valid_priority("high"));
}

#[test]
fn test_is_valid_priority_auto() {
    assert!(is_valid_priority("Auto"));
    assert!(is_valid_priority("auto"));
}

#[test]
fn test_is_valid_priority_invalid() {
    assert!(!is_valid_priority("urgent"));
    assert!(!is_valid_priority(""));
    assert!(!is_valid_priority("medium"));
}

#[test]
fn test_normalize_priority() {
    assert_eq!(normalize_priority("low"), "Low");
    assert_eq!(normalize_priority("LOW"), "Low");
    assert_eq!(normalize_priority("normal"), "Normal");
    assert_eq!(normalize_priority("HIGH"), "High");
    assert_eq!(normalize_priority("auto"), "Auto");
}
