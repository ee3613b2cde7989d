use telegram_cli::commands::mcp::{
    handle_request, json_get_exec, plan_tool_request, tool_definitions, McpRequest, McpStep,
    ToolCall,
};
use telegram_cli::json::JsonValue;

fn id_one() -> Option<JsonValue> {
    Some(JsonValue::Number("1".into()))
}

#[test]
fn tool_definitions_have_required_fields() {
    let tools = tool_definitions();
    assert!(!tools.is_empty());
    for tool in &tools {
        assert!(json_get_exec(tool, "name").is_some(), "tool missing name");
        assert!(json_get_exec(tool, "description").is_some(), "tool missing description");
        assert!(json_get_exec(tool, "inputSchema").is_some(), "tool missing inputSchema");
    }
}

#[test]
fn initialize_response_contains_server_info() {
    let req = McpRequest { id: id_one(), method: "initialize".into(), params: None };
    let resp = match handle_request(req, "0.1.0") {
        McpStep::Respond(resp) => resp,
        other => panic!("unexpected step {other:?}"),
    };
    let result = resp.result.unwrap();
    let info = json_get_exec(&result, "serverInfo").unwrap();
    assert_eq!(json_get_exec(info, "name"), Some(&JsonValue::Str("telegram-agent-cli".into())));
    assert_eq!(
        json_get_exec(&result, "protocolVersion"),
        Some(&JsonValue::Str("2024-11-05".into()))
    );
}

#[test]
fn tools_list_returns_all_tools() {
    let req = McpRequest { id: id_one(), method: "tools/list".into(), params: None };
    let resp = match handle_request(req, "0.1.0") {
        McpStep::Respond(resp) => resp,
        other => panic!("unexpected step {other:?}"),
    };
    let result = resp.result.unwrap();
    let tools = match json_get_exec(&result, "tools") {
        Some(JsonValue::Array(items)) => items,
        other => panic!("unexpected tools {other:?}"),
    };
    assert!(tools.len() >= 17, "expected at least 17 tools");
}

#[test]
fn notifications_are_not_answered_and_unknown_methods_fail() {
    let note = McpRequest { id: None, method: "notifications/initialized".into(), params: None };
    assert_eq!(handle_request(note, "0.1.0"), McpStep::Ignore);
    let req = McpRequest { id: id_one(), method: "nope".into(), params: None };
    match handle_request(req, "0.1.0") {
        McpStep::Respond(resp) => {
            let err = resp.error.unwrap();
            assert_eq!(err.code, -32601);
            assert_eq!(err.message, "Method not found: nope");
        }
        other => panic!("unexpected step {other:?}"),
    }
}

fn strings_of(value: &JsonValue) -> Vec<String> {
    match value {
        JsonValue::Array(items) => items
            .iter()
            .map(|item| match item {
                JsonValue::Str(text) => text.clone(),
                other => panic!("not a string: {other:?}"),
            })
            .collect(),
        other => panic!("not an array: {other:?}"),
    }
}

fn keys_of(value: &JsonValue) -> Vec<String> {
    match value {
        JsonValue::Object(entries) => entries.iter().map(|(k, _)| k.clone()).collect(),
        other => panic!("not an object: {other:?}"),
    }
}

#[test]
fn tool_schemas_require_only_declared_properties() {
    let tools = tool_definitions();
    assert_eq!(tools.len(), 17);
    for tool in &tools {
        let schema = json_get_exec(tool, "inputSchema").unwrap();
        let properties = keys_of(json_get_exec(schema, "properties").unwrap());
        if let Some(required) = json_get_exec(schema, "required") {
            for name in strings_of(required) {
                assert!(properties.contains(&name), "{name} is required but not declared");
            }
        }
    }
    let send = &tools[0];
    assert_eq!(json_get_exec(send, "name"), Some(&JsonValue::Str("send_message".into())));
    let schema = json_get_exec(send, "inputSchema").unwrap();
    assert_eq!(keys_of(json_get_exec(schema, "properties").unwrap()), vec!["account", "chat", "text"]);
    assert_eq!(strings_of(json_get_exec(schema, "required").unwrap()), vec!["chat", "text"]);
    let accounts = &tools[7];
    let schema = json_get_exec(accounts, "inputSchema").unwrap();
    assert!(json_get_exec(schema, "required").is_none());
}

fn args(entries: Vec<(&str, &str)>) -> JsonValue {
    JsonValue::Object(entries.into_iter().map(|(k, v)| (k.to_string(), JsonValue::Str(v.into()))).collect())
}

#[test]
fn tool_request_resolves_the_account_before_the_tool() {
    let no_default: Option<String> = None;
    for name in ["send_message", "no_such_tool"] {
        let err = plan_tool_request(name, &args(vec![("chat", "qa"), ("text", "hi")]), false, &no_default).unwrap_err();
        assert!(err.to_string().contains("no default account set"));
    }
    let stored = Some("alice".to_string());
    let (account, call) =
        plan_tool_request("send_message", &args(vec![("account", "default"), ("chat", "qa"), ("text", "hi")]), false, &stored)
            .unwrap();
    assert_eq!(account, "alice");
    assert_eq!(call, ToolCall::SendMessage { chat: "qa".into(), text: "hi".into() });
    let err = plan_tool_request("send_message", &args(vec![("account", "bob"), ("chat", "qa")]), false, &stored).unwrap_err();
    assert!(err.to_string().contains("account bob was not found"));
    let err = plan_tool_request("no_such_tool", &args(vec![("account", "bob")]), true, &stored).unwrap_err();
    assert!(err.to_string().contains("Unknown tool: no_such_tool"));
}
