use telegram_cli::output::guidance::{option_display, positional_display};
use telegram_cli::json::JsonValue;
use telegram_cli::output::contract::{NextStep, ResultEnvelope};
use telegram_cli::output::format::OutputFormat;
use telegram_cli::output::render::{
    cell_value, insert_blank_lines_between_yaml_sections, render_envelope, render_ndjson,
    render_table_plain, render_toml_ordered, render_value, toml_inline, toml_key, toml_quote,
};
use telegram_cli::output::stream::{render_ndjson_events, StreamEvent};

fn s(t: &str) -> JsonValue {
    JsonValue::Str(t.into())
}

fn n(t: &str) -> JsonValue {
    JsonValue::Number(t.into())
}

fn obj(entries: Vec<(&str, JsonValue)>) -> JsonValue {
    JsonValue::Object(entries.into_iter().map(|(k, v)| (k.to_string(), v)).collect())
}

#[test]
fn toml_strings_and_keys_are_escaped() {
    assert_eq!(toml_quote("a\"b\\c\nd\te"), "\"a\\\"b\\\\c\\nd\\te\"");
    assert_eq!(toml_key("plain_key-1"), "plain_key-1");
    assert_eq!(toml_key("has space"), "\"has space\"");
    assert_eq!(toml_key(""), "\"\"");
}

#[test]
fn toml_inline_values() {
    assert_eq!(toml_inline(&JsonValue::Null), "false");
    assert_eq!(toml_inline(&JsonValue::Array(vec![n("1"), s("x")])), "[1, \"x\"]");
    assert_eq!(toml_inline(&obj(vec![("a", n("1")), ("b c", JsonValue::Bool(true))])), "{ a = 1, \"b c\" = true }");
    assert_eq!(toml_inline(&obj(vec![])), "{  }");
}

#[test]
fn toml_document_keeps_field_order_with_dotted_keys() {
    let doc = obj(vec![
        ("command", s("telegram-agent-cli paths")),
        ("status", s("ok")),
        ("data", obj(vec![("config", obj(vec![("path", s("/c")), ("user_scoped", JsonValue::Bool(true))]))])),
        ("next_steps", JsonValue::Array(vec![obj(vec![("action", s("a")), ("command", s("b"))])])),
        ("errors", JsonValue::Array(vec![])),
        ("missing", JsonValue::Null),
        ("one", JsonValue::Array(vec![s("x")])),
        ("two", JsonValue::Array(vec![s("x"), s("y")])),
    ]);
    let expected = "command = \"telegram-agent-cli paths\"\n\
status = \"ok\"\n\
\n\
data.config.path = \"/c\"\n\
data.config.user_scoped = true\n\
\n\
next_steps = [\n  { action = \"a\", command = \"b\" },\n]\n\
\n\
errors = []\n\
one = [\"x\"]\n\
two = [\n  \"x\",\n  \"y\",\n]\n";
    assert_eq!(render_toml_ordered(&doc), expected);
    assert_eq!(render_toml_ordered(&s("x")), "\"x\"\n");
}

#[test]
fn yaml_sections_get_blank_lines_between_them() {
    let rendered = "command: x\nstatus: ok\ndata:\n  a: 1\nnext_steps:\n- action: b\n";
    assert_eq!(
        insert_blank_lines_between_yaml_sections(rendered),
        "command: x\n\nstatus: ok\n\ndata:\n  a: 1\n\nnext_steps:\n- action: b\n"
    );
    assert_eq!(insert_blank_lines_between_yaml_sections(""), "");
    assert_eq!(insert_blank_lines_between_yaml_sections("a: 1\r\n\nb: 2"), "a: 1\n\nb: 2\n");
}

#[test]
fn plain_table_layout_and_cells() {
    assert_eq!(cell_value(&JsonValue::Null), "null");
    assert_eq!(cell_value(&JsonValue::Array(vec![n("1"), n("2")])), "[1,2]");
    assert_eq!(render_table_plain(&obj(vec![("a", n("1")), ("b", s("x"))])), "a: 1\nb: x");
    let rows = JsonValue::Array(vec![obj(vec![("id", n("1")), ("ok", JsonValue::Bool(true))]), s("tail")]);
    assert_eq!(render_table_plain(&rows), "id=1 ok=true\ntail");
}

#[test]
fn ndjson_writes_one_row_per_element() {
    let rows = JsonValue::Array(vec![obj(vec![("a", n("1"))]), s("x")]);
    assert_eq!(render_ndjson(&rows), "{\"a\":1}\n\"x\"");
    assert_eq!(render_ndjson(&n("5")), "5");
    assert_eq!(render_value(&rows, OutputFormat::Ndjson).unwrap(), "{\"a\":1}\n\"x\"");
}

#[test]
fn json_and_yaml_formats_render_values() {
    let v = obj(vec![("a", n("1"))]);
    assert_eq!(render_value(&v, OutputFormat::Json).unwrap(), "{\n  \"a\": 1\n}");
    assert_eq!(render_value(&v, OutputFormat::Yaml).unwrap(), "a: 1\n");
    assert_eq!(render_value(&v, OutputFormat::Toml).unwrap(), "a = 1\n");
}

#[test]
fn envelopes_render_as_tables_or_documents() {
    let envelope = ResultEnvelope::success(
        "telegram-agent-cli paths",
        "Runtime directories collected.",
        obj(vec![("token", s("secret"))]),
        vec![NextStep::new("inspect_context", "telegram-agent-cli context show")],
    );
    let table = render_envelope(&envelope, OutputFormat::Table).unwrap();
    assert!(table.contains("Runtime directories collected."));
    let json = render_envelope(&envelope, OutputFormat::Json).unwrap();
    assert!(json.contains("[REDACTED]"));
    assert!(!json.contains("secret"));
}

#[test]
fn ndjson_event_streams_mark_the_last_event() {
    let events = vec![
        StreamEvent { event: "run_event".into(), summary: "one".into(), data: n("1") },
        StreamEvent { event: "run_event".into(), summary: "two".into(), data: n("2") },
    ];
    let text = render_ndjson_events(
        "telegram-agent-cli export",
        events,
        Some(NextStep::new("run_scenario", "telegram-agent-cli run <path>")),
    )
    .unwrap();
    let lines: Vec<&str> = text.lines().collect();
    assert_eq!(lines.len(), 2);
    assert!(lines[0].contains("\"sequence\":1"));
    assert!(lines[0].contains("\"final\":false"));
    assert!(lines[1].contains("\"sequence\":2"));
    assert!(lines[1].contains("\"final\":true"));
    assert!(lines[1].contains("run_scenario"));
    assert!(!lines[0].contains("run_scenario"));
}

#[test]
fn option_display_shows_short_long_and_value() {
    let shown = option_display(Some('a'), Some("account"), "account", true, &None);
    assert_eq!(shown, "-a, --account <ACCOUNT>");
    let flag_only = option_display(None, Some("json"), "json", false, &None);
    assert_eq!(flag_only, "--json");
    let bare = option_display(None, None, "limit", true, &Some(vec!["N".to_string()]));
    assert_eq!(bare, "limit <N>");
}

#[test]
fn positional_display_uses_value_names_or_upper_id() {
    assert_eq!(positional_display(&None, "peer"), "<PEER>");
    let names = Some(vec!["FROM".to_string(), "TO".to_string()]);
    assert_eq!(positional_display(&names, "range"), "<FROM> <TO>");
}
