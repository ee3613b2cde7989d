use telegram_cli::commands::message::parse_timeout;
use telegram_cli::commands::repl::{render_repl_error, render_send_success};
use telegram_cli::output::contract::{GuidanceKind, HelpCommandEntry, HelpOptionEntry};
use telegram_cli::output::format::OutputFormat;
use telegram_cli::output::guidance::{
    help_surface_for_path, render_help_document_for_path, render_help_for_path,
    render_help_for_path_with_format, repl_surface, ParsedCommandInfo,
};
use telegram_cli::output::render::render_value;

fn words(path: &[&str]) -> Vec<String> {
    path.iter().map(|w| w.to_string()).collect()
}

fn parsed(usage: &str, commands: &[&str]) -> ParsedCommandInfo {
    ParsedCommandInfo {
        usage: usage.into(),
        long_help: String::new(),
        commands: commands
            .iter()
            .map(|name| HelpCommandEntry { name: name.to_string(), summary: String::new() })
            .collect(),
        arguments: Vec::new(),
        options: Vec::new(),
    }
}

#[test]
fn structured_help_json_supports_daemon_leaf() {
    let path = words(&["daemon", "status"]);
    let doc = render_help_document_for_path(&path, parsed("Usage: telegram-agent-cli daemon status", &[])).unwrap();
    assert_eq!(doc.command, "telegram-agent-cli daemon status");
    assert!(!doc.summary.is_empty());
    let json = render_value(&doc.to_json(), OutputFormat::Json).unwrap();
    assert!(json.contains("\"command\": \"telegram-agent-cli daemon status\""));
    assert!(json.contains("\"summary\":"));
}

#[test]
fn daemon_group_and_leaves_have_help_surfaces() {
    let group = help_surface_for_path(&words(&["daemon"])).unwrap();
    assert_eq!(group.guidance_kind, GuidanceKind::CommandGroupHelp);
    assert_eq!(group.command_path.as_deref(), Some("telegram-agent-cli daemon"));
    for leaf in ["start", "stop", "restart", "status"] {
        let surface = help_surface_for_path(&words(&["daemon", leaf])).unwrap();
        assert_eq!(surface.guidance_kind, GuidanceKind::LeafHelp);
        assert_eq!(surface.command_path, Some(format!("telegram-agent-cli daemon {leaf}")));
    }
}

#[test]
fn help_document_carries_the_surface_texts() {
    let path = words(&["send"]);
    let surface = help_surface_for_path(&path).unwrap();
    let doc = render_help_document_for_path(&path, parsed("Usage: telegram-agent-cli send", &[])).unwrap();
    assert_eq!(doc.summary, surface.summary);
    assert_eq!(doc.before_you_run_it, surface.prerequisites);
    assert_eq!(doc.examples, surface.examples);
    assert_eq!(doc.see_also, surface.related_commands);
    assert_eq!(doc.try_next, surface.next_steps);
    assert!(doc.examples.iter().any(|e| e.contains("--reply-keyboard '[\"Yes\",\"No\"]'")));
}

#[test]
fn top_level_help_document_and_unknown_path() {
    let doc = render_help_document_for_path(&[], parsed("Usage: telegram-agent-cli", &["account", "daemon", "message", "repl"]))
        .unwrap();
    assert_eq!(doc.command, "telegram-agent-cli");
    assert!(!doc.summary.is_empty());
    let names: Vec<&str> = doc.commands.iter().map(|c| c.name.as_str()).collect();
    assert!(names.contains(&"daemon"));
    let err = render_help_document_for_path(&words(&["nope"]), parsed("", &[])).unwrap_err();
    assert_eq!(err.to_string(), "unsupported help path: nope");
}

#[test]
fn repl_surface_lists_its_commands() {
    let s = repl_surface();
    assert_eq!(s.guidance_kind, GuidanceKind::ReplHelp);
    assert_eq!(s.command_path.as_deref(), Some("telegram-agent-cli repl"));
    assert!(s.status.is_none());
    assert_eq!(s.actions.len(), 9);
    assert_eq!(s.actions[0], "/send <text>: Send one text message in the active chat.");
    assert_eq!(s.examples[0], "/send /start");
    assert_eq!(repl_surface(), s);
}

#[test]
fn repl_outcome_tables_name_their_next_steps() {
    let send = render_send_success(42);
    assert!(send.contains("Run /recv 5 to inspect recent replies."));
    assert!(send.contains("Run /wait <text> to block on one matching reply."));
    let error = render_repl_error("boom");
    assert!(error.contains("boom"));
    assert!(error.contains("Run /help to inspect the interactive command set."));
    assert!(error.contains("Run /exit to leave the REPL if the current chat context is wrong."));
}

#[test]
fn timeout_with_too_many_digits_is_refused_before_parsing() {
    let err = parse_timeout("18446744073709551615s 1000ms").unwrap_err();
    assert_eq!(err.to_string(), "invalid timeout duration: duration is too large");
    let ok = parse_timeout("99999999999s").unwrap();
    assert_eq!(ok.secs, 99_999_999_999);
    assert_eq!(ok.nanos, 0);
    let padded = parse_timeout("000000000005s").unwrap();
    assert_eq!(padded.secs, 5);
    let spaced = parse_timeout("0000000000001m 30s").unwrap();
    assert_eq!(spaced.secs, 90);
    let mixed = parse_timeout("1h 30m 15s 500ms 20us 100ns").unwrap();
    assert_eq!(mixed.secs, 5415);
    assert_eq!(mixed.nanos, 500_020_100);
    let many = parse_timeout("99999999999s 99999999999s 99999999999s").unwrap();
    assert_eq!(many.secs, 299_999_999_997);
}

fn help_text(path: &[&str], info: ParsedCommandInfo, format: OutputFormat) -> String {
    let doc = render_help_document_for_path(&words(path), info).unwrap();
    render_value(&doc.to_json(), format).unwrap()
}

#[test]
fn structured_help_yaml() {
    let out = help_text(&[], parsed("Usage: telegram-agent-cli [COMMAND]", &["account"]), OutputFormat::Yaml);
    assert!(out.contains("command:"));
    assert!(out.contains("summary:"));
}

#[test]
fn structured_help_json() {
    let out = help_text(&[], parsed("Usage: telegram-agent-cli [COMMAND]", &["account"]), OutputFormat::Json);
    assert!(out.contains("\"command\":"));
    assert!(out.contains("\"summary\":"));
}

#[test]
fn structured_help_json_supports_bot_group() {
    let out = help_text(&["bot"], parsed("Usage: telegram-agent-cli bot <COMMAND>", &["set-commands", "set-info"]), OutputFormat::Json);
    assert!(out.contains("\"command\": \"telegram-agent-cli bot\""));
}

#[test]
fn structured_help_toml() {
    let out = help_text(&[], parsed("Usage: telegram-agent-cli [COMMAND]", &["account"]), OutputFormat::Toml);
    assert!(out.contains("command = "));
    assert!(out.contains("summary = "));
}

#[test]
fn help_subcommand_lists_subcommands() {
    let out = help_text(&[], parsed("Usage: telegram-agent-cli [COMMAND]", &["account", "daemon", "message", "repl"]), OutputFormat::Yaml);
    assert!(out.contains("account:"));
    assert!(out.contains("daemon:"));
    assert!(out.contains("message:"));
    assert!(out.contains("repl:"));
}

#[test]
fn help_leaf_command_returns_details() {
    let mut info = parsed("Usage: telegram-agent-cli send [OPTIONS] --to <TO>", &[]);
    info.options.push(HelpOptionEntry { flag: "--to <TO>".into(), help: "Target peer".into(), required: true, defaults: Vec::new() });
    let out = help_text(&["send"], info, OutputFormat::Yaml);
    assert!(out.contains("command:"));
    assert!(out.contains("options:"));
}

#[test]
fn repl_help_from_help_subcommand_stays_plain_text() {
    let mut info = parsed("Usage: telegram-agent-cli repl [OPTIONS]", &[]);
    info.long_help = "Open an interactive session\n\nUsage: telegram-agent-cli repl [OPTIONS]\n\n".into();
    let out = render_help_for_path_with_format(&words(&["repl"]), OutputFormat::Table, info).unwrap();
    assert!(out.contains("Usage: telegram-agent-cli repl"));
    assert!(!out.contains("\"command\":"));
    assert!(out.contains("\n\nExamples:\n- "));
    assert!(out.contains("\n\nTry next:\n- "));
}

#[test]
fn help_renderers_agree_on_the_requested_format() {
    let args = words(&["help", "--format", "toml"]);
    let via_args = render_help_for_path(&[], &args, parsed("Usage: telegram-agent-cli", &["account"])).unwrap();
    let direct = render_help_for_path_with_format(&[], OutputFormat::Toml, parsed("Usage: telegram-agent-cli", &["account"])).unwrap();
    assert_eq!(via_args, direct);
    assert!(via_args.contains("command = "));
    assert!(via_args.contains("summary = "));
    let yaml = render_help_for_path(&[], &[], parsed("Usage: telegram-agent-cli", &["account"])).unwrap();
    assert!(yaml.contains("command:"));
    assert!(yaml.contains("summary:"));
}
