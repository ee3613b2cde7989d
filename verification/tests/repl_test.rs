use telegram_cli::commands::repl::{
    classify_repl_input, parse_repl_command, render_repl_banner, render_send_success,
    render_unknown_command, render_wait_success, repl_completions, render_usage_error,
    ReplCommand, ReplInput,
};

#[test]
fn repl_banner_uses_repl_guidance_contract() {
    let banner = render_repl_banner("QA Bot", 42);
    assert!(banner.contains("GUIDANCE_KIND: repl_help"));
    assert!(banner.contains("COMMAND_PATH: telegram-agent-cli repl"));
    assert!(banner.contains("ACTIONS:"));
    assert!(banner.contains("EXAMPLES:"));
}

#[test]
fn repl_unknown_command_guidance_is_structured() {
    let guidance = render_unknown_command("nope");
    assert!(guidance.contains("COMMAND_PATH: telegram-agent-cli repl"));
    assert!(guidance.contains("STATUS: error"));
    assert!(guidance.contains("Unknown interactive command /nope."));
    assert!(!guidance.contains("\"status\""));
}

#[test]
fn repl_default_renderers_stay_human_readable() {
    let send = render_send_success(42);
    assert!(send.contains("COMMAND_PATH: telegram-agent-cli repl"));
    assert!(send.contains("SUMMARY: Interactive message was sent with message id 42."));
    assert!(!send.contains("\"status\""));

    let wait = render_wait_success("hello");
    assert!(wait.contains("Interactive wait matched the message: hello"));
    assert!(!wait.contains("\"status\""));
}

#[test]
fn repl_helper_completes_known_slash_commands() {
    let candidates = repl_completions("/he", 3);
    assert!(candidates.iter().any(|candidate| candidate.replacement == "/help"));
}

#[test]
fn repl_completion_ignores_plain_text() {
    assert!(repl_completions("hello", 2).is_empty());
    let all = repl_completions("/", 1);
    assert_eq!(all.len(), 10);
    assert_eq!(all[0].display, "/send   -- Send a message: /send <text>");
}

#[test]
fn handle_command_dispatches_send_without_leading_slash() {
    assert_eq!(parse_repl_command("send /start"), ReplCommand::Send("/start".into()));
}

#[test]
fn repl_command_parsing_covers_every_command() {
    assert_eq!(parse_repl_command("send"), ReplCommand::Usage("/send <text>".into()));
    assert_eq!(parse_repl_command("recv"), ReplCommand::Recv(5));
    assert_eq!(parse_repl_command("recv 12"), ReplCommand::Recv(12));
    assert_eq!(parse_repl_command("recv lots"), ReplCommand::Recv(5));
    assert_eq!(parse_repl_command("wait hi there"), ReplCommand::Wait("hi there".into()));
    assert_eq!(parse_repl_command("actions"), ReplCommand::Actions(None));
    assert_eq!(parse_repl_command("actions -7"), ReplCommand::Actions(Some(-7)));
    assert_eq!(parse_repl_command("actions x"), ReplCommand::Actions(None));
    assert_eq!(parse_repl_command("click"), ReplCommand::Usage("/click <button>".into()));
    assert_eq!(parse_repl_command("trigger go"), ReplCommand::Trigger("go".into()));
    assert_eq!(parse_repl_command("unread"), ReplCommand::Unread);
    assert_eq!(parse_repl_command("zap 1"), ReplCommand::Unknown("zap".into()));
}

#[test]
fn repl_input_classification() {
    assert_eq!(classify_repl_input("   "), ReplInput::Empty);
    assert_eq!(classify_repl_input(" /exit "), ReplInput::Exit);
    assert_eq!(classify_repl_input("/quit"), ReplInput::Exit);
    assert_eq!(classify_repl_input("/help"), ReplInput::Help);
    assert_eq!(classify_repl_input("/recv 3"), ReplInput::Command("recv 3".into()));
    assert_eq!(classify_repl_input(" hi "), ReplInput::Text("hi".into()));
}

#[test]
fn repl_usage_error_table_is_exact() {
    let text = render_usage_error("/wait <text>");
    assert_eq!(
        text,
        "COMMAND_PATH: telegram-agent-cli repl\nSTATUS: error\nSUMMARY: Command failed.\nDATA:\nnull\nNEXT_STEPS:\n- next_step => Run /help to inspect the interactive command set.\nERRORS:\n- runtime_error: Interactive command usage is invalid. Expected: /wait <text>"
    );
}
