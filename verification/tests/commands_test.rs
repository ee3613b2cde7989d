use telegram_cli::commands::account::{
    account_change_result, added_account_result, default_account, login_request,
    resolve_bot_token, resolve_secret_value, AccountChange,
};
use telegram_cli::commands::bot::{check_bot_info, parse_bot_commands, set_commands_output, set_commands_summary};
use telegram_cli::commands::context::{
    active_context_view, attach_active_context, effective_account, numeric_peer, resolve_account_name,
};
use telegram_cli::commands::daemon::{
    connection_step, daemon_paths, daemon_state, daemon_status_view, endpoint_for_port,
    parse_labeled_duration, rpc_outcome, start_poll, status_summary, stop_poll, ConnectionStep,
    DaemonMetadata, DaemonState, PollStep,
};
use telegram_cli::commands::doctor::{export_item, missing_run_error, parse_run_selector, RunSelector};
use telegram_cli::commands::mcp::McpRequest;
use telegram_cli::commands::message::{forward_summary, message_change_output, require_message_ids};
use telegram_cli::commands::peer::{alias_set_summary, scenario_summary};
use telegram_cli::config::paths::{AppPaths, DirOverrides, PlatformDirs, RuntimePathSource};
use telegram_cli::errors::TelegramCliError;
use telegram_cli::json::JsonValue;
use telegram_cli::storage::models::{AccountKind, AccountRecord, LoginState, RunEventRecord};
use telegram_cli::telegram::auth::LoginRequest;
use telegram_cli::telegram::peers::PeerKind;

fn message_of(e: TelegramCliError) -> String {
    match e {
        TelegramCliError::Message(m) => m,
        other => panic!("unexpected error {other:?}"),
    }
}

#[test]
fn default_context_resolution() {
    let stored = Some("alice".to_string());
    assert_eq!(effective_account(Some("bob"), true, &stored).unwrap().as_deref(), Some("bob"));
    assert_eq!(effective_account(Some("default"), true, &stored).unwrap().as_deref(), Some("alice"));
    assert_eq!(effective_account(None, false, &None).unwrap(), None);
    assert_eq!(message_of(effective_account(Some("zed"), false, &stored).unwrap_err()), "account zed was not found");
    assert_eq!(resolve_account_name("default", false, &stored).unwrap(), "alice");
    assert_eq!(
        message_of(resolve_account_name("default", false, &None).unwrap_err()),
        "no default account set; use `telegram-agent-cli account use <name>` to set one"
    );
    let view = active_context_view(Some("bob"), true, true, &stored).unwrap();
    assert!(view.override_applied);
    assert_eq!(view.set_default_hint, None);
    let view = active_context_view(Some("alice"), false, true, &stored).unwrap();
    assert!(!view.override_applied);
    let view = active_context_view(None, false, false, &None).unwrap();
    assert_eq!(view.set_default_hint.as_deref(), Some("telegram-agent-cli account use <name>"));
}

#[test]
fn context_is_attached_to_objects_or_wrapped_results() {
    let view = active_context_view(None, false, false, &None).unwrap();
    let data = JsonValue::Object(vec![("a".into(), JsonValue::Number("1".into()))]);
    match attach_active_context(data, &view) {
        JsonValue::Object(entries) => {
            assert_eq!(entries.len(), 2);
            assert_eq!(entries[1].0, "context");
        }
        other => panic!("unexpected {other:?}"),
    }
    match attach_active_context(JsonValue::Array(vec![]), &view) {
        JsonValue::Object(entries) => {
            assert_eq!(entries[0].0, "result");
            assert_eq!(entries[1].0, "context");
        }
        other => panic!("unexpected {other:?}"),
    }
    let p = numeric_peer("12345").unwrap();
    assert_eq!(p.peer_id, 12345);
    assert_eq!(p.peer_kind, PeerKind::User);
    assert!(numeric_peer("@bot").is_none());
}

#[test]
fn bot_command_pairs_parse_and_report() {
    let pairs = parse_bot_commands(" start | Start the bot , help|Show help").unwrap();
    assert_eq!(pairs, vec![("start".to_string(), "Start the bot".to_string()), ("help".to_string(), "Show help".to_string())]);
    assert_eq!(
        message_of(parse_bot_commands("start|ok, broken").unwrap_err()),
        "invalid command pair 'broken', expected name|description"
    );
    assert_eq!(
        message_of(parse_bot_commands("").unwrap_err()),
        "invalid command pair '', expected name|description"
    );
    assert_eq!(set_commands_summary(2), "2 bot command(s) set.");
    match set_commands_output(&pairs) {
        JsonValue::Object(entries) => assert_eq!(entries[1].1, JsonValue::Number("2".into())),
        other => panic!("unexpected {other:?}"),
    }
    assert_eq!(
        message_of(check_bot_info(&None, &None).unwrap_err()),
        "at least one of --description or --about is required"
    );
    assert!(check_bot_info(&Some("d".into()), &None).is_ok());
}

#[test]
fn account_secrets_and_login_requests() {
    assert_eq!(resolve_secret_value(Some("x".into()), None, None, "password").unwrap().as_deref(), Some("x"));
    assert_eq!(
        resolve_secret_value(None, Some("PW".into()), Some("y".into()), "password").unwrap().as_deref(),
        Some("y")
    );
    assert_eq!(
        message_of(resolve_secret_value(None, Some("PW".into()), None, "password").unwrap_err()),
        "environment variable PW is not set for password"
    );
    assert_eq!(
        message_of(resolve_secret_value(Some("x".into()), Some("PW".into()), None, "login code").unwrap_err()),
        "use either direct login code input or an environment variable, not both"
    );
    assert_eq!(resolve_secret_value(None, None, None, "password").unwrap(), None);
    assert_eq!(
        message_of(resolve_bot_token(None, None, None).unwrap_err()),
        "either --token or --token-env is required"
    );
    assert_eq!(resolve_bot_token(None, Some("T".into()), Some("123:abc".into())).unwrap(), "123:abc");
    assert_eq!(
        message_of(login_request(AccountKind::Bot, true, Ok(None), Ok(None), false).unwrap_err()),
        "QR login is not supported for bot accounts"
    );
    assert_eq!(login_request(AccountKind::User, true, Ok(None), Ok(None), false).unwrap(), LoginRequest::UserQr);
    assert_eq!(
        message_of(login_request(AccountKind::User, false, Ok(Some("1".into())), Ok(None), true).unwrap_err()),
        "session import is not supported by the live adapter; use code/password login instead"
    );
    match login_request(AccountKind::User, false, Ok(Some("12345".into())), Ok(None), false).unwrap() {
        LoginRequest::User(u) => assert_eq!(u.code.as_deref(), Some("12345")),
        other => panic!("unexpected {other:?}"),
    }
}

#[test]
fn account_reports() {
    let added = added_account_result(AccountKind::Bot, "qa");
    assert_eq!(added.command, "telegram-agent-cli account add-bot");
    assert_eq!(added.summary, "Bot account qa was added.");
    assert_eq!(added.next_steps[0].command, "telegram-agent-cli account login qa");
    let used = account_change_result(AccountChange::Use, "qa", JsonValue::Null);
    assert_eq!(used.summary, "Default account was set to qa.");
    let records = vec![
        AccountRecord { id: 1, name: "a".into(), kind: AccountKind::User, login_state: LoginState::Pending, is_default: false, api_id: None, phone: None },
        AccountRecord { id: 2, name: "b".into(), kind: AccountKind::Bot, login_state: LoginState::Authorized, is_default: true, api_id: Some(5), phone: None },
    ];
    assert_eq!(default_account(&records).as_deref(), Some("b"));
}

#[test]
fn daemon_state_and_reports() {
    let paths = daemon_paths("/state");
    assert_eq!(paths.metadata, "/state/daemon/server.json");
    assert_eq!(paths.log, "/state/daemon/server.log");
    assert_eq!(endpoint_for_port(4000), "127.0.0.1:4000");
    assert_eq!(daemon_state(true, false), DaemonState::Stale);
    assert_eq!(daemon_state(false, false), DaemonState::Stopped);
    assert_eq!(daemon_state(true, true), DaemonState::Running);
    assert_eq!(status_summary(DaemonState::Stale), "Daemon metadata exists, but the server is not responding.");
    let meta = DaemonMetadata { pid: 9, port: 4000, started_at: "t".into(), log_path: "/l".into() };
    let view = daemon_status_view(&Some(meta), true, "/m");
    assert_eq!(view.state, "running");
    assert_eq!(view.endpoint.as_deref(), Some("127.0.0.1:4000"));
    assert_eq!(
        message_of(parse_labeled_duration("soon", "startup").unwrap_err()).starts_with("invalid startup duration 'soon': "),
        true
    );
    assert_eq!(parse_labeled_duration("5s", "startup").unwrap().secs, 5);
    assert_eq!(start_poll(None, true, false, "5s", "/l"), PollStep::Done);
    assert_eq!(start_poll(None, false, false, "5s", "/l"), PollStep::Wait);
    match start_poll(None, false, true, "5s", "/l") {
        PollStep::Fail(e) => assert_eq!(message_of(e), "daemon did not become ready within 5s; inspect /l"),
        other => panic!("unexpected {other:?}"),
    }
    assert_eq!(stop_poll(false, true, "5s"), PollStep::Done);
}

#[test]
fn daemon_requests_and_responses() {
    let ok = JsonValue::Object(vec![("result".into(), JsonValue::Bool(true))]);
    assert_eq!(rpc_outcome(&ok).unwrap(), JsonValue::Bool(true));
    let empty = JsonValue::Object(vec![]);
    assert_eq!(rpc_outcome(&empty).unwrap(), JsonValue::Object(vec![]));
    let err = JsonValue::Object(vec![("error".into(), JsonValue::Str("bad".into()))]);
    assert_eq!(message_of(rpc_outcome(&err).unwrap_err()), "daemon returned an error: \"bad\"");
    let note = McpRequest { id: None, method: "daemon/shutdown".into(), params: None };
    assert_eq!(connection_step(&note), ConnectionStep::Skip);
    let stop = McpRequest { id: Some(JsonValue::Number("1".into())), method: "daemon/shutdown".into(), params: None };
    assert!(matches!(connection_step(&stop), ConnectionStep::Shutdown(_)));
    let other = McpRequest { id: Some(JsonValue::Number("1".into())), method: "ping".into(), params: None };
    assert_eq!(connection_step(&other), ConnectionStep::Handle);
}

#[test]
fn export_selection_and_items() {
    assert_eq!(parse_run_selector("latest").unwrap(), RunSelector::Latest);
    assert_eq!(parse_run_selector("12").unwrap(), RunSelector::Id(12));
    assert_eq!(
        message_of(parse_run_selector("x1").unwrap_err()),
        "invalid run id x1: invalid digit found in string"
    );
    assert_eq!(message_of(missing_run_error(RunSelector::Id(4))), "run 4 was not found");
    let event = RunEventRecord { id: 1, run_id: 2, step_name: "send".into(), payload_json: "oops".into(), created_at: "t".into() };
    match export_item(&event, None) {
        JsonValue::Object(entries) => {
            assert_eq!(entries[2].1, JsonValue::Object(vec![("raw".into(), JsonValue::Str("oops".into()))]));
        }
        other => panic!("unexpected {other:?}"),
    }
}

#[test]
fn app_paths_follow_overrides() {
    let platform = PlatformDirs {
        config_dir: "/home/u/.config/tc".into(),
        data_dir: "/home/u/.local/share/tc".into(),
        state_dir: None,
        cache_dir: "/home/u/.cache/tc".into(),
    };
    let overrides = DirOverrides { config_dir: None, data_dir: Some("/tmp/data".into()), state_dir: None, cache_dir: None };
    let paths = AppPaths::from_dirs(&platform, &overrides);
    assert_eq!(paths.data_dir, "/tmp/data");
    assert_eq!(paths.data_source, RuntimePathSource::Override);
    assert_eq!(paths.state_dir, "/tmp/data/state");
    assert_eq!(paths.state_source, RuntimePathSource::Default);
    assert_eq!(paths.db_path, "/tmp/data/state.sqlite");
    assert_eq!(paths.master_key_path, "/home/u/.config/tc/master.key");
}

#[test]
fn message_and_peer_reports() {
    assert_eq!(forward_summary(3), "3 message(s) forwarded.");
    assert_eq!(
        message_of(require_message_ids(&vec![]).unwrap_err()),
        "at least one message ID is required"
    );
    match message_change_output(5, 7, Some("new")) {
        JsonValue::Object(entries) => assert_eq!(entries.len(), 3),
        other => panic!("unexpected {other:?}"),
    }
    assert_eq!(alias_set_summary("bot", -5), "Alias bot now points to peer -5.");
    assert_eq!(scenario_summary(3), "Scenario run 3 passed.");
}
