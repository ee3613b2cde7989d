use telegram_cli::commands::doctor::{runtime_paths_json, runtime_paths_view};
use telegram_cli::commands::mcp::{
    downloaded_text, forwarded_text, message_changed_text, no_followup_text, parse_error_response,
};
use telegram_cli::commands::peer::alias_list_output;
use telegram_cli::config::paths::{AppPaths, DirOverrides, PlatformDirs};
use telegram_cli::json::JsonValue;
use telegram_cli::output::render::json_line;
use telegram_cli::storage::models::AliasRecord;
use telegram_cli::telegram::list::{chats_output, contact_of, contacts_output, Chat, ChatKind};
use telegram_cli::telegram::peers::PeerKind;

#[test]
fn contact_name_falls_back_in_order() {
    let first = contact_of(7, Some("+1".into()), Some("Ann"), Some("Lee"), Some("ann".into()));
    assert_eq!(first.display_name, "Ann");
    assert_eq!(first.phone.as_deref(), Some("+1"));
    let last = contact_of(7, None, None, Some("Lee"), Some("ann".into()));
    assert_eq!(last.display_name, "Lee");
    let user = contact_of(7, None, None, None, Some("ann".into()));
    assert_eq!(user.display_name, "ann");
    let bare = contact_of(-42, None, None, None, None);
    assert_eq!(bare.display_name, "user_-42");
    assert_eq!(bare.username, None);
}

#[test]
fn contacts_and_chats_outputs_count_their_items() {
    let contacts = vec![contact_of(1, None, Some("A"), None, None), contact_of(2, None, None, None, None)];
    let out = json_line(&contacts_output(&contacts));
    assert_eq!(
        out,
        r#"{"contacts":[{"display_name":"A","id":1,"phone":null,"username":null},{"display_name":"user_2","id":2,"phone":null,"username":null}],"total":2}"#
    );
    let chats = vec![Chat { id: -5, kind: ChatKind::Channel, display_name: "News".into(), username: Some("news".into()) }];
    assert_eq!(
        json_line(&chats_output(&chats)),
        r#"{"chats":[{"display_name":"News","id":-5,"kind":"channel","username":"news"}],"total":1}"#
    );
    assert_eq!(json_line(&chats_output(&vec![])), r#"{"chats":[],"total":0}"#);
}

#[test]
fn alias_list_output_lists_every_field() {
    let aliases = vec![AliasRecord {
        alias: "bot".into(),
        peer_id: 99,
        peer_kind: PeerKind::Bot,
        display_name: "Helper".into(),
        username: Some("helper_bot".into()),
        packed_hex: None,
    }];
    assert_eq!(
        json_line(&alias_list_output(&aliases)),
        r#"{"aliases":[{"alias":"bot","display_name":"Helper","packed_hex":null,"peer_id":99,"peer_kind":"bot","username":"helper_bot"}],"total":1}"#
    );
}

#[test]
fn runtime_paths_json_names_each_directory() {
    let platform = PlatformDirs {
        config_dir: "/c".into(),
        data_dir: "/d".into(),
        state_dir: None,
        cache_dir: "/k".into(),
    };
    let overrides = DirOverrides { config_dir: None, data_dir: None, state_dir: Some("/s".into()), cache_dir: None };
    let paths = AppPaths::from_dirs(&platform, &overrides);
    let value = runtime_paths_json(&runtime_paths_view(&paths));
    match &value {
        JsonValue::Object(entries) => {
            let keys: Vec<&str> = entries.iter().map(|(k, _)| k.as_str()).collect();
            assert_eq!(keys, vec!["config", "data", "state", "cache"]);
        }
        other => panic!("unexpected {other:?}"),
    }
    let text = json_line(&value);
    assert!(text.contains(r#""path":"/s","source":"override""#));
    assert!(text.contains(r#""path":"/c","source":"default""#));
}

#[test]
fn tool_reply_texts() {
    assert_eq!(forwarded_text(3, "Ann"), "Forwarded 3 message(s) to Ann");
    assert_eq!(message_changed_text(12, "pinned", "News"), "Message 12 pinned in News");
    assert_eq!(downloaded_text(true, "/tmp/x"), "Media downloaded to /tmp/x");
    assert_eq!(downloaded_text(false, "/tmp/x"), "No downloadable media found in the message.");
    assert_eq!(no_followup_text(), "Button clicked, no follow-up message received.");
    let response = parse_error_response("EOF while parsing");
    assert!(response.id.is_none() && response.result.is_none());
    let error = response.error.unwrap();
    assert_eq!(error.code, -32700);
    assert_eq!(error.message, "Parse error: EOF while parsing");
}
