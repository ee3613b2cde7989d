use grammers_client::session::types::PeerKind as ClientPeerKind;
use telegram_cli::telegram::grammers::{keeps_message, legacy_channel_kind, legacy_user_flags, scans_messages, LegacyChannelKind};
use telegram_cli::errors::TelegramCliError;
use telegram_cli::storage::crypto::SecretStore;
use telegram_cli::storage::models::{AccountKind, AccountProfile, LoginState};
use telegram_cli::telegram::grammers::{
    action_search_limit, actions_from_messages, callback_search_limit, decode_session_blob,
    encode_session_blob, expiry_secs, find_callback_target, map_incoming_message, map_peer,
    merge_shutdown, open_session_blob, peer_id_from_dialog_id, resolve_api_credentials,
    sanitize_account_name, seal_session_blob, update_answers, PeerClass, SenderInfo, UpdateKind,
};
use telegram_cli::telegram::markup::{
    actions_from_bot_info, actions_from_reply_markup, callback_button_matches,
    find_callback_data_in_markup, BotCommandInfo, BotInfo, BotMenuButton, KeyboardButton,
    KnownUser, MessageMarkup,
};
use telegram_cli::telegram::messages::{InteractiveActionKind, MessageKind};
use telegram_cli::telegram::peers::PeerKind;

fn message_of(e: TelegramCliError) -> String {
    match e {
        TelegramCliError::Message(m) => m,
        other => panic!("unexpected error {other:?}"),
    }
}

fn profile(name: &str, api_id: Option<i32>, api_hash: Option<&str>) -> AccountProfile {
    AccountProfile {
        id: 1,
        name: name.into(),
        kind: AccountKind::User,
        login_state: LoginState::Pending,
        is_default: true,
        api_id,
        api_hash: api_hash.map(|h| h.to_string()),
        phone: Some("+10000000000".into()),
        bot_token: None,
        last_login_at: None,
    }
}

#[test]
fn resolve_api_credentials_prefers_profile_values() {
    let profile = AccountProfile {
        id: 1,
        name: "alice".into(),
        kind: AccountKind::User,
        login_state: LoginState::Pending,
        is_default: true,
        api_id: Some(1001),
        api_hash: Some("stored-hash".into()),
        phone: Some("+10000000000".into()),
        bot_token: None,
        last_login_at: None,
    };

    let credentials = resolve_api_credentials(&profile, Some("2002"), Some("env-hash")).unwrap();
    assert_eq!(credentials.api_id, 1001);
    assert_eq!(credentials.api_hash, "stored-hash");
}

#[test]
fn resolve_api_credentials_uses_env_fallback_when_profile_missing() {
    let profile = AccountProfile {
        id: 1,
        name: "bot".into(),
        kind: AccountKind::Bot,
        login_state: LoginState::Pending,
        is_default: true,
        api_id: None,
        api_hash: None,
        phone: None,
        bot_token: Some("12345:token".into()),
        last_login_at: None,
    };

    let credentials = resolve_api_credentials(&profile, Some("2002"), Some("env-hash")).unwrap();
    assert_eq!(credentials.api_id, 2002);
    assert_eq!(credentials.api_hash, "env-hash");
}

#[test]
fn resolve_api_credentials_reports_each_missing_value() {
    let missing_id = resolve_api_credentials(&profile("carol", None, Some("h")), None, None).unwrap_err();
    assert_eq!(
        message_of(missing_id),
        "account carol is missing API ID; set --api-id when creating it or export TELEGRAM_CLI_API_ID"
    );
    let bad_id = resolve_api_credentials(&profile("carol", None, Some("h")), Some("12x"), None).unwrap_err();
    assert_eq!(
        message_of(bad_id),
        "TELEGRAM_CLI_API_ID must be a valid integer API ID: invalid digit found in string"
    );
    let missing_hash = resolve_api_credentials(&profile("carol", Some(7), None), None, None).unwrap_err();
    assert_eq!(
        message_of(missing_hash),
        "account carol is missing API hash; set --api-hash when creating it or export TELEGRAM_CLI_API_HASH"
    );
    let ok = resolve_api_credentials(&profile("carol", None, None), Some("+42"), Some("env")).unwrap();
    assert_eq!(ok.api_id, 42);
    assert_eq!(ok.api_hash, "env");
}

#[test]
fn session_blob_roundtrips_through_base64_storage() {
    let encoded = encode_session_blob(&[1, 2, 3, 4]);
    let decoded = decode_session_blob(&encoded).unwrap();
    assert_eq!(decoded, vec![1, 2, 3, 4]);
}

#[test]
fn session_blob_is_standard_base64() {
    assert_eq!(encode_session_blob(&[1, 2, 3, 4]), "AQIDBA==");
    let err = decode_session_blob("!!").unwrap_err();
    assert!(message_of(err).starts_with("invalid base64 session blob: "));
}

#[test]
fn encrypted_session_snapshot_roundtrips_via_snapshot_file() {
    let store = SecretStore::from_key_material("test-key".as_bytes());
    let payload = b"{\"home_dc\":2}".to_vec();
    let blob = seal_session_blob(&store, &payload).unwrap();
    assert_ne!(blob, payload);
    assert!(blob.len() >= 12);
    let restored = open_session_blob(&store, &blob, "session.sqlite3.enc").unwrap();
    assert_eq!(restored, payload);
}

#[test]
fn short_session_blob_is_corrupted() {
    let store = SecretStore::from_key_material("test-key".as_bytes());
    let err = open_session_blob(&store, &[1, 2, 3], "/tmp/a.enc").unwrap_err();
    assert_eq!(message_of(err), "encrypted session /tmp/a.enc is corrupted");
    let other = SecretStore::from_key_material("other-key".as_bytes());
    let blob = seal_session_blob(&store, b"state").unwrap();
    let err = open_session_blob(&other, &blob, "x").unwrap_err();
    assert_eq!(message_of(err), "failed to decrypt secret");
}

#[test]
fn callback_button_matches_text_raw_and_base64_queries() {
    assert!(callback_button_matches("Start", b"launch", "Start"));
    assert!(callback_button_matches("Start", b"launch", "launch"));
    assert!(callback_button_matches("Start", b"launch", "bGF1bmNo"));
    assert!(!callback_button_matches("Start", b"launch", "stop"));
}

#[test]
fn find_callback_data_in_markup_returns_matching_payload() {
    let markup = MessageMarkup::Inline {
        rows: vec![vec![
            KeyboardButton::Url { text: "Docs".into(), url: "https://example.com".into() },
            KeyboardButton::Callback { text: "Start".into(), data: b"launch".to_vec() },
        ]],
    };

    let payload = find_callback_data_in_markup(&Some(markup), "Start").expect("payload");
    assert_eq!(payload, b"launch".to_vec());
}

#[test]
fn actions_from_reply_markup_collects_inline_and_reply_keyboard_actions() {
    let inline_markup = MessageMarkup::Inline {
        rows: vec![vec![
            KeyboardButton::Callback { text: "Start".into(), data: b"launch".to_vec() },
            KeyboardButton::Url { text: "Docs".into(), url: "https://example.com/docs".into() },
        ]],
    };
    let reply_markup = MessageMarkup::Keyboard {
        rows: vec![vec![
            KeyboardButton::Text { text: "Yes".into() },
            KeyboardButton::RequestPhone { text: "Share phone".into() },
        ]],
    };

    let inline_actions = actions_from_reply_markup(7, &Some(inline_markup));
    let reply_actions = actions_from_reply_markup(9, &Some(reply_markup));

    assert!(inline_actions.iter().any(|action| {
        action.action_kind == InteractiveActionKind::InlineCallback
            && action.label == "Start"
            && action.callback_data_base64.as_deref() == Some("bGF1bmNo")
    }));
    assert!(inline_actions.iter().any(|action| {
        action.action_kind == InteractiveActionKind::InlineUrl
            && action.url.as_deref() == Some("https://example.com/docs")
    }));
    assert!(reply_actions.iter().any(|action| {
        action.action_kind == InteractiveActionKind::ReplyKeyboardText
            && action.trigger_text.as_deref() == Some("Yes")
    }));
    assert!(reply_actions.iter().any(|action| {
        action.action_kind == InteractiveActionKind::ReplyKeyboardRequestPhone && !action.supported
    }));
}

#[test]
fn actions_from_bot_info_collects_commands_and_menu_url() {
    let bot_info = BotInfo {
        user_id: Some(42),
        commands: Some(vec![
            BotCommandInfo { command: "start".into(), description: "Start the bot".into() },
            BotCommandInfo { command: "help".into(), description: "Show help".into() },
        ]),
        menu_button: Some(BotMenuButton {
            text: "Open Web App".into(),
            url: "https://example.com/app".into(),
        }),
    };
    let users = vec![KnownUser { id: 42, username: Some("qa_bot".into()) }];

    let direct_actions = actions_from_bot_info(&bot_info, &users, false);
    let group_actions = actions_from_bot_info(&bot_info, &users, true);

    assert!(direct_actions.iter().any(|action| {
        action.action_kind == InteractiveActionKind::BotCommand
            && action.command.as_deref() == Some("/start")
    }));
    assert!(group_actions.iter().any(|action| {
        action.action_kind == InteractiveActionKind::BotCommand
            && action.command.as_deref() == Some("/start@qa_bot")
    }));
    assert!(direct_actions.iter().any(|action| {
        action.action_kind == InteractiveActionKind::BotMenuUrl
            && action.url.as_deref() == Some("https://example.com/app")
    }));
}

#[test]
fn dialog_ids_map_to_peer_kinds_by_range() {
    assert!(peer_id_from_dialog_id(12345).is_ok());
    assert!(peer_id_from_dialog_id(-4567).is_ok());
    assert!(peer_id_from_dialog_id(-1001234567890).is_ok());
    assert_eq!(message_of(peer_id_from_dialog_id(0).unwrap_err()), "unsupported peer id 0");
    assert_eq!(
        message_of(peer_id_from_dialog_id(-1000000000000).unwrap_err()),
        "unsupported peer id -1000000000000"
    );
    assert_eq!(
        message_of(peer_id_from_dialog_id(-1998000000000).unwrap_err()),
        "unsupported channel peer id -1998000000000"
    );
    assert!(peer_id_from_dialog_id(-2100000000000).is_ok());
    assert_eq!(
        message_of(peer_id_from_dialog_id(i64::MIN).unwrap_err()),
        format!("unsupported channel peer id {}", i64::MIN)
    );
    assert_eq!(
        message_of(peer_id_from_dialog_id(0x10000000000).unwrap_err()),
        "unsupported peer id 1099511627776"
    );
}

#[test]
fn account_names_become_safe_file_names() {
    assert_eq!(sanitize_account_name("alice"), "alice");
    assert_eq!(sanitize_account_name("a b/c.d"), "a_b_c_d");
    assert_eq!(sanitize_account_name("qa-bot_1"), "qa-bot_1");
    assert_eq!(sanitize_account_name("é"), "_");
}

#[test]
fn shutdown_error_only_wins_after_success() {
    let ok: Result<i32, TelegramCliError> = Ok(5);
    assert_eq!(merge_shutdown(ok, Ok(())).unwrap(), 5);
    let ok: Result<i32, TelegramCliError> = Ok(5);
    let merged = merge_shutdown(ok, Err(TelegramCliError::Message("close".into())));
    assert_eq!(message_of(merged.unwrap_err()), "close");
    let failed: Result<i32, TelegramCliError> = Err(TelegramCliError::Message("work".into()));
    let merged = merge_shutdown(failed, Err(TelegramCliError::Message("close".into())));
    assert_eq!(message_of(merged.unwrap_err()), "work");
}

#[test]
fn fetched_peers_and_messages_map_to_tool_values() {
    let bot = map_peer(PeerClass::User, true, 42, None, Some("qa_bot"));
    assert_eq!(bot.peer_kind, PeerKind::Bot);
    assert_eq!(bot.display_name, "qa_bot");
    let group = map_peer(PeerClass::Group, false, -7, None, None);
    assert_eq!(group.peer_kind, PeerKind::Group);
    assert_eq!(group.display_name, "-7");

    let sender = SenderInfo { username: None, name: Some("QA".into()), dialog_id: 42 };
    let m = map_incoming_message(5, 42, Some(&sender), "", true, Some(3), "2024-01-01T00:00:00+00:00".into());
    assert_eq!(m.message_id, 5);
    assert_eq!(m.sender.as_deref(), Some("QA"));
    assert_eq!(m.text, None);
    assert_eq!(m.kind, MessageKind::File);
    assert_eq!(m.reply_to_message_id, Some(3));
}

#[test]
fn search_limits_and_update_matching() {
    assert_eq!(action_search_limit(0, None), 1);
    assert_eq!(action_search_limit(50, None), 50);
    assert_eq!(action_search_limit(20, Some(3)), 100);
    assert_eq!(action_search_limit(250, Some(3)), 250);
    assert_eq!(callback_search_limit(Some(1)), 100);
    assert_eq!(callback_search_limit(None), 50);
    assert!(update_answers(UpdateKind::NewMessage, false, Some(9), 9, true));
    assert!(!update_answers(UpdateKind::NewMessage, true, Some(9), 9, true));
    assert!(update_answers(UpdateKind::MessageEdited, false, Some(9), 9, true));
    assert!(!update_answers(UpdateKind::MessageEdited, false, Some(9), 9, false));
    assert!(!update_answers(UpdateKind::Other, false, Some(9), 9, true));
    assert_eq!(expiry_secs(100, 40), 60);
    assert_eq!(expiry_secs(100, 140), 0);
}

#[test]
fn callback_targets_and_message_actions_follow_message_ids() {
    let inline = |data: &[u8]| {
        Some(MessageMarkup::Inline {
            rows: vec![vec![KeyboardButton::Callback { text: "Go".into(), data: data.to_vec() }]],
        })
    };
    let messages = vec![(11, inline(b"b")), (10, inline(b"a"))];
    assert_eq!(find_callback_target(&messages, "Go", None).unwrap(), (11, b"b".to_vec()));
    assert_eq!(find_callback_target(&messages, "Go", Some(10)).unwrap(), (10, b"a".to_vec()));
    assert_eq!(
        message_of(find_callback_target(&messages, "Stop", Some(10)).unwrap_err()),
        "message 10 does not contain a clickable inline button matching `Stop`"
    );
    assert_eq!(
        message_of(find_callback_target(&messages, "Stop", None).unwrap_err()),
        "no recent message found with an inline button matching `Stop`; specify --message-id if needed"
    );

    let fetched = vec![(11i64, inline(b"b")), (10i64, inline(b"a"))];
    assert_eq!(actions_from_messages(&fetched, None).len(), 2);
    let only = actions_from_messages(&fetched, Some(10));
    assert_eq!(only.len(), 1);
    assert_eq!(only[0].message_id, Some(10));
}

#[test]
fn legacy_subtype_bits_decode() {
    assert_eq!(legacy_channel_kind(12), Some(LegacyChannelKind::Gigagroup));
    assert_eq!(legacy_channel_kind(8), Some(LegacyChannelKind::Broadcast));
    assert_eq!(legacy_channel_kind(4), Some(LegacyChannelKind::Megagroup));
    assert_eq!(legacy_channel_kind(1), None);
    assert_eq!(legacy_user_flags(3), (true, true));
    assert_eq!(legacy_user_flags(2), (true, false));
    assert_eq!(legacy_user_flags(0), (false, false));
}

#[test]
fn message_scan_and_unread_rules() {
    assert!(!scans_messages(0, None));
    assert!(scans_messages(0, Some(5)));
    assert!(scans_messages(3, None));
    assert!(!keeps_message(true, true));
    assert!(keeps_message(true, false));
    assert!(keeps_message(false, true));
}

#[test]
fn dialog_ids_keep_their_peer_kind() {
    let user = peer_id_from_dialog_id(12345).unwrap();
    assert_eq!(user.kind(), ClientPeerKind::User);
    assert_eq!(user.bot_api_dialog_id(), Some(12345));
    let chat = peer_id_from_dialog_id(-4567).unwrap();
    assert_eq!(chat.kind(), ClientPeerKind::Chat);
    assert_eq!(chat.bot_api_dialog_id(), Some(-4567));
    let channel = peer_id_from_dialog_id(-1001234567890).unwrap();
    assert_eq!(channel.kind(), ClientPeerKind::Channel);
    assert_eq!(channel.bot_api_dialog_id(), Some(-1001234567890));
}
