use telegram_cli::commands::message::WaitDuration;
use telegram_cli::errors::TelegramCliError;
use telegram_cli::telegram::messages::InteractiveActionKind;
use telegram_cli::telegram::mock::MockTelegramAdapter;
use telegram_cli::telegram::peers::{PeerKind, ResolvedPeer};
use telegram_cli::telegram::updates::MessageFilter;

fn peer(id: i64, name: &str) -> ResolvedPeer {
    ResolvedPeer {
        peer_id: id,
        peer_kind: PeerKind::Bot,
        display_name: name.into(),
        username: Some(name.into()),
        packed_hex: None,
    }
}

fn message_of(e: TelegramCliError) -> String {
    match e {
        TelegramCliError::Message(m) => m,
        other => panic!("unexpected error {other:?}"),
    }
}

#[test]
fn registered_peers_resolve_by_alias_with_or_without_at() {
    let mut mock = MockTelegramAdapter::with_peer("qa_bot", peer(42, "qa_bot"));
    mock.register_peer("other", peer(7, "other"));
    mock.register_peer("qa_bot", peer(43, "qa_bot2"));
    assert_eq!(mock.resolve_peer("qa_bot").unwrap().peer_id, 43);
    assert_eq!(mock.resolve_peer("@other").unwrap().peer_id, 7);
    assert_eq!(message_of(mock.resolve_peer("nobody").unwrap_err()), "peer nobody was not found");
    assert_eq!(mock.resolved_peers.len(), 2);
}

#[test]
fn sent_messages_take_increasing_ids_and_record_peers() {
    let mut mock = MockTelegramAdapter::with_peer("qa_bot", peer(42, "qa_bot"));
    let first = mock.send_text("alice", 42, "hello");
    let second = mock.send_text("alice", 99, "to a stranger");
    assert_eq!(first.message_id, 1);
    assert_eq!(second.message_id, 2);
    assert_eq!(mock.sent_messages().len(), 2);
    assert_eq!(mock.sent_peers().len(), 1);
    let photo = mock.send_photo("alice", 42, "/tmp/p.png", Some("look"));
    assert_eq!(photo.text.as_deref(), Some("look"));
    assert_eq!(photo.caption.as_deref(), Some("look"));
    let file = mock.send_file("alice", 42, "/tmp/a.txt", None);
    assert_eq!(file.text, None);
    assert_eq!(file.file_path.as_deref(), Some("/tmp/a.txt"));
}

#[test]
fn waits_take_the_oldest_matching_message_first() {
    let mut mock = MockTelegramAdapter::new();
    mock.queue_incoming_text(42, "one");
    mock.queue_incoming_text(7, "elsewhere");
    mock.queue_incoming_text(42, "two");
    let mut filter = MessageFilter::any();
    filter.text_contains = Some("tw".into());
    let timeout = WaitDuration { secs: 1, nanos: 0 };
    assert_eq!(mock.wait_for_message(42, &filter, timeout).unwrap().text.as_deref(), Some("two"));
    let any = MessageFilter::any();
    assert_eq!(mock.wait_for_message(42, &any, timeout).unwrap().text.as_deref(), Some("one"));
    let err = mock.wait_for_message(42, &any, timeout).unwrap_err();
    assert_eq!(message_of(err), "timed out waiting for message after 1s");
    assert_eq!(mock.recent_messages(7, 10).len(), 1);
}

#[test]
fn list_actions_collects_keyboards_then_bot_menu() {
    let mut mock = MockTelegramAdapter::new();
    mock.queue_incoming_inline_buttons(42, "pick", &[("Start", "launch"), ("Docs", "https://example.com")]);
    mock.queue_incoming_reply_keyboard(42, "answer", &["Yes", "No"]);
    mock.register_bot_commands(42, "qa_bot", &[("start", "Start the bot")]);
    mock.register_bot_menu_url(42, "qa_bot", "Open", "https://example.com/app");
    let actions = mock.list_actions(42, None, 50);
    assert_eq!(actions.len(), 6);
    assert_eq!(actions[0].action_kind, InteractiveActionKind::ReplyKeyboardText);
    assert_eq!(actions[2].action_kind, InteractiveActionKind::InlineCallback);
    assert_eq!(actions[3].action_kind, InteractiveActionKind::InlineUrl);
    assert_eq!(actions[4].action_kind, InteractiveActionKind::BotCommand);
    assert_eq!(actions[5].action_kind, InteractiveActionKind::BotMenuUrl);
    assert_eq!(mock.list_actions(42, None, 1).len(), 4);
    assert_eq!(mock.list_actions(42, Some(1), 50).len(), 4);
}

#[test]
fn trigger_action_sends_keyboard_text_and_takes_the_reply() {
    let mut mock = MockTelegramAdapter::new();
    mock.queue_incoming_reply_keyboard(42, "answer", &["Yes"]);
    mock.queue_incoming_text(42, "thanks");
    let result = mock.trigger_action("alice", 42, " Yes ", None).unwrap();
    assert_eq!(result.effect, "text_sent");
    assert_eq!(result.sent_text.as_deref(), Some("Yes"));
    assert!(result.response_received);
    assert_eq!(result.response.unwrap().text.as_deref(), Some("thanks"));
    assert_eq!(mock.sent_messages().last().unwrap().text.as_deref(), Some("Yes"));
}

#[test]
fn trigger_action_resolves_urls_and_reports_missing_or_ambiguous_actions() {
    let mut mock = MockTelegramAdapter::new();
    mock.queue_incoming_inline_buttons(42, "pick", &[("Docs", "https://example.com"), ("Go", "go"), ("Again", "a"), ("Again", "b")]);
    let url = mock.trigger_action("alice", 42, "Docs", None).unwrap();
    assert_eq!(url.effect, "url_resolved");
    assert_eq!(url.url.as_deref(), Some("https://example.com"));
    assert!(!url.response_received);
    let callback = mock.trigger_action("alice", 42, "Go", None).unwrap();
    assert_eq!(callback.effect, "callback_clicked");
    assert!(!callback.response_received);
    assert_eq!(
        message_of(mock.trigger_action("alice", 42, "Again", None).unwrap_err()),
        "action `Again` is ambiguous; rerun `telegram-agent-cli message list-actions --chat <peer>` and use the exact action_id"
    );
    assert_eq!(
        message_of(mock.trigger_action("alice", 42, "Nope", None).unwrap_err()),
        "action `Nope` was not found; run `telegram-agent-cli message list-actions --chat <peer>` to inspect available actions"
    );
}

#[test]
fn click_button_takes_a_pending_answer_if_any() {
    let mut mock = MockTelegramAdapter::new();
    assert!(mock.click_button(42).is_none());
    mock.queue_incoming_text(42, "pong");
    assert_eq!(mock.click_button(42).unwrap().text.as_deref(), Some("pong"));
    mock.delete_message(42, 5);
    assert_eq!(mock.deleted_messages(), &vec![(42, 5)]);
    assert_eq!(mock.forward_messages(&[3, 4]), vec![3i64, 4]);
}

#[test]
fn login_and_logout_track_authorized_accounts() {
    let mut mock = MockTelegramAdapter::new();
    mock.login("alice");
    mock.login("alice");
    mock.login("bob");
    assert_eq!(mock.authorized_accounts, vec!["alice".to_string(), "bob".to_string()]);
    mock.logout("alice");
    assert_eq!(mock.authorized_accounts, vec!["bob".to_string()]);
}

#[test]
fn sent_text_and_file_records_hold_the_whole_message() {
    let mut mock = MockTelegramAdapter::new();
    let first = mock.send_text("a", 42, "x");
    let second = mock.send_file("a", 43, "f.txt", Some("cap"));
    assert_eq!(first.message_id, 1);
    assert_eq!(second.message_id, 2);
    let sent = mock.sent_messages().clone();
    assert_eq!(sent.len(), 2);
    assert_eq!(sent[0].message_id, 1);
    assert_eq!(sent[0].account_name, "a");
    assert_eq!(sent[0].peer_id, 42);
    assert_eq!(sent[0].text.as_deref(), Some("x"));
    assert_eq!(sent[0].file_path, None);
    assert_eq!(sent[0].caption, None);
    assert_eq!(sent[1].message_id, 2);
    assert_eq!(sent[1].account_name, "a");
    assert_eq!(sent[1].peer_id, 43);
    assert_eq!(sent[1].text, None);
    assert_eq!(sent[1].file_path.as_deref(), Some("f.txt"));
    assert_eq!(sent[1].caption.as_deref(), Some("cap"));
    assert_eq!(mock.sent_messages(), &sent);
}

#[test]
fn trigger_reply_keyboard_without_pending_reply_records_the_sent_text() {
    let mut mock = MockTelegramAdapter::new();
    mock.queue_incoming_reply_keyboard(42, "Pick", &["Yes", "No"]);
    let result = mock.trigger_action("alice", 42, "Yes", None).unwrap();
    assert_eq!(result.action_id, "reply-text:1:WWVz");
    assert_eq!(result.action_kind, InteractiveActionKind::ReplyKeyboardText);
    assert_eq!(result.effect, "text_sent");
    assert_eq!(result.sent_text.as_deref(), Some("Yes"));
    assert!(!result.response_received);
    assert!(result.response.is_none());
    let sent = mock.sent_messages();
    assert_eq!(sent.len(), 1);
    assert_eq!(sent[0].message_id, 2);
    assert_eq!(sent[0].peer_id, 42);
    assert_eq!(sent[0].account_name, "alice");
    assert_eq!(sent[0].text.as_deref(), Some("Yes"));
}
