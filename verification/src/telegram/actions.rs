//! Interactive actions: how buttons, keyboards and bot menus become actions,
//! and how a query picks one of them.
use vstd::prelude::*;
use base64::Engine;
use crate::errors::{Result, TelegramCliError, is_message_error};
use crate::json::i64_decimal;
use crate::telegram::messages::{InteractiveAction, InteractiveActionKind, InteractiveActionSource, spec_action_kind_str};
use crate::text::{
    concat2, concat3, int_decimal, owned, str_eq, strip_leading, strip_leading_string, trim,
    trim_string, first_char_is,
};

verus! {

// ---------------------------------------------------------------------------
// URL-safe base64 without padding
// ---------------------------------------------------------------------------

/// What the URL-safe, unpadded base64 engine encodes bytes to.
pub uninterp spec fn spec_base64url_encode(bytes: Seq<u8>) -> Seq<char>;

/// What the URL-safe, unpadded base64 engine decodes a text to, or the text
/// of its error.
pub uninterp spec fn spec_base64url_decode(text: Seq<char>) -> core::result::Result<Seq<u8>, Seq<char>>;

/// Encodes with `base64::engine::general_purpose::URL_SAFE_NO_PAD`; the text
/// is the named function of the bytes and decodes back to them.
#[verifier::external_body]
pub(crate) fn base64url_encode(bytes: &[u8]) -> (r: String)
    ensures
        r@ == spec_base64url_encode(bytes@),
        spec_base64url_decode(r@) is Ok && spec_base64url_decode(r@)->Ok_0 == bytes@,
{
    base64::engine::general_purpose::URL_SAFE_NO_PAD.encode(bytes)
}

/// Decodes with `base64::engine::general_purpose::URL_SAFE_NO_PAD`; the
/// result, or the text of its error, is the named function of the text.
#[verifier::external_body]
pub(crate) fn base64url_decode(text: &str) -> (r: core::result::Result<Vec<u8>, String>)
    ensures
        match spec_base64url_decode(text@) {
            Ok(b) => r is Ok && r->Ok_0@ == b,
            Err(e) => r is Err && r->Err_0@ == e,
        },
{
    base64::engine::general_purpose::URL_SAFE_NO_PAD.decode(text).map_err(|error| error.to_string())
}

// ---------------------------------------------------------------------------
// The mathematical form of an action
// ---------------------------------------------------------------------------

/// An action with every text taken as characters.
pub ghost struct ActionView {
    pub action_id: Seq<char>,
    pub action_kind: InteractiveActionKind,
    pub source: InteractiveActionSource,
    pub label: Seq<char>,
    pub description: Option<Seq<char>>,
    pub message_id: Option<int>,
    pub bot_username: Option<Seq<char>>,
    pub callback_data_base64: Option<Seq<char>>,
    pub command: Option<Seq<char>>,
    pub trigger_text: Option<Seq<char>>,
    pub url: Option<Seq<char>>,
    pub supported: bool,
    pub unsupported_reason: Option<Seq<char>>,
}

/// The text of an optional string.
pub open spec fn ov(s: Option<String>) -> Option<Seq<char>> {
    match s {
        Some(t) => Some(t@),
        None => None,
    }
}

/// The mathematical form of an action.
pub open spec fn action_view(a: InteractiveAction) -> ActionView {
    ActionView {
        action_id: a.action_id@,
        action_kind: a.action_kind,
        source: a.source,
        label: a.label@,
        description: ov(a.description),
        message_id: match a.message_id {
            Some(k) => Some(k as int),
            None => None,
        },
        bot_username: ov(a.bot_username),
        callback_data_base64: ov(a.callback_data_base64),
        command: ov(a.command),
        trigger_text: ov(a.trigger_text),
        url: ov(a.url),
        supported: a.supported,
        unsupported_reason: ov(a.unsupported_reason),
    }
}

/// The action of an inline callback button.
pub open spec fn spec_inline_callback(message_id: int, label: Seq<char>, payload: Seq<u8>) -> ActionView {
    let b64 = spec_base64url_encode(payload);
    ActionView {
        action_id: "inline-callback:"@ + int_decimal(message_id) + ":"@ + b64,
        action_kind: InteractiveActionKind::InlineCallback,
        source: InteractiveActionSource::MessageMarkup,
        label,
        description: None,
        message_id: Some(message_id),
        bot_username: None,
        callback_data_base64: Some(b64),
        command: None,
        trigger_text: None,
        url: None,
        supported: true,
        unsupported_reason: None,
    }
}

/// The action of an inline button that opens a URL.
pub open spec fn spec_inline_url(message_id: int, label: Seq<char>, url: Seq<char>) -> ActionView {
    ActionView {
        action_id: "inline-url:"@ + int_decimal(message_id) + ":"@ + spec_base64url_encode(vstd::utf8::encode_utf8(url)),
        action_kind: InteractiveActionKind::InlineUrl,
        source: InteractiveActionSource::MessageMarkup,
        label,
        description: None,
        message_id: Some(message_id),
        bot_username: None,
        callback_data_base64: None,
        command: None,
        trigger_text: None,
        url: Some(url),
        supported: true,
        unsupported_reason: None,
    }
}

/// The action of a plain reply-keyboard button: sending its label.
pub open spec fn spec_reply_text(message_id: int, label: Seq<char>) -> ActionView {
    ActionView {
        action_id: "reply-text:"@ + int_decimal(message_id) + ":"@ + spec_base64url_encode(vstd::utf8::encode_utf8(label)),
        action_kind: InteractiveActionKind::ReplyKeyboardText,
        source: InteractiveActionSource::MessageMarkup,
        label,
        description: None,
        message_id: Some(message_id),
        bot_username: None,
        callback_data_base64: None,
        command: None,
        trigger_text: Some(label),
        url: None,
        supported: true,
        unsupported_reason: None,
    }
}

/// The action of a reply-keyboard button the tool cannot press.
pub open spec fn spec_unsupported_reply(message_id: int, kind: InteractiveActionKind, label: Seq<char>, reason: Seq<char>) -> ActionView {
    ActionView {
        action_id: "reply-unsupported:"@ + int_decimal(message_id) + ":"@ + spec_action_kind_str(kind) + ":"@
            + spec_base64url_encode(vstd::utf8::encode_utf8(label)),
        action_kind: kind,
        source: InteractiveActionSource::MessageMarkup,
        label,
        description: None,
        message_id: Some(message_id),
        bot_username: None,
        callback_data_base64: None,
        command: None,
        trigger_text: None,
        url: None,
        supported: false,
        unsupported_reason: Some(reason),
    }
}

/// A command with surrounding whitespace removed and a leading `/` ensured.
pub open spec fn spec_normalize_command(command: Seq<char>) -> Seq<char> {
    let t = trim(command);
    if t.len() > 0 && t[0] == '/' {
        t
    } else {
        "/"@ + t
    }
}

/// The action of a bot command.
pub open spec fn spec_bot_command(identity: Seq<char>, command: Seq<char>, description: Seq<char>, supported: bool, reason: Option<Seq<char>>) -> ActionView {
    let normalized = spec_normalize_command(command);
    ActionView {
        action_id: "bot-command:"@ + identity + ":"@ + strip_leading(normalized, '/'),
        action_kind: InteractiveActionKind::BotCommand,
        source: InteractiveActionSource::BotProfile,
        label: normalized,
        description: Some(description),
        message_id: None,
        bot_username: Some(identity),
        callback_data_base64: None,
        command: Some(normalized),
        trigger_text: Some(normalized),
        url: None,
        supported,
        unsupported_reason: reason,
    }
}

/// The action of a bot's menu button.
pub open spec fn spec_bot_menu_url(identity: Seq<char>, label: Seq<char>, url: Seq<char>) -> ActionView {
    ActionView {
        action_id: "bot-menu-url:"@ + identity + ":"@ + spec_base64url_encode(vstd::utf8::encode_utf8(url)),
        action_kind: InteractiveActionKind::BotMenuUrl,
        source: InteractiveActionSource::BotProfile,
        label,
        description: None,
        message_id: None,
        bot_username: Some(identity),
        callback_data_base64: None,
        command: None,
        trigger_text: None,
        url: Some(url),
        supported: true,
        unsupported_reason: None,
    }
}

// ---------------------------------------------------------------------------
// Building actions
// ---------------------------------------------------------------------------

/// `head` followed by the decimal id and a colon.
fn id_prefix(head: &str, message_id: i64) -> (r: String)
    ensures
        r@ == head@ + int_decimal(message_id as int) + ":"@,
{
    let n = i64_decimal(message_id);
    concat3(head, n.as_str(), ":")
}

/// The action of an inline callback button.
pub fn inline_callback_action(message_id: i64, label: &str, payload: &[u8]) -> (r: InteractiveAction)
    ensures
        action_view(r) == spec_inline_callback(message_id as int, label@, payload@),
{
    let b64 = base64url_encode(payload);
    let prefix = id_prefix("inline-callback:", message_id);
    InteractiveAction {
        action_id: concat2(prefix.as_str(), b64.as_str()),
        action_kind: InteractiveActionKind::InlineCallback,
        source: InteractiveActionSource::MessageMarkup,
        label: owned(label),
        description: None,
        message_id: Some(message_id),
        bot_username: None,
        callback_data_base64: Some(b64),
        command: None,
        trigger_text: None,
        url: None,
        supported: true,
        unsupported_reason: None,
    }
}

/// The action of an inline URL button.
pub fn inline_url_action(message_id: i64, label: &str, url: &str) -> (r: InteractiveAction)
    ensures
        action_view(r) == spec_inline_url(message_id as int, label@, url@),
{
    let b64 = base64url_encode(url.as_bytes());
    let prefix = id_prefix("inline-url:", message_id);
    InteractiveAction {
        action_id: concat2(prefix.as_str(), b64.as_str()),
        action_kind: InteractiveActionKind::InlineUrl,
        source: InteractiveActionSource::MessageMarkup,
        label: owned(label),
        description: None,
        message_id: Some(message_id),
        bot_username: None,
        callback_data_base64: None,
        command: None,
        trigger_text: None,
        url: Some(owned(url)),
        supported: true,
        unsupported_reason: None,
    }
}

/// The action of a plain reply-keyboard button.
pub fn reply_keyboard_text_action(message_id: i64, label: &str) -> (r: InteractiveAction)
    ensures
        action_view(r) == spec_reply_text(message_id as int, label@),
{
    let b64 = base64url_encode(label.as_bytes());
    let prefix = id_prefix("reply-text:", message_id);
    InteractiveAction {
        action_id: concat2(prefix.as_str(), b64.as_str()),
        action_kind: InteractiveActionKind::ReplyKeyboardText,
        source: InteractiveActionSource::MessageMarkup,
        label: owned(label),
        description: None,
        message_id: Some(message_id),
        bot_username: None,
        callback_data_base64: None,
        command: None,
        trigger_text: Some(owned(label)),
        url: None,
        supported: true,
        unsupported_reason: None,
    }
}

/// The action of a reply-keyboard button the tool cannot press, with the reason.
pub fn unsupported_reply_action(message_id: i64, action_kind: InteractiveActionKind, label: &str, reason: &str) -> (r: InteractiveAction)
    ensures
        action_view(r) == spec_unsupported_reply(message_id as int, action_kind, label@, reason@),
{
    let b64 = base64url_encode(label.as_bytes());
    let prefix = id_prefix("reply-unsupported:", message_id);
    let middle = concat3(prefix.as_str(), action_kind.as_str(), ":");
    InteractiveAction {
        action_id: concat2(middle.as_str(), b64.as_str()),
        action_kind,
        source: InteractiveActionSource::MessageMarkup,
        label: owned(label),
        description: None,
        message_id: Some(message_id),
        bot_username: None,
        callback_data_base64: None,
        command: None,
        trigger_text: None,
        url: None,
        supported: false,
        unsupported_reason: Some(owned(reason)),
    }
}

/// A command with surrounding whitespace removed and a leading `/` ensured.
pub fn normalize_command(command: &str) -> (r: String)
    ensures
        r@ == spec_normalize_command(command@),
{
    let trimmed = trim_string(command);
    if first_char_is(trimmed.as_str(), '/') {
        trimmed
    } else {
        concat2("/", trimmed.as_str())
    }
}

/// The action of a bot command advertised by `identity`.
pub fn bot_command_action(
    bot_identity: &str,
    command: &str,
    description: &str,
    supported: bool,
    unsupported_reason: Option<String>,
) -> (r: InteractiveAction)
    ensures
        action_view(r) == spec_bot_command(bot_identity@, command@, description@, supported, ov(unsupported_reason)),
{
    let normalized = normalize_command(command);
    let bare = strip_leading_string(normalized.as_str(), '/');
    let head = concat3("bot-command:", bot_identity, ":");
    InteractiveAction {
        action_id: concat2(head.as_str(), bare.as_str()),
        action_kind: InteractiveActionKind::BotCommand,
        source: InteractiveActionSource::BotProfile,
        label: owned(normalized.as_str()),
        description: Some(owned(description)),
        message_id: None,
        bot_username: Some(owned(bot_identity)),
        callback_data_base64: None,
        command: Some(owned(normalized.as_str())),
        trigger_text: Some(normalized),
        url: None,
        supported,
        unsupported_reason,
    }
}

/// The action of a bot's menu button opening a URL.
pub fn bot_menu_url_action(bot_identity: &str, label: &str, url: &str) -> (r: InteractiveAction)
    ensures
        action_view(r) == spec_bot_menu_url(bot_identity@, label@, url@),
{
    let b64 = base64url_encode(url.as_bytes());
    let head = concat3("bot-menu-url:", bot_identity, ":");
    InteractiveAction {
        action_id: concat2(head.as_str(), b64.as_str()),
        action_kind: InteractiveActionKind::BotMenuUrl,
        source: InteractiveActionSource::BotProfile,
        label: owned(label),
        description: None,
        message_id: None,
        bot_username: Some(owned(bot_identity)),
        callback_data_base64: None,
        command: None,
        trigger_text: None,
        url: Some(owned(url)),
        supported: true,
        unsupported_reason: None,
    }
}

/// A copy of an action.
pub fn copy_action(a: &InteractiveAction) -> (r: InteractiveAction)
    ensures
        action_view(r) == action_view(*a),
{
    InteractiveAction {
        action_id: owned(a.action_id.as_str()),
        action_kind: a.action_kind,
        source: a.source,
        label: owned(a.label.as_str()),
        description: crate::telegram::peers::copy_opt(&a.description),
        message_id: a.message_id,
        bot_username: crate::telegram::peers::copy_opt(&a.bot_username),
        callback_data_base64: crate::telegram::peers::copy_opt(&a.callback_data_base64),
        command: crate::telegram::peers::copy_opt(&a.command),
        trigger_text: crate::telegram::peers::copy_opt(&a.trigger_text),
        url: crate::telegram::peers::copy_opt(&a.url),
        supported: a.supported,
        unsupported_reason: crate::telegram::peers::copy_opt(&a.unsupported_reason),
    }
}

// ---------------------------------------------------------------------------
// Picking an action by query
// ---------------------------------------------------------------------------

/// Whether an action answers to a query: by id, label, callback data, command
/// (with or without its leading slashes), trigger text or URL.
pub open spec fn spec_action_matches(a: ActionView, q: Seq<char>) -> bool {
    ||| a.action_id == q
    ||| a.label == q
    ||| (a.callback_data_base64 matches Some(c) && c == q)
    ||| (a.command matches Some(c) && (c == q || strip_leading(c, '/') == strip_leading(q, '/')))
    ||| (a.trigger_text matches Some(t) && t == q)
    ||| (a.url matches Some(u) && u == q)
}

/// Whether an optional text equals `q`.
fn opt_eq(s: &Option<String>, q: &str) -> (r: bool)
    ensures
        r == (ov(*s) matches Some(t) && t == q@),
{
    match s {
        Some(t) => str_eq(t.as_str(), q),
        None => false,
    }
}

/// Whether an action answers to a query.
pub fn action_matches(action: &InteractiveAction, query: &str) -> (r: bool)
    ensures
        r == spec_action_matches(action_view(*action), query@),
{
    if str_eq(action.action_id.as_str(), query) || str_eq(action.label.as_str(), query) {
        return true;
    }
    if opt_eq(&action.callback_data_base64, query) {
        return true;
    }
    match &action.command {
        Some(command) => {
            if str_eq(command.as_str(), query) {
                return true;
            }
            let a = strip_leading_string(command.as_str(), '/');
            let b = strip_leading_string(query, '/');
            if str_eq(a.as_str(), b.as_str()) {
                return true;
            }
        },
        None => {},
    }
    if opt_eq(&action.trigger_text, query) {
        return true;
    }
    opt_eq(&action.url, query)
}

/// The positions of the actions that answer to a query, in order.
pub open spec fn matching_positions(actions: Seq<ActionView>, q: Seq<char>) -> Seq<int>
    decreases actions.len(),
{
    if actions.len() == 0 {
        Seq::empty()
    } else {
        matching_positions(actions.drop_last(), q) + if spec_action_matches(actions.last(), q) {
            seq![actions.len() - 1]
        } else {
            Seq::empty()
        }
    }
}

/// Every matching position lies within the list.
pub proof fn lemma_matching_positions_in_range(actions: Seq<ActionView>, q: Seq<char>)
    ensures
        forall|k: int| 0 <= k < matching_positions(actions, q).len()
            ==> 0 <= #[trigger] matching_positions(actions, q)[k] < actions.len(),
    decreases actions.len(),
{
    if actions.len() > 0 {
        lemma_matching_positions_in_range(actions.drop_last(), q);
        let m = matching_positions(actions, q);
        let p = matching_positions(actions.drop_last(), q);
        let tail: Seq<int> = if spec_action_matches(actions.last(), q) { seq![actions.len() - 1] } else { Seq::empty() };
        assert(m == p + tail);
        assert forall|k: int| 0 <= k < m.len() implies 0 <= #[trigger] m[k] < actions.len() by {
            if k < p.len() {
                assert(m[k] == p[k]);
            } else {
                assert(m[k] == tail[k - p.len()]);
            }
        }
    }
}

/// The mathematical forms of a list of actions.
pub open spec fn actions_view(actions: Seq<InteractiveAction>) -> Seq<ActionView> {
    Seq::new(actions.len(), |i: int| action_view(actions[i]))
}

/// The message for a query no action answers to.
pub open spec fn action_not_found_message(q: Seq<char>) -> Seq<char> {
    "action `"@ + q + "` was not found; run `telegram-agent-cli message list-actions --chat <peer>` to inspect available actions"@
}

/// The message for a query several actions answer to.
pub open spec fn action_ambiguous_message(q: Seq<char>) -> Seq<char> {
    "action `"@ + q + "` is ambiguous; rerun `telegram-agent-cli message list-actions --chat <peer>` and use the exact action_id"@
}

/// The one action that answers to the trimmed query, by position; an error
/// when none or several do.
pub fn resolve_action_match(actions: &[InteractiveAction], query: &str) -> (r: Result<usize>)
    ensures
        ({
            let q = trim(query@);
            let m = matching_positions(actions_view(actions@), q);
            &&& m.len() == 0 ==> r is Err && is_message_error(r->Err_0, action_not_found_message(q))
            &&& m.len() == 1 ==> r == Ok::<usize, TelegramCliError>(m[0] as usize)
            &&& m.len() > 1 ==> r is Err && is_message_error(r->Err_0, action_ambiguous_message(q))
        }),
        r is Ok ==> r->Ok_0 < actions@.len(),
{
    let q = trim_string(query);
    let ghost av = actions_view(actions@);
    let mut found: Option<usize> = None;
    let mut count: usize = 0;
    let mut i: usize = 0;
    while i < actions.len()
        invariant
            av == actions_view(actions@),
            i <= actions@.len(),
            count == matching_positions(av.subrange(0, i as int), q@).len() || count >= 2,
            count <= 2,
            count == 0 <==> matching_positions(av.subrange(0, i as int), q@).len() == 0,
            count == 1 ==> matching_positions(av.subrange(0, i as int), q@).len() == 1,
            count == 1 ==> found is Some && found->0 < i && matching_positions(av.subrange(0, i as int), q@)[0] == found->0,
            count >= 2 ==> matching_positions(av.subrange(0, i as int), q@).len() >= 2,
        decreases actions@.len() - i,
    {
        proof {
            assert(av.subrange(0, i + 1).drop_last() =~= av.subrange(0, i as int));
            assert(av.subrange(0, i + 1).last() == av[i as int]);
        }
        if action_matches(&actions[i], q.as_str()) {
            if count == 0 {
                found = Some(i);
            }
            if count < 2 {
                count = count + 1;
            }
        }
        i = i + 1;
    }
    assert(av.subrange(0, actions@.len() as int) =~= av);
    if count == 0 {
        Err(TelegramCliError::Message(concat3(
            "action `",
            q.as_str(),
            "` was not found; run `telegram-agent-cli message list-actions --chat <peer>` to inspect available actions",
        )))
    } else if count == 1 {
        Ok(found.unwrap())
    } else {
        Err(TelegramCliError::Message(concat3(
            "action `",
            q.as_str(),
            "` is ambiguous; rerun `telegram-agent-cli message list-actions --chat <peer>` and use the exact action_id",
        )))
    }
}

/// Law: an action answers to its own id.
pub proof fn law_action_matches_own_id(a: ActionView)
    ensures
        spec_action_matches(a, a.action_id),
{
}

/// Law: a command action answers to its command with or without the slash.
pub proof fn law_command_matches_without_slash(a: ActionView, c: Seq<char>)
    requires
        a.command == Some(c),
    ensures
        spec_action_matches(a, strip_leading(c, '/')),
{
    lemma_strip_leading_idempotent(c, '/');
}

proof fn lemma_strip_leading_idempotent(s: Seq<char>, c: char)
    ensures
        strip_leading(strip_leading(s, c), c) == strip_leading(s, c),
    decreases s.len(),
{
    if s.len() > 0 && s[0] == c {
        lemma_strip_leading_idempotent(s.subrange(1, s.len() as int), c);
    }
}

/// Law: normalizing a command is idempotent and always yields a leading `/`.
pub proof fn law_normalize_command(command: Seq<char>)
    ensures
        spec_normalize_command(command).len() > 0,
        spec_normalize_command(command)[0] == '/',
        spec_normalize_command(spec_normalize_command(command)) == spec_normalize_command(command),
{
    let t = trim(command);
    crate::text::lemma_trim_props(command);
    let n = spec_normalize_command(command);
    if !(t.len() > 0 && t[0] == '/') {
        assert(n == "/"@ + t);
        reveal_strlit("/");
        assert(n[0] == '/');
        if t.len() > 0 {
            assert(n[n.len() - 1] == t[t.len() - 1]);
        }
        assert(!crate::text::is_ws('/'));
    }
    crate::text::lemma_trim_of_trimmed(n);
}

} // verus!
