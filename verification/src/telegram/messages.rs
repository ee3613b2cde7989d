//! Messages and interactive actions.
use vstd::prelude::*;
use crate::json::{Json, JsonValue, ObjectBuilder, entries_view, opt_entry};
use crate::telegram::peers::{opt_str_json, copy_opt};
use crate::text::{int_decimal, owned};

verus! {

/// Whether a message is plain text or carries a file.
#[derive(Debug, Clone, Copy, PartialEq, Eq, Structural)]
pub enum MessageKind {
    Text,
    File,
}

/// The kinds of interactive controls the tool can discover.
#[derive(Debug, Clone, Copy, PartialEq, Eq, Structural)]
pub enum InteractiveActionKind {
    InlineCallback,
    InlineUrl,
    ReplyKeyboardText,
    ReplyKeyboardRequestPhone,
    ReplyKeyboardRequestGeo,
    ReplyKeyboardRequestPoll,
    ReplyKeyboardRequestPeer,
    BotCommand,
    BotMenuUrl,
}

/// Where an interactive control was found.
#[derive(Debug, Clone, Copy, PartialEq, Eq, Structural)]
pub enum InteractiveActionSource {
    MessageMarkup,
    BotProfile,
}

/// One interactive control: a button, a keyboard key, a bot command or menu link.
#[derive(Debug, Clone, PartialEq, Eq)]
pub struct InteractiveAction {
    pub action_id: String,
    pub action_kind: InteractiveActionKind,
    pub source: InteractiveActionSource,
    pub label: String,
    pub description: Option<String>,
    pub message_id: Option<i64>,
    pub bot_username: Option<String>,
    pub callback_data_base64: Option<String>,
    pub command: Option<String>,
    pub trigger_text: Option<String>,
    pub url: Option<String>,
    pub supported: bool,
    pub unsupported_reason: Option<String>,
}

/// What triggering an action did.
#[derive(Debug, Clone, PartialEq, Eq)]
pub struct ActionInvocationResult {
    pub action_id: String,
    pub action_kind: InteractiveActionKind,
    pub label: String,
    pub effect: String,
    pub sent_text: Option<String>,
    pub url: Option<String>,
    pub response_received: bool,
    pub response: Option<IncomingMessage>,
}

/// A message the account sent.
#[derive(Debug, Clone, PartialEq, Eq)]
pub struct SentMessage {
    pub message_id: i64,
    pub account_name: String,
    pub peer_id: i64,
    pub text: Option<String>,
    pub file_path: Option<String>,
    pub caption: Option<String>,
    pub timestamp: String,
}

/// A message the account received.
#[derive(Debug, Clone, PartialEq, Eq)]
pub struct IncomingMessage {
    pub message_id: i64,
    pub peer_id: i64,
    pub sender: Option<String>,
    pub text: Option<String>,
    pub kind: MessageKind,
    pub reply_to_message_id: Option<i64>,
    pub timestamp: String,
}

/// The snake-case name of a message kind.
pub open spec fn spec_message_kind_str(k: MessageKind) -> Seq<char> {
    match k {
        MessageKind::Text => "text"@,
        MessageKind::File => "file"@,
    }
}

/// The snake-case name of an action kind.
pub open spec fn spec_action_kind_str(k: InteractiveActionKind) -> Seq<char> {
    match k {
        InteractiveActionKind::InlineCallback => "inline_callback"@,
        InteractiveActionKind::InlineUrl => "inline_url"@,
        InteractiveActionKind::ReplyKeyboardText => "reply_keyboard_text"@,
        InteractiveActionKind::ReplyKeyboardRequestPhone => "reply_keyboard_request_phone"@,
        InteractiveActionKind::ReplyKeyboardRequestGeo => "reply_keyboard_request_geo"@,
        InteractiveActionKind::ReplyKeyboardRequestPoll => "reply_keyboard_request_poll"@,
        InteractiveActionKind::ReplyKeyboardRequestPeer => "reply_keyboard_request_peer"@,
        InteractiveActionKind::BotCommand => "bot_command"@,
        InteractiveActionKind::BotMenuUrl => "bot_menu_url"@,
    }
}

/// The snake-case name of an action source.
pub open spec fn spec_action_source_str(k: InteractiveActionSource) -> Seq<char> {
    match k {
        InteractiveActionSource::MessageMarkup => "message_markup"@,
        InteractiveActionSource::BotProfile => "bot_profile"@,
    }
}

impl MessageKind {
    /// The snake-case name of the kind.
    pub fn as_str(self) -> (r: &'static str)
        ensures
            r@ == spec_message_kind_str(self),
    {
        match self {
            MessageKind::Text => "text",
            MessageKind::File => "file",
        }
    }
}

impl InteractiveActionKind {
    /// The snake-case name of the kind.
    pub fn as_str(self) -> (r: &'static str)
        ensures
            r@ == spec_action_kind_str(self),
    {
        match self {
            InteractiveActionKind::InlineCallback => "inline_callback",
            InteractiveActionKind::InlineUrl => "inline_url",
            InteractiveActionKind::ReplyKeyboardText => "reply_keyboard_text",
            InteractiveActionKind::ReplyKeyboardRequestPhone => "reply_keyboard_request_phone",
            InteractiveActionKind::ReplyKeyboardRequestGeo => "reply_keyboard_request_geo",
            InteractiveActionKind::ReplyKeyboardRequestPoll => "reply_keyboard_request_poll",
            InteractiveActionKind::ReplyKeyboardRequestPeer => "reply_keyboard_request_peer",
            InteractiveActionKind::BotCommand => "bot_command",
            InteractiveActionKind::BotMenuUrl => "bot_menu_url",
        }
    }
}

impl InteractiveActionSource {
    /// The snake-case name of the source.
    pub fn as_str(self) -> (r: &'static str)
        ensures
            r@ == spec_action_source_str(self),
    {
        match self {
            InteractiveActionSource::MessageMarkup => "message_markup",
            InteractiveActionSource::BotProfile => "bot_profile",
        }
    }
}

/// An optional number as JSON.
pub open spec fn opt_int_json(n: Option<i64>) -> Json {
    match n {
        Some(k) => Json::Number(int_decimal(k as int)),
        None => Json::Null,
    }
}

/// The JSON form of a received message.
pub open spec fn spec_incoming_json(m: IncomingMessage) -> Json {
    Json::Object(seq![
        ("message_id"@, Json::Number(int_decimal(m.message_id as int))),
        ("peer_id"@, Json::Number(int_decimal(m.peer_id as int))),
        ("sender"@, opt_str_json(m.sender)),
        ("text"@, opt_str_json(m.text)),
        ("kind"@, Json::Str(spec_message_kind_str(m.kind))),
        ("reply_to_message_id"@, opt_int_json(m.reply_to_message_id)),
        ("timestamp"@, Json::Str(m.timestamp@)),
    ])
}

/// The JSON form of a sent message.
pub open spec fn spec_sent_json(m: SentMessage) -> Json {
    Json::Object(seq![
        ("message_id"@, Json::Number(int_decimal(m.message_id as int))),
        ("account_name"@, Json::Str(m.account_name@)),
        ("peer_id"@, Json::Number(int_decimal(m.peer_id as int))),
        ("text"@, opt_str_json(m.text)),
        ("file_path"@, opt_str_json(m.file_path)),
        ("caption"@, opt_str_json(m.caption)),
        ("timestamp"@, Json::Str(m.timestamp@)),
    ])
}

/// The JSON entries of an action; absent optional fields are left out.
pub open spec fn spec_action_entries(a: InteractiveAction) -> Seq<(Seq<char>, Json)> {
    seq![
        ("action_id"@, Json::Str(a.action_id@)),
        ("action_kind"@, Json::Str(spec_action_kind_str(a.action_kind))),
        ("source"@, Json::Str(spec_action_source_str(a.source))),
        ("label"@, Json::Str(a.label@)),
    ] + opt_entry("description"@, a.description) + match a.message_id {
        Some(k) => seq![("message_id"@, Json::Number(int_decimal(k as int)))],
        None => Seq::empty(),
    } + opt_entry("bot_username"@, a.bot_username) + opt_entry(
        "callback_data_base64"@,
        a.callback_data_base64,
    ) + opt_entry("command"@, a.command) + opt_entry("trigger_text"@, a.trigger_text)
        + opt_entry("url"@, a.url) + seq![("supported"@, Json::Bool(a.supported))] + opt_entry(
        "unsupported_reason"@,
        a.unsupported_reason,
    )
}

impl IncomingMessage {
    /// The JSON form of the message.
    pub fn to_json(&self) -> (r: JsonValue)
        ensures
            r@ == spec_incoming_json(*self),
    {
        let mut b = ObjectBuilder::new();
        b.field("message_id", JsonValue::integer(self.message_id));
        b.field("peer_id", JsonValue::integer(self.peer_id));
        b.field("sender", JsonValue::opt_string(&self.sender));
        b.field("text", JsonValue::opt_string(&self.text));
        b.field("kind", JsonValue::string(self.kind.as_str()));
        b.field("reply_to_message_id", JsonValue::opt_int(self.reply_to_message_id));
        b.field("timestamp", JsonValue::string(self.timestamp.as_str()));
        let ghost e = entries_view(b.entries@);
        let r = b.build();
        assert(e =~= seq![
            ("message_id"@, Json::Number(int_decimal(self.message_id as int))),
            ("peer_id"@, Json::Number(int_decimal(self.peer_id as int))),
            ("sender"@, opt_str_json(self.sender)),
            ("text"@, opt_str_json(self.text)),
            ("kind"@, Json::Str(spec_message_kind_str(self.kind))),
            ("reply_to_message_id"@, opt_int_json(self.reply_to_message_id)),
            ("timestamp"@, Json::Str(self.timestamp@)),
        ]);
        r
    }

    /// A copy of the message.
    pub fn duplicate(&self) -> (r: IncomingMessage)
        ensures
            r.message_id == self.message_id,
            r.peer_id == self.peer_id,
            r.sender is Some == self.sender is Some,
            r.sender is Some ==> r.sender->0@ == self.sender->0@,
            r.text is Some == self.text is Some,
            r.text is Some ==> r.text->0@ == self.text->0@,
            r.kind == self.kind,
            r.reply_to_message_id == self.reply_to_message_id,
            r.timestamp@ == self.timestamp@,
    {
        IncomingMessage {
            message_id: self.message_id,
            peer_id: self.peer_id,
            sender: copy_opt(&self.sender),
            text: copy_opt(&self.text),
            kind: self.kind,
            reply_to_message_id: self.reply_to_message_id,
            timestamp: owned(self.timestamp.as_str()),
        }
    }
}

impl SentMessage {
    /// The JSON form of the message.
    pub fn to_json(&self) -> (r: JsonValue)
        ensures
            r@ == spec_sent_json(*self),
    {
        let mut b = ObjectBuilder::new();
        b.field("message_id", JsonValue::integer(self.message_id));
        b.field("account_name", JsonValue::string(self.account_name.as_str()));
        b.field("peer_id", JsonValue::integer(self.peer_id));
        b.field("text", JsonValue::opt_string(&self.text));
        b.field("file_path", JsonValue::opt_string(&self.file_path));
        b.field("caption", JsonValue::opt_string(&self.caption));
        b.field("timestamp", JsonValue::string(self.timestamp.as_str()));
        let ghost e = entries_view(b.entries@);
        let r = b.build();
        assert(e =~= seq![
            ("message_id"@, Json::Number(int_decimal(self.message_id as int))),
            ("account_name"@, Json::Str(self.account_name@)),
            ("peer_id"@, Json::Number(int_decimal(self.peer_id as int))),
            ("text"@, opt_str_json(self.text)),
            ("file_path"@, opt_str_json(self.file_path)),
            ("caption"@, opt_str_json(self.caption)),
            ("timestamp"@, Json::Str(self.timestamp@)),
        ]);
        r
    }
}

impl InteractiveAction {
    /// The JSON form of the action.
    pub fn to_json(&self) -> (r: JsonValue)
        ensures
            r@ == Json::Object(spec_action_entries(*self)),
    {
        let mut b = ObjectBuilder::new();
        b.field("action_id", JsonValue::string(self.action_id.as_str()));
        b.field("action_kind", JsonValue::string(self.action_kind.as_str()));
        b.field("source", JsonValue::string(self.source.as_str()));
        b.field("label", JsonValue::string(self.label.as_str()));
        let ghost e0 = entries_view(b.entries@);
        b.field_opt("description", &self.description);
        let ghost e1 = entries_view(b.entries@);
        match self.message_id {
            Some(k) => {
                b.field("message_id", JsonValue::integer(k));
            },
            None => {},
        }
        let ghost e2 = entries_view(b.entries@);
        b.field_opt("bot_username", &self.bot_username);
        b.field_opt("callback_data_base64", &self.callback_data_base64);
        b.field_opt("command", &self.command);
        b.field_opt("trigger_text", &self.trigger_text);
        b.field_opt("url", &self.url);
        let ghost e3 = entries_view(b.entries@);
        b.field("supported", JsonValue::Bool(self.supported));
        b.field_opt("unsupported_reason", &self.unsupported_reason);
        let ghost e = entries_view(b.entries@);
        let r = b.build();
        assert(e0 =~= seq![
            ("action_id"@, Json::Str(self.action_id@)),
            ("action_kind"@, Json::Str(spec_action_kind_str(self.action_kind))),
            ("source"@, Json::Str(spec_action_source_str(self.source))),
            ("label"@, Json::Str(self.label@)),
        ]);
        assert(e2 =~= e1 + match self.message_id {
            Some(k) => seq![("message_id"@, Json::Number(int_decimal(k as int)))],
            None => Seq::empty(),
        });
        assert(e =~= spec_action_entries(*self));
        r
    }
}

impl ActionInvocationResult {
    /// The JSON form of the result; absent optional fields are left out.
    pub fn to_json(&self) -> (r: JsonValue)
        ensures
            r@ == Json::Object(seq![
                ("action_id"@, Json::Str(self.action_id@)),
                ("action_kind"@, Json::Str(spec_action_kind_str(self.action_kind))),
                ("label"@, Json::Str(self.label@)),
                ("effect"@, Json::Str(self.effect@)),
            ] + opt_entry("sent_text"@, self.sent_text) + opt_entry("url"@, self.url) + seq![
                ("response_received"@, Json::Bool(self.response_received)),
            ] + match self.response {
                Some(m) => seq![("response"@, spec_incoming_json(m))],
                None => Seq::empty(),
            }),
    {
        let mut b = ObjectBuilder::new();
        b.field("action_id", JsonValue::string(self.action_id.as_str()));
        b.field("action_kind", JsonValue::string(self.action_kind.as_str()));
        b.field("label", JsonValue::string(self.label.as_str()));
        b.field("effect", JsonValue::string(self.effect.as_str()));
        let ghost e0 = entries_view(b.entries@);
        b.field_opt("sent_text", &self.sent_text);
        b.field_opt("url", &self.url);
        b.field("response_received", JsonValue::Bool(self.response_received));
        let ghost e1 = entries_view(b.entries@);
        match &self.response {
            Some(m) => {
                b.field("response", m.to_json());
            },
            None => {},
        }
        let ghost e = entries_view(b.entries@);
        let r = b.build();
        assert(e0 =~= seq![
            ("action_id"@, Json::Str(self.action_id@)),
            ("action_kind"@, Json::Str(spec_action_kind_str(self.action_kind))),
            ("label"@, Json::Str(self.label@)),
            ("effect"@, Json::Str(self.effect@)),
        ]);
        assert(e =~= e1 + match self.response {
            Some(m) => seq![("response"@, spec_incoming_json(m))],
            None => Seq::empty(),
        });
        assert(e =~= seq![
                ("action_id"@, Json::Str(self.action_id@)),
                ("action_kind"@, Json::Str(spec_action_kind_str(self.action_kind))),
                ("label"@, Json::Str(self.label@)),
                ("effect"@, Json::Str(self.effect@)),
            ] + opt_entry("sent_text"@, self.sent_text) + opt_entry("url"@, self.url) + seq![
                ("response_received"@, Json::Bool(self.response_received)),
            ] + match self.response {
                Some(m) => seq![("response"@, spec_incoming_json(m))],
                None => Seq::empty(),
            });
        r
    }
}

} // verus!
