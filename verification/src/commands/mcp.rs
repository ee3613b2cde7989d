//! The MCP tool server: JSON-RPC requests, the tool catalogue, and how a tool
//! call's arguments become an operation.
use vstd::prelude::*;
use crate::commands::context::{is_explicit, resolve_account_name};
use crate::commands::message::{WaitDuration, parse_duration_text, spec_duration_text};
use crate::telegram::peers::opt_chars;
use crate::errors::{Result, TelegramCliError, is_message_error};
use crate::json::{Json, JsonValue, ObjectBuilder, entries_view, items_view, lemma_items_view_push};
use crate::text::{concat2, owned, parse_i64, parse_unsigned, spec_parse_signed, spec_parse_unsigned, str_eq};
use crate::telegram::updates::MessageFilter;

verus! {

// ---------------------------------------------------------------------------
// Reading JSON arguments
// ---------------------------------------------------------------------------

/// The value of the first entry with `key` in an object; nothing otherwise.
pub open spec fn json_get(v: Json, key: Seq<char>) -> Option<Json> {
    match v {
        Json::Object(entries) => entries_get(entries, key),
        _ => None,
    }
}

/// The value of the first entry with `key`.
pub open spec fn entries_get(entries: Seq<(Seq<char>, Json)>, key: Seq<char>) -> Option<Json>
    decreases entries.len(),
{
    if entries.len() == 0 {
        None
    } else if entries[0].0 == key {
        Some(entries[0].1)
    } else {
        entries_get(entries.subrange(1, entries.len() as int), key)
    }
}

/// The text of a string value.
pub open spec fn as_str(v: Option<Json>) -> Option<Seq<char>> {
    match v {
        Some(Json::Str(s)) => Some(s),
        _ => None,
    }
}

/// The value of a number that is a non-negative integer fitting in 64 bits.
pub open spec fn as_u64(v: Option<Json>) -> Option<nat> {
    match v {
        Some(Json::Number(n)) => spec_parse_unsigned(n, u64::MAX as nat),
        _ => None,
    }
}

/// The value of a number that is an integer fitting in a signed 64 bits.
pub open spec fn as_i64(v: Option<Json>) -> Option<int> {
    match v {
        Some(Json::Number(n)) => spec_parse_signed(n, i64::MAX as nat),
        _ => None,
    }
}

/// The value under `key`, when `v` is an object that has one.
pub fn json_get_exec<'a>(v: &'a JsonValue, key: &str) -> (r: Option<&'a JsonValue>)
    ensures
        match json_get(v@, key@) {
            Some(x) => r is Some && r->0@ == x,
            None => r is None,
        },
{
    match v {
        JsonValue::Object(entries) => {
            let ghost ev = entries_view(entries@);
            proof {
                crate::json::lemma_entries_view(entries@);
            }
            let mut i: usize = 0;
            assert(ev.subrange(0, ev.len() as int) =~= ev);
            while i < entries.len()
                invariant
                    ev == entries_view(entries@),
                    ev.len() == entries@.len(),
                    *v == JsonValue::Object(*entries),
                    forall|k: int| 0 <= k < entries@.len() ==> ev[k] == (#[trigger] entries@[k].0@, entries@[k].1@),
                    i <= entries@.len(),
                    entries_get(ev, key@) == entries_get(ev.subrange(i as int, ev.len() as int), key@),
                decreases entries@.len() - i,
            {
                let ghost rest = ev.subrange(i as int, ev.len() as int);
                assert(rest[0] == ev[i as int]);
                assert(ev[i as int] == (entries@[i as int].0@, entries@[i as int].1@));
                assert(rest.subrange(1, rest.len() as int) =~= ev.subrange(i + 1, ev.len() as int));
                if str_eq(entries[i].0.as_str(), key) {
                    return Some(&entries[i].1);
                }
                i = i + 1;
            }
            None
        },
        _ => None,
    }
}

/// The text under `key`, when it is a string.
pub fn get_str<'a>(args: &'a JsonValue, key: &str) -> (r: Option<&'a str>)
    ensures
        match as_str(json_get(args@, key@)) {
            Some(s) => r is Some && r->0@ == s,
            None => r is None,
        },
{
    match json_get_exec(args, key) {
        Some(JsonValue::Str(s)) => Some(s.as_str()),
        _ => None,
    }
}

/// The non-negative integer under `key`.
pub fn get_u64(args: &JsonValue, key: &str) -> (r: Option<u64>)
    ensures
        match as_u64(json_get(args@, key@)) {
            Some(n) => r == Some(n as u64),
            None => r is None,
        },
{
    match json_get_exec(args, key) {
        Some(JsonValue::Number(n)) => parse_unsigned(n.as_str(), u64::MAX),
        _ => None,
    }
}

/// The signed integer under `key`.
pub fn get_i64(args: &JsonValue, key: &str) -> (r: Option<i64>)
    ensures
        match as_i64(json_get(args@, key@)) {
            Some(n) => r == Some(n as i64),
            None => r is None,
        },
{
    match json_get_exec(args, key) {
        Some(JsonValue::Number(n)) => parse_i64(n.as_str()),
        _ => None,
    }
}

/// The message for a missing required argument.
pub open spec fn missing_parameter_message(key: Seq<char>) -> Seq<char> {
    "Missing required parameter: "@ + key
}

/// The text under `key`; an error naming the key when it is absent or not a string.
pub fn require_str(args: &JsonValue, key: &str) -> (r: Result<String>)
    ensures
        match as_str(json_get(args@, key@)) {
            Some(s) => r is Ok && r->Ok_0@ == s,
            None => r is Err && is_message_error(r->Err_0, missing_parameter_message(key@)),
        },
{
    match get_str(args, key) {
        Some(s) => Ok(owned(s)),
        None => Err(TelegramCliError::Message(concat2("Missing required parameter: ", key))),
    }
}

// ---------------------------------------------------------------------------
// The tool catalogue
// ---------------------------------------------------------------------------

/// The names of the tools, in catalogue order.
pub open spec fn tool_names() -> Seq<Seq<char>> {
    seq![
        "send_message"@,
        "send_file"@,
        "recv_messages"@,
        "wait_for_message"@,
        "resolve_peer"@,
        "list_contacts"@,
        "list_chats"@,
        "list_accounts"@,
        "click_button"@,
        "list_actions"@,
        "trigger_action"@,
        "send_photo"@,
        "forward_messages"@,
        "edit_message"@,
        "pin_message"@,
        "unpin_message"@,
        "download_media"@,
    ]
}

/// The description of each tool, in catalogue order.
pub open spec fn tool_descriptions() -> Seq<Seq<char>> {
    seq![
        "Send a text message to a Telegram peer."@,
        "Upload and send a file to a Telegram peer."@,
        "Read recent messages from a Telegram chat."@,
        "Block until a matching incoming message arrives in a chat."@,
        "Resolve a username, alias, or numeric ID into a Telegram peer record."@,
        "List the direct contacts of a Telegram account."@,
        "List groups and channels available to a Telegram account."@,
        "List all configured telegram-agent-cli accounts and their login state."@,
        "Click an inline button in a bot message."@,
        "Discover interactive actions (inline buttons, reply keyboards, bot commands) in a chat."@,
        "Trigger a previously discovered interactive action by ID or label."@,
        "Send a photo to a Telegram peer."@,
        "Forward messages from one chat to another."@,
        "Edit the text of an existing message."@,
        "Pin a message in a chat."@,
        "Unpin a pinned message in a chat."@,
        "Download media attached to a message."@,
    ]
}

/// The properties of each tool's input schema, in catalogue order and in
/// schema order: each property's name and its schema.
pub open spec fn tool_properties() -> Seq<Seq<(Seq<char>, Json)>> {
    seq![
        seq![
            ("account"@, spec_prop_default_str("string"@, "Account name (omit for default)"@, "default"@)),
            ("chat"@, spec_prop("string"@, "Target: alias, @username, or numeric peer ID"@)),
            ("text"@, spec_prop("string"@, "Message text to send"@)),
        ],
        seq![
            ("account"@, spec_prop_default_str("string"@, "Account name"@, "default"@)),
            ("chat"@, spec_prop("string"@, "Target chat identifier"@)),
            ("path"@, spec_prop("string"@, "Local file path to upload"@)),
            ("caption"@, spec_prop("string"@, "Optional caption for the file"@)),
        ],
        seq![
            ("account"@, spec_prop_default_str("string"@, "Account name"@, "default"@)),
            ("chat"@, spec_prop("string"@, "Target chat identifier"@)),
            ("limit"@, spec_prop_default_int("integer"@, "Max messages to return (default 20)"@, 20)),
        ],
        seq![
            ("account"@, spec_prop_default_str("string"@, "Account name"@, "default"@)),
            ("chat"@, spec_prop("string"@, "Target chat identifier"@)),
            ("text"@, spec_prop("string"@, "Require exact text match"@)),
            ("text_contains"@, spec_prop("string"@, "Require text to contain this substring"@)),
            ("timeout"@, spec_prop_default_str("string"@, "Max wait duration, e.g. '30s'"@, "30s"@)),
        ],
        seq![
            ("account"@, spec_prop_default_str("string"@, "Account name"@, "default"@)),
            ("query"@, spec_prop("string"@, "Alias, @username, or numeric peer ID"@)),
        ],
        seq![
            ("account"@, spec_prop_default_str("string"@, "Account name"@, "default"@)),
        ],
        seq![
            ("account"@, spec_prop_default_str("string"@, "Account name"@, "default"@)),
        ],
        Seq::empty(),
        seq![
            ("account"@, spec_prop_default_str("string"@, "Account name"@, "default"@)),
            ("chat"@, spec_prop("string"@, "Chat containing the button"@)),
            ("button"@, spec_prop("string"@, "Button label or callback data"@)),
            ("message_id"@, spec_prop("integer"@, "Specific message ID (optional)"@)),
            ("wait_timeout"@, spec_prop_default_str("string"@, "How long to wait for a response"@, "5s"@)),
        ],
        seq![
            ("account"@, spec_prop_default_str("string"@, "Account name"@, "default"@)),
            ("chat"@, spec_prop("string"@, "Chat to inspect"@)),
            ("message_id"@, spec_prop("integer"@, "Inspect a specific message (optional)"@)),
            ("limit"@, spec_prop_default_int("integer"@, "Number of recent messages to scan"@, 20)),
        ],
        seq![
            ("account"@, spec_prop_default_str("string"@, "Account name"@, "default"@)),
            ("chat"@, spec_prop("string"@, "Chat containing the action"@)),
            ("action"@, spec_prop("string"@, "Action ID or label from list_actions"@)),
            ("message_id"@, spec_prop("integer"@, "Specific message ID (optional)"@)),
            ("wait_timeout"@, spec_prop_default_str("string"@, "How long to wait for a response"@, "5s"@)),
        ],
        seq![
            ("account"@, spec_prop_default_str("string"@, "Account name"@, "default"@)),
            ("chat"@, spec_prop("string"@, "Target: alias, @username, or numeric peer ID"@)),
            ("path"@, spec_prop("string"@, "Local file path of the photo"@)),
            ("caption"@, spec_prop("string"@, "Optional caption for the photo"@)),
        ],
        seq![
            ("account"@, spec_prop_default_str("string"@, "Account name"@, "default"@)),
            ("from_chat"@, spec_prop("string"@, "Source chat identifier"@)),
            ("to_chat"@, spec_prop("string"@, "Destination chat identifier"@)),
            ("message_ids"@, spec_prop("string"@, "Comma-separated message IDs to forward"@)),
        ],
        seq![
            ("account"@, spec_prop_default_str("string"@, "Account name"@, "default"@)),
            ("chat"@, spec_prop("string"@, "Chat containing the message"@)),
            ("message_id"@, spec_prop("integer"@, "Message ID to edit"@)),
            ("text"@, spec_prop("string"@, "New text content"@)),
        ],
        seq![
            ("account"@, spec_prop_default_str("string"@, "Account name"@, "default"@)),
            ("chat"@, spec_prop("string"@, "Chat containing the message"@)),
            ("message_id"@, spec_prop("integer"@, "Message ID to pin"@)),
        ],
        seq![
            ("account"@, spec_prop_default_str("string"@, "Account name"@, "default"@)),
            ("chat"@, spec_prop("string"@, "Chat containing the message"@)),
            ("message_id"@, spec_prop("integer"@, "Message ID to unpin"@)),
        ],
        seq![
            ("account"@, spec_prop_default_str("string"@, "Account name"@, "default"@)),
            ("chat"@, spec_prop("string"@, "Chat containing the message"@)),
            ("message_id"@, spec_prop("integer"@, "Message ID with media to download"@)),
            ("output"@, spec_prop("string"@, "Local file path to save the media"@)),
        ],
    ]
}

/// The property names of each tool's input schema, in catalogue order and
/// in schema order.
pub open spec fn tool_property_table() -> Seq<Seq<Seq<char>>> {
    Seq::new(tool_properties().len(), |i: int| entry_keys(tool_properties()[i]))
}

/// The required property names of each tool's input schema, in catalogue
/// order; none for a tool whose schema has no `required` list.
pub open spec fn tool_required_table() -> Seq<Seq<Seq<char>>> {
    seq![
        seq!["chat"@, "text"@],
        seq!["chat"@, "path"@],
        seq!["chat"@],
        seq!["chat"@],
        seq!["query"@],
        Seq::empty(),
        Seq::empty(),
        Seq::empty(),
        seq!["chat"@, "button"@],
        seq!["chat"@],
        seq!["chat"@, "action"@],
        seq!["chat"@, "path"@],
        seq!["from_chat"@, "to_chat"@, "message_ids"@],
        seq!["chat"@, "message_id"@, "text"@],
        seq!["chat"@, "message_id"@],
        seq!["chat"@, "message_id"@],
        seq!["chat"@, "message_id"@],
    ]
}

/// The keys of an object's entries, in order.
pub open spec fn entry_keys(entries: Seq<(Seq<char>, Json)>) -> Seq<Seq<char>> {
    Seq::new(entries.len(), |i: int| entries[i].0)
}

/// A JSON array of the given texts.
pub open spec fn json_strings(items: Seq<Seq<char>>) -> Json {
    Json::Array(Seq::new(items.len(), |i: int| Json::Str(items[i])))
}

/// The catalogue entry at index `i`: the tool's name and description, and an
/// input schema that is an object type with exactly the tool's properties,
/// in order, and its required list (absent when it has none).
pub open spec fn spec_tool_entry(i: int) -> Json {
    Json::Object(seq![
        ("name"@, Json::Str(tool_names()[i])),
        ("description"@, Json::Str(tool_descriptions()[i])),
        ("inputSchema"@, Json::Object(seq![
            ("type"@, Json::Str("object"@)),
            ("properties"@, Json::Object(tool_properties()[i])),
        ] + if tool_required_table()[i].len() > 0 {
            seq![("required"@, json_strings(tool_required_table()[i]))]
        } else {
            Seq::empty()
        })),
    ])
}

/// The whole catalogue, in order.
pub open spec fn tool_catalogue() -> Seq<Json> {
    Seq::new(tool_names().len(), |i: int| spec_tool_entry(i))
}

/// A property schema of a type and a description.
pub open spec fn spec_prop(kind: Seq<char>, description: Seq<char>) -> Json {
    Json::Object(seq![("type"@, Json::Str(kind)), ("description"@, Json::Str(description))])
}

/// A property schema with a default text.
pub open spec fn spec_prop_default_str(kind: Seq<char>, description: Seq<char>, default: Seq<char>) -> Json {
    Json::Object(seq![
        ("type"@, Json::Str(kind)),
        ("description"@, Json::Str(description)),
        ("default"@, Json::Str(default)),
    ])
}

/// A property schema with a default number.
pub open spec fn spec_prop_default_int(kind: Seq<char>, description: Seq<char>, default: nat) -> Json {
    Json::Object(seq![
        ("type"@, Json::Str(kind)),
        ("description"@, Json::Str(description)),
        ("default"@, Json::Number(crate::text::nat_decimal(default))),
    ])
}

/// A property schema: its type and description.
fn prop(kind: &str, description: &str) -> (r: JsonValue)
    ensures
        r@ == spec_prop(kind@, description@),
{
    let mut b = ObjectBuilder::new();
    b.field("type", JsonValue::string(kind));
    b.field("description", JsonValue::string(description));
    assert(entries_view(b.entries@) =~= seq![
        ("type"@, Json::Str(kind@)),
        ("description"@, Json::Str(description@)),
    ]);
    b.build()
}

/// A property schema with a default text.
fn prop_default_str(kind: &str, description: &str, default: &str) -> (r: JsonValue)
    ensures
        r@ == spec_prop_default_str(kind@, description@, default@),
{
    let mut b = ObjectBuilder::new();
    b.field("type", JsonValue::string(kind));
    b.field("description", JsonValue::string(description));
    b.field("default", JsonValue::string(default));
    assert(entries_view(b.entries@) =~= seq![
        ("type"@, Json::Str(kind@)),
        ("description"@, Json::Str(description@)),
        ("default"@, Json::Str(default@)),
    ]);
    b.build()
}

/// A property schema with a default number.
fn prop_default_int(kind: &str, description: &str, default: u64) -> (r: JsonValue)
    ensures
        r@ == spec_prop_default_int(kind@, description@, default as nat),
{
    let mut b = ObjectBuilder::new();
    b.field("type", JsonValue::string(kind));
    b.field("description", JsonValue::string(description));
    b.field("default", JsonValue::natural(default));
    assert(entries_view(b.entries@) =~= seq![
        ("type"@, Json::Str(kind@)),
        ("description"@, Json::Str(description@)),
        ("default"@, Json::Number(crate::text::nat_decimal(default as nat))),
    ]);
    b.build()
}

/// An array of the texts.
fn string_array(items: &Vec<&str>) -> (r: JsonValue)
    ensures
        r@ == json_strings(Seq::new(items@.len(), |i: int| items@[i]@)),
{
    let mut out: Vec<JsonValue> = Vec::new();
    let mut i: usize = 0;
    while i < items.len()
        invariant
            i <= items@.len(),
            items_view(out@) == Seq::new(i as nat, |k: int| Json::Str(items@[k]@)),
        decreases items@.len() - i,
    {
        let item = JsonValue::string(items[i]);
        proof {
            lemma_items_view_push(out@, item);
        }
        out.push(item);
        i = i + 1;
        assert(items_view(out@) =~= Seq::new(i as nat, |k: int| Json::Str(items@[k]@)));
    }
    let ghost texts = Seq::new(items@.len(), |k: int| items@[k]@);
    assert(items_view(out@) =~= Seq::new(texts.len(), |k: int| Json::Str(texts[k])));
    JsonValue::Array(out)
}

/// The `required` entry of an input schema, when there is a list.
pub open spec fn required_entry(required: Option<JsonValue>) -> Seq<(Seq<char>, Json)> {
    match required {
        Some(q) => seq![("required"@, q@)],
        None => Seq::empty(),
    }
}

/// A tool entry with its input schema.
fn tool(name: &str, description: &str, properties: JsonValue, required: Option<JsonValue>) -> (r: JsonValue)
    ensures
        r@ == Json::Object(seq![
            ("name"@, Json::Str(name@)),
            ("description"@, Json::Str(description@)),
            ("inputSchema"@, Json::Object(seq![
                ("type"@, Json::Str("object"@)),
                ("properties"@, properties@),
            ] + required_entry(required))),
        ]),
{
    let ghost pv = properties@;
    let ghost tail = required_entry(required);
    let mut schema = ObjectBuilder::new();
    schema.field("type", JsonValue::string("object"));
    schema.field("properties", properties);
    match required {
        Some(req) => {
            schema.field("required", req);
        },
        None => {},
    }
    assert(entries_view(schema.entries@) =~= seq![
        ("type"@, Json::Str("object"@)),
        ("properties"@, pv),
    ] + tail);
    let s = schema.build();
    let mut b = ObjectBuilder::new();
    b.field("name", JsonValue::string(name));
    b.field("description", JsonValue::string(description));
    b.field("inputSchema", s);
    assert(entries_view(b.entries@) =~= seq![
        ("name"@, Json::Str(name@)),
        ("description"@, Json::Str(description@)),
        ("inputSchema"@, s@),
    ]);
    b.build()
}

/// The `send_message` tool.
fn tool_send_message() -> (r: JsonValue)
    ensures
        r@ == spec_tool_entry(0),
{
    let mut props = ObjectBuilder::new();
    props.field("account", prop_default_str("string", "Account name (omit for default)", "default"));
    props.field("chat", prop("string", "Target: alias, @username, or numeric peer ID"));
    props.field("text", prop("string", "Message text to send"));
    assert(entries_view(props.entries@) =~= tool_properties()[0]);
    let properties = props.build();
    let names: Vec<&str> = vec!["chat", "text"];
    let required = string_array(&names);
    assert(Seq::new(names@.len(), |i: int| names@[i]@) =~= tool_required_table()[0]);
    tool("send_message", "Send a text message to a Telegram peer.", properties, Some(required))
}

/// The `send_file` tool.
fn tool_send_file() -> (r: JsonValue)
    ensures
        r@ == spec_tool_entry(1),
{
    let mut props = ObjectBuilder::new();
    props.field("account", prop_default_str("string", "Account name", "default"));
    props.field("chat", prop("string", "Target chat identifier"));
    props.field("path", prop("string", "Local file path to upload"));
    props.field("caption", prop("string", "Optional caption for the file"));
    assert(entries_view(props.entries@) =~= tool_properties()[1]);
    let properties = props.build();
    let names: Vec<&str> = vec!["chat", "path"];
    let required = string_array(&names);
    assert(Seq::new(names@.len(), |i: int| names@[i]@) =~= tool_required_table()[1]);
    tool("send_file", "Upload and send a file to a Telegram peer.", properties, Some(required))
}

/// The `recv_messages` tool.
fn tool_recv_messages() -> (r: JsonValue)
    ensures
        r@ == spec_tool_entry(2),
{
    let mut props = ObjectBuilder::new();
    props.field("account", prop_default_str("string", "Account name", "default"));
    props.field("chat", prop("string", "Target chat identifier"));
    props.field("limit", prop_default_int("integer", "Max messages to return (default 20)", 20));
    assert(entries_view(props.entries@) =~= tool_properties()[2]);
    let properties = props.build();
    let names: Vec<&str> = vec!["chat"];
    let required = string_array(&names);
    assert(Seq::new(names@.len(), |i: int| names@[i]@) =~= tool_required_table()[2]);
    tool("recv_messages", "Read recent messages from a Telegram chat.", properties, Some(required))
}

/// The `wait_for_message` tool.
fn tool_wait_for_message() -> (r: JsonValue)
    ensures
        r@ == spec_tool_entry(3),
{
    let mut props = ObjectBuilder::new();
    props.field("account", prop_default_str("string", "Account name", "default"));
    props.field("chat", prop("string", "Target chat identifier"));
    props.field("text", prop("string", "Require exact text match"));
    props.field("text_contains", prop("string", "Require text to contain this substring"));
    props.field("timeout", prop_default_str("string", "Max wait duration, e.g. '30s'", "30s"));
    assert(entries_view(props.entries@) =~= tool_properties()[3]);
    let properties = props.build();
    let names: Vec<&str> = vec!["chat"];
    let required = string_array(&names);
    assert(Seq::new(names@.len(), |i: int| names@[i]@) =~= tool_required_table()[3]);
    tool("wait_for_message", "Block until a matching incoming message arrives in a chat.", properties, Some(required))
}

/// The `resolve_peer` tool.
fn tool_resolve_peer() -> (r: JsonValue)
    ensures
        r@ == spec_tool_entry(4),
{
    let mut props = ObjectBuilder::new();
    props.field("account", prop_default_str("string", "Account name", "default"));
    props.field("query", prop("string", "Alias, @username, or numeric peer ID"));
    assert(entries_view(props.entries@) =~= tool_properties()[4]);
    let properties = props.build();
    let names: Vec<&str> = vec!["query"];
    let required = string_array(&names);
    assert(Seq::new(names@.len(), |i: int| names@[i]@) =~= tool_required_table()[4]);
    tool("resolve_peer", "Resolve a username, alias, or numeric ID into a Telegram peer record.", properties, Some(required))
}

/// The `list_contacts` tool.
fn tool_list_contacts() -> (r: JsonValue)
    ensures
        r@ == spec_tool_entry(5),
{
    let mut props = ObjectBuilder::new();
    props.field("account", prop_default_str("string", "Account name", "default"));
    assert(entries_view(props.entries@) =~= tool_properties()[5]);
    let properties = props.build();
    tool("list_contacts", "List the direct contacts of a Telegram account.", properties, None)
}

/// The `list_chats` tool.
fn tool_list_chats() -> (r: JsonValue)
    ensures
        r@ == spec_tool_entry(6),
{
    let mut props = ObjectBuilder::new();
    props.field("account", prop_default_str("string", "Account name", "default"));
    assert(entries_view(props.entries@) =~= tool_properties()[6]);
    let properties = props.build();
    tool("list_chats", "List groups and channels available to a Telegram account.", properties, None)
}

/// The `list_accounts` tool.
fn tool_list_accounts() -> (r: JsonValue)
    ensures
        r@ == spec_tool_entry(7),
{
    let mut props = ObjectBuilder::new();
    assert(entries_view(props.entries@) =~= tool_properties()[7]);
    let properties = props.build();
    tool("list_accounts", "List all configured telegram-agent-cli accounts and their login state.", properties, None)
}

/// The `click_button` tool.
fn tool_click_button() -> (r: JsonValue)
    ensures
        r@ == spec_tool_entry(8),
{
    let mut props = ObjectBuilder::new();
    props.field("account", prop_default_str("string", "Account name", "default"));
    props.field("chat", prop("string", "Chat containing the button"));
    props.field("button", prop("string", "Button label or callback data"));
    props.field("message_id", prop("integer", "Specific message ID (optional)"));
    props.field("wait_timeout", prop_default_str("string", "How long to wait for a response", "5s"));
    assert(entries_view(props.entries@) =~= tool_properties()[8]);
    let properties = props.build();
    let names: Vec<&str> = vec!["chat", "button"];
    let required = string_array(&names);
    assert(Seq::new(names@.len(), |i: int| names@[i]@) =~= tool_required_table()[8]);
    tool("click_button", "Click an inline button in a bot message.", properties, Some(required))
}

/// The `list_actions` tool.
fn tool_list_actions() -> (r: JsonValue)
    ensures
        r@ == spec_tool_entry(9),
{
    let mut props = ObjectBuilder::new();
    props.field("account", prop_default_str("string", "Account name", "default"));
    props.field("chat", prop("string", "Chat to inspect"));
    props.field("message_id", prop("integer", "Inspect a specific message (optional)"));
    props.field("limit", prop_default_int("integer", "Number of recent messages to scan", 20));
    assert(entries_view(props.entries@) =~= tool_properties()[9]);
    let properties = props.build();
    let names: Vec<&str> = vec!["chat"];
    let required = string_array(&names);
    assert(Seq::new(names@.len(), |i: int| names@[i]@) =~= tool_required_table()[9]);
    tool("list_actions", "Discover interactive actions (inline buttons, reply keyboards, bot commands) in a chat.", properties, Some(required))
}

/// The `trigger_action` tool.
fn tool_trigger_action() -> (r: JsonValue)
    ensures
        r@ == spec_tool_entry(10),
{
    let mut props = ObjectBuilder::new();
    props.field("account", prop_default_str("string", "Account name", "default"));
    props.field("chat", prop("string", "Chat containing the action"));
    props.field("action", prop("string", "Action ID or label from list_actions"));
    props.field("message_id", prop("integer", "Specific message ID (optional)"));
    props.field("wait_timeout", prop_default_str("string", "How long to wait for a response", "5s"));
    assert(entries_view(props.entries@) =~= tool_properties()[10]);
    let properties = props.build();
    let names: Vec<&str> = vec!["chat", "action"];
    let required = string_array(&names);
    assert(Seq::new(names@.len(), |i: int| names@[i]@) =~= tool_required_table()[10]);
    tool("trigger_action", "Trigger a previously discovered interactive action by ID or label.", properties, Some(required))
}

/// The `send_photo` tool.
fn tool_send_photo() -> (r: JsonValue)
    ensures
        r@ == spec_tool_entry(11),
{
    let mut props = ObjectBuilder::new();
    props.field("account", prop_default_str("string", "Account name", "default"));
    props.field("chat", prop("string", "Target: alias, @username, or numeric peer ID"));
    props.field("path", prop("string", "Local file path of the photo"));
    props.field("caption", prop("string", "Optional caption for the photo"));
    assert(entries_view(props.entries@) =~= tool_properties()[11]);
    let properties = props.build();
    let names: Vec<&str> = vec!["chat", "path"];
    let required = string_array(&names);
    assert(Seq::new(names@.len(), |i: int| names@[i]@) =~= tool_required_table()[11]);
    tool("send_photo", "Send a photo to a Telegram peer.", properties, Some(required))
}

/// The `forward_messages` tool.
fn tool_forward_messages() -> (r: JsonValue)
    ensures
        r@ == spec_tool_entry(12),
{
    let mut props = ObjectBuilder::new();
    props.field("account", prop_default_str("string", "Account name", "default"));
    props.field("from_chat", prop("string", "Source chat identifier"));
    props.field("to_chat", prop("string", "Destination chat identifier"));
    props.field("message_ids", prop("string", "Comma-separated message IDs to forward"));
    assert(entries_view(props.entries@) =~= tool_properties()[12]);
    let properties = props.build();
    let names: Vec<&str> = vec!["from_chat", "to_chat", "message_ids"];
    let required = string_array(&names);
    assert(Seq::new(names@.len(), |i: int| names@[i]@) =~= tool_required_table()[12]);
    tool("forward_messages", "Forward messages from one chat to another.", properties, Some(required))
}

/// The `edit_message` tool.
fn tool_edit_message() -> (r: JsonValue)
    ensures
        r@ == spec_tool_entry(13),
{
    let mut props = ObjectBuilder::new();
    props.field("account", prop_default_str("string", "Account name", "default"));
    props.field("chat", prop("string", "Chat containing the message"));
    props.field("message_id", prop("integer", "Message ID to edit"));
    props.field("text", prop("string", "New text content"));
    assert(entries_view(props.entries@) =~= tool_properties()[13]);
    let properties = props.build();
    let names: Vec<&str> = vec!["chat", "message_id", "text"];
    let required = string_array(&names);
    assert(Seq::new(names@.len(), |i: int| names@[i]@) =~= tool_required_table()[13]);
    tool("edit_message", "Edit the text of an existing message.", properties, Some(required))
}

/// The `pin_message` tool.
fn tool_pin_message() -> (r: JsonValue)
    ensures
        r@ == spec_tool_entry(14),
{
    let mut props = ObjectBuilder::new();
    props.field("account", prop_default_str("string", "Account name", "default"));
    props.field("chat", prop("string", "Chat containing the message"));
    props.field("message_id", prop("integer", "Message ID to pin"));
    assert(entries_view(props.entries@) =~= tool_properties()[14]);
    let properties = props.build();
    let names: Vec<&str> = vec!["chat", "message_id"];
    let required = string_array(&names);
    assert(Seq::new(names@.len(), |i: int| names@[i]@) =~= tool_required_table()[14]);
    tool("pin_message", "Pin a message in a chat.", properties, Some(required))
}

/// The `unpin_message` tool.
fn tool_unpin_message() -> (r: JsonValue)
    ensures
        r@ == spec_tool_entry(15),
{
    let mut props = ObjectBuilder::new();
    props.field("account", prop_default_str("string", "Account name", "default"));
    props.field("chat", prop("string", "Chat containing the message"));
    props.field("message_id", prop("integer", "Message ID to unpin"));
    assert(entries_view(props.entries@) =~= tool_properties()[15]);
    let properties = props.build();
    let names: Vec<&str> = vec!["chat", "message_id"];
    let required = string_array(&names);
    assert(Seq::new(names@.len(), |i: int| names@[i]@) =~= tool_required_table()[15]);
    tool("unpin_message", "Unpin a pinned message in a chat.", properties, Some(required))
}

/// The `download_media` tool.
fn tool_download_media() -> (r: JsonValue)
    ensures
        r@ == spec_tool_entry(16),
{
    let mut props = ObjectBuilder::new();
    props.field("account", prop_default_str("string", "Account name", "default"));
    props.field("chat", prop("string", "Chat containing the message"));
    props.field("message_id", prop("integer", "Message ID with media to download"));
    props.field("output", prop("string", "Local file path to save the media"));
    assert(entries_view(props.entries@) =~= tool_properties()[16]);
    let properties = props.build();
    let names: Vec<&str> = vec!["chat", "message_id"];
    let required = string_array(&names);
    assert(Seq::new(names@.len(), |i: int| names@[i]@) =~= tool_required_table()[16]);
    tool("download_media", "Download media attached to a message.", properties, Some(required))
}

/// The tools the server offers, in catalogue order.
pub fn tool_definitions() -> (r: Vec<JsonValue>)
    ensures
        r@.len() == tool_names().len(),
        forall|i: int| 0 <= i < r@.len() ==> (#[trigger] r@[i])@ == spec_tool_entry(i),
{
    let mut defs: Vec<JsonValue> = Vec::new();
    defs.push(tool_send_message());
    defs.push(tool_send_file());
    defs.push(tool_recv_messages());
    defs.push(tool_wait_for_message());
    defs.push(tool_resolve_peer());
    defs.push(tool_list_contacts());
    defs.push(tool_list_chats());
    defs.push(tool_list_accounts());
    defs.push(tool_click_button());
    defs.push(tool_list_actions());
    defs.push(tool_trigger_action());
    defs.push(tool_send_photo());
    defs.push(tool_forward_messages());
    defs.push(tool_edit_message());
    defs.push(tool_pin_message());
    defs.push(tool_unpin_message());
    defs.push(tool_download_media());
    assert(defs@.len() == tool_names().len());
    defs
}

// ---------------------------------------------------------------------------
// Tool calls
// ---------------------------------------------------------------------------

/// An operation a tool call asks for, with its arguments read.
#[derive(Debug, Clone, PartialEq, Eq)]
pub enum ToolCall {
    SendMessage { chat: String, text: String },
    SendFile { chat: String, path: String, caption: Option<String> },
    RecvMessages { chat: String, limit: usize },
    WaitForMessage { chat: String, text: Option<String>, text_contains: Option<String>, timeout: WaitDuration },
    ResolvePeer { query: String },
    ListContacts,
    ListChats,
    ListAccounts,
    ClickButton { chat: String, button: String, message_id: Option<i64>, timeout: WaitDuration },
    ListActions { chat: String, message_id: Option<i64>, limit: usize },
    TriggerAction { chat: String, action: String, message_id: Option<i64>, timeout: WaitDuration },
    SendPhoto { chat: String, path: String, caption: Option<String> },
    /// The ids are read only once both chats are resolved.
    ForwardMessages { from_chat: String, to_chat: String, message_ids: String },
    EditMessage { chat: String, message_id: i32, text: String },
    PinMessage { chat: String, message_id: i32 },
    UnpinMessage { chat: String, message_id: i32 },
    DownloadMedia { chat: String, message_id: i32, output: Option<String> },
}

/// The mathematical form of a tool call.
pub ghost enum ToolCallView {
    SendMessage(Seq<char>, Seq<char>),
    SendFile(Seq<char>, Seq<char>, Option<Seq<char>>),
    RecvMessages(Seq<char>, usize),
    WaitForMessage(Seq<char>, Option<Seq<char>>, Option<Seq<char>>, WaitDuration),
    ResolvePeer(Seq<char>),
    ListContacts,
    ListChats,
    ListAccounts,
    ClickButton(Seq<char>, Seq<char>, Option<i64>, WaitDuration),
    ListActions(Seq<char>, Option<i64>, usize),
    TriggerAction(Seq<char>, Seq<char>, Option<i64>, WaitDuration),
    SendPhoto(Seq<char>, Seq<char>, Option<Seq<char>>),
    ForwardMessages(Seq<char>, Seq<char>, Seq<char>),
    EditMessage(Seq<char>, i32, Seq<char>),
    PinMessage(Seq<char>, i32),
    UnpinMessage(Seq<char>, i32),
    DownloadMedia(Seq<char>, i32, Option<Seq<char>>),
}

/// The text of an optional string.
pub open spec fn osv(s: Option<String>) -> Option<Seq<char>> {
    match s {
        Some(t) => Some(t@),
        None => None,
    }
}

/// The mathematical form of a tool call.
pub open spec fn tool_call_view(c: ToolCall) -> ToolCallView {
    match c {
        ToolCall::SendMessage { chat, text } => ToolCallView::SendMessage(chat@, text@),
        ToolCall::SendFile { chat, path, caption } => ToolCallView::SendFile(chat@, path@, osv(caption)),
        ToolCall::RecvMessages { chat, limit } => ToolCallView::RecvMessages(chat@, limit),
        ToolCall::WaitForMessage { chat, text, text_contains, timeout } => ToolCallView::WaitForMessage(
            chat@,
            osv(text),
            osv(text_contains),
            timeout,
        ),
        ToolCall::ResolvePeer { query } => ToolCallView::ResolvePeer(query@),
        ToolCall::ListContacts => ToolCallView::ListContacts,
        ToolCall::ListChats => ToolCallView::ListChats,
        ToolCall::ListAccounts => ToolCallView::ListAccounts,
        ToolCall::ClickButton { chat, button, message_id, timeout } => ToolCallView::ClickButton(chat@, button@, message_id, timeout),
        ToolCall::ListActions { chat, message_id, limit } => ToolCallView::ListActions(chat@, message_id, limit),
        ToolCall::TriggerAction { chat, action, message_id, timeout } => ToolCallView::TriggerAction(chat@, action@, message_id, timeout),
        ToolCall::SendPhoto { chat, path, caption } => ToolCallView::SendPhoto(chat@, path@, osv(caption)),
        ToolCall::ForwardMessages { from_chat, to_chat, message_ids } => ToolCallView::ForwardMessages(from_chat@, to_chat@, message_ids@),
        ToolCall::EditMessage { chat, message_id, text } => ToolCallView::EditMessage(chat@, message_id, text@),
        ToolCall::PinMessage { chat, message_id } => ToolCallView::PinMessage(chat@, message_id),
        ToolCall::UnpinMessage { chat, message_id } => ToolCallView::UnpinMessage(chat@, message_id),
        ToolCall::DownloadMedia { chat, message_id, output } => ToolCallView::DownloadMedia(chat@, message_id, osv(output)),
    }
}

/// The duration a text names, or `default_secs` seconds when it names none.
pub open spec fn spec_timeout_or(text: Seq<char>, default_secs: u64) -> WaitDuration {
    match spec_duration_text(text) {
        Ok((s, n)) => WaitDuration { secs: s, nanos: n },
        Err(_) => WaitDuration { secs: default_secs, nanos: 0 },
    }
}

/// The duration under `key` (`fallback` when absent), or `default_secs` when unreadable.
pub open spec fn spec_arg_timeout(args: Json, key: Seq<char>, fallback: Seq<char>, default_secs: u64) -> WaitDuration {
    spec_timeout_or(
        match as_str(json_get(args, key)) {
            Some(t) => t,
            None => fallback,
        },
        default_secs,
    )
}

/// The limit under `limit`, 20 when absent or not a non-negative integer.
pub open spec fn spec_arg_limit(args: Json) -> usize {
    match as_u64(json_get(args, "limit"@)) {
        Some(n) => (n as u64) as usize,
        None => 20,
    }
}

/// The message id under `message_id`, narrowed to 32 bits.
pub open spec fn spec_arg_i32_id(args: Json) -> Option<i32> {
    match as_i64(json_get(args, "message_id"@)) {
        Some(n) => Some((n as i64) as i32),
        None => None,
    }
}

/// The message id under `message_id`, if it is an integer.
pub open spec fn spec_arg_i64_id(args: Json) -> Option<i64> {
    match as_i64(json_get(args, "message_id"@)) {
        Some(n) => Some(n as i64),
        None => None,
    }
}

/// A required text argument, or the message naming it.
pub open spec fn req(args: Json, key: Seq<char>) -> core::result::Result<Seq<char>, Seq<char>> {
    match as_str(json_get(args, key)) {
        Some(s) => Ok(s),
        None => Err(missing_parameter_message(key)),
    }
}

/// The required integer `message_id`, narrowed to 32 bits, or the message naming it.
pub open spec fn req_id(args: Json) -> core::result::Result<i32, Seq<char>> {
    match spec_arg_i32_id(args) {
        Some(n) => Ok(n),
        None => Err(missing_parameter_message("message_id"@)),
    }
}

/// How a tool call's name and arguments are read; required arguments are
/// checked in the order the tool lists them.
pub open spec fn spec_plan_tool_call(name: Seq<char>, args: Json) -> core::result::Result<ToolCallView, Seq<char>> {
    let opt = |k: Seq<char>| as_str(json_get(args, k));
    if name == "send_message"@ {
        match req(args, "chat"@) { Err(e) => Err(e), Ok(chat) => match req(args, "text"@) {
            Err(e) => Err(e), Ok(text) => Ok(ToolCallView::SendMessage(chat, text)) } }
    } else if name == "send_file"@ {
        match req(args, "chat"@) { Err(e) => Err(e), Ok(chat) => match req(args, "path"@) {
            Err(e) => Err(e), Ok(path) => Ok(ToolCallView::SendFile(chat, path, opt("caption"@))) } }
    } else if name == "recv_messages"@ {
        match req(args, "chat"@) { Err(e) => Err(e), Ok(chat) => Ok(ToolCallView::RecvMessages(chat, spec_arg_limit(args))) }
    } else if name == "wait_for_message"@ {
        match req(args, "chat"@) { Err(e) => Err(e), Ok(chat) => Ok(ToolCallView::WaitForMessage(
            chat, opt("text"@), opt("text_contains"@), spec_arg_timeout(args, "timeout"@, "30s"@, 30))) }
    } else if name == "resolve_peer"@ {
        match req(args, "query"@) { Err(e) => Err(e), Ok(q) => Ok(ToolCallView::ResolvePeer(q)) }
    } else if name == "list_contacts"@ {
        Ok(ToolCallView::ListContacts)
    } else if name == "list_chats"@ {
        Ok(ToolCallView::ListChats)
    } else if name == "list_accounts"@ {
        Ok(ToolCallView::ListAccounts)
    } else if name == "click_button"@ {
        match req(args, "chat"@) { Err(e) => Err(e), Ok(chat) => match req(args, "button"@) {
            Err(e) => Err(e), Ok(b) => Ok(ToolCallView::ClickButton(chat, b, spec_arg_i64_id(args),
                spec_arg_timeout(args, "wait_timeout"@, "5s"@, 5))) } }
    } else if name == "list_actions"@ {
        match req(args, "chat"@) { Err(e) => Err(e), Ok(chat) => Ok(ToolCallView::ListActions(chat, spec_arg_i64_id(args), spec_arg_limit(args))) }
    } else if name == "trigger_action"@ {
        match req(args, "chat"@) { Err(e) => Err(e), Ok(chat) => match req(args, "action"@) {
            Err(e) => Err(e), Ok(a) => Ok(ToolCallView::TriggerAction(chat, a, spec_arg_i64_id(args),
                spec_arg_timeout(args, "wait_timeout"@, "5s"@, 5))) } }
    } else if name == "send_photo"@ {
        match req(args, "chat"@) { Err(e) => Err(e), Ok(chat) => match req(args, "path"@) {
            Err(e) => Err(e), Ok(path) => Ok(ToolCallView::SendPhoto(chat, path, opt("caption"@))) } }
    } else if name == "forward_messages"@ {
        match req(args, "from_chat"@) { Err(e) => Err(e), Ok(f) => match req(args, "to_chat"@) {
            Err(e) => Err(e), Ok(t) => match req(args, "message_ids"@) {
                Err(e) => Err(e), Ok(ids) => Ok(ToolCallView::ForwardMessages(f, t, ids)) } } }
    } else if name == "edit_message"@ {
        match req(args, "chat"@) { Err(e) => Err(e), Ok(chat) => match req_id(args) {
            Err(e) => Err(e), Ok(id) => match req(args, "text"@) {
                Err(e) => Err(e), Ok(text) => Ok(ToolCallView::EditMessage(chat, id, text)) } } }
    } else if name == "pin_message"@ {
        match req(args, "chat"@) { Err(e) => Err(e), Ok(chat) => match req_id(args) {
            Err(e) => Err(e), Ok(id) => Ok(ToolCallView::PinMessage(chat, id)) } }
    } else if name == "unpin_message"@ {
        match req(args, "chat"@) { Err(e) => Err(e), Ok(chat) => match req_id(args) {
            Err(e) => Err(e), Ok(id) => Ok(ToolCallView::UnpinMessage(chat, id)) } }
    } else if name == "download_media"@ {
        match req(args, "chat"@) { Err(e) => Err(e), Ok(chat) => match req_id(args) {
            Err(e) => Err(e), Ok(id) => Ok(ToolCallView::DownloadMedia(chat, id, opt("output"@))) } }
    } else {
        Err("Unknown tool: "@ + name)
    }
}

/// The account a tool call acts as: its `account` argument, or `default`.
pub fn tool_account(args: &JsonValue) -> (r: String)
    ensures
        r@ == match as_str(json_get(args@, "account"@)) {
            Some(a) => a,
            None => "default"@,
        },
{
    match get_str(args, "account") {
        Some(a) => owned(a),
        None => owned("default"),
    }
}

/// The optional text under `key`, copied.
fn opt_string(args: &JsonValue, key: &str) -> (r: Option<String>)
    ensures
        osv(r) == as_str(json_get(args@, key@)),
{
    match get_str(args, key) {
        Some(s) => Some(owned(s)),
        None => None,
    }
}

/// The duration under `key`, with the fallback text and default seconds.
fn arg_timeout(args: &JsonValue, key: &str, fallback: &str, default_secs: u64) -> (r: WaitDuration)
    ensures
        r == spec_arg_timeout(args@, key@, fallback@, default_secs),
{
    let text = match get_str(args, key) {
        Some(t) => t,
        None => fallback,
    };
    match parse_duration_text(text) {
        Ok(d) => d,
        Err(_) => WaitDuration { secs: default_secs, nanos: 0 },
    }
}

/// The `limit` argument, 20 by default.
fn arg_limit(args: &JsonValue) -> (r: usize)
    ensures
        r == spec_arg_limit(args@),
{
    match get_u64(args, "limit") {
        Some(n) => n as usize,
        None => 20,
    }
}

/// The `message_id` argument narrowed to 32 bits, or the missing-parameter error.
fn require_i32_id(args: &JsonValue) -> (r: Result<i32>)
    ensures
        match req_id(args@) {
            Ok(n) => r == Ok::<i32, TelegramCliError>(n),
            Err(e) => r is Err && is_message_error(r->Err_0, e),
        },
{
    match get_i64(args, "message_id") {
        Some(n) => Ok(#[verifier::truncate] (n as i32)),
        None => Err(TelegramCliError::Message(concat2("Missing required parameter: ", "message_id"))),
    }
}

/// The account a tool call acts as, or why there is none: an account named
/// in `account` (other than `default`) when it exists, else the stored
/// default account.
pub open spec fn spec_tool_account(args: Json, requested_exists: bool, persisted: Option<Seq<char>>) -> core::result::Result<Seq<char>, Seq<char>> {
    let requested = match as_str(json_get(args, "account"@)) {
        Some(a) => a,
        None => "default"@,
    };
    if is_explicit(Some(requested)) {
        if requested_exists {
            Ok(requested)
        } else {
            Err("account "@ + requested + " was not found"@)
        }
    } else {
        match persisted {
            Some(p) => Ok(p),
            None => Err("no default account set; use `telegram-agent-cli account use <name>` to set one"@),
        }
    }
}

/// Reads a tool call together with the account it acts as. The account is
/// resolved first: an account error answers every call, whatever the tool,
/// known or not; a call without an explicit account acts as the stored
/// default account, never as an account named `default`.
pub fn plan_tool_request(name: &str, args: &JsonValue, requested_exists: bool, persisted: &Option<String>) -> (r: Result<(String, ToolCall)>)
    ensures
        match spec_tool_account(args@, requested_exists, opt_chars(*persisted)) {
            Err(e) => r is Err && is_message_error(r->Err_0, e),
            Ok(account) => match spec_plan_tool_call(name@, args@) {
                Ok(c) => r is Ok && r->Ok_0.0@ == account && tool_call_view(r->Ok_0.1) == c,
                Err(e) => r is Err && is_message_error(r->Err_0, e),
            },
        },
{
    let requested = tool_account(args);
    let account = resolve_account_name(requested.as_str(), requested_exists, persisted)?;
    let call = plan_tool_call(name, args)?;
    Ok((account, call))
}

/// Reads a tool call: which operation, with which arguments; an error for a
/// missing required argument or an unknown tool.
pub fn plan_tool_call(name: &str, args: &JsonValue) -> (r: Result<ToolCall>)
    ensures
        match spec_plan_tool_call(name@, args@) {
            Ok(c) => r is Ok && tool_call_view(r->Ok_0) == c,
            Err(e) => r is Err && is_message_error(r->Err_0, e),
        },
{
    if str_eq(name, "send_message") {
        let chat = require_str(args, "chat")?;
        let text = require_str(args, "text")?;
        Ok(ToolCall::SendMessage { chat, text })
    } else if str_eq(name, "send_file") {
        let chat = require_str(args, "chat")?;
        let path = require_str(args, "path")?;
        Ok(ToolCall::SendFile { chat, path, caption: opt_string(args, "caption") })
    } else if str_eq(name, "recv_messages") {
        let chat = require_str(args, "chat")?;
        Ok(ToolCall::RecvMessages { chat, limit: arg_limit(args) })
    } else if str_eq(name, "wait_for_message") {
        let chat = require_str(args, "chat")?;
        Ok(ToolCall::WaitForMessage {
            chat,
            text: opt_string(args, "text"),
            text_contains: opt_string(args, "text_contains"),
            timeout: arg_timeout(args, "timeout", "30s", 30),
        })
    } else if str_eq(name, "resolve_peer") {
        let query = require_str(args, "query")?;
        Ok(ToolCall::ResolvePeer { query })
    } else if str_eq(name, "list_contacts") {
        Ok(ToolCall::ListContacts)
    } else if str_eq(name, "list_chats") {
        Ok(ToolCall::ListChats)
    } else if str_eq(name, "list_accounts") {
        Ok(ToolCall::ListAccounts)
    } else if str_eq(name, "click_button") {
        let chat = require_str(args, "chat")?;
        let button = require_str(args, "button")?;
        Ok(ToolCall::ClickButton {
            chat,
            button,
            message_id: get_i64(args, "message_id"),
            timeout: arg_timeout(args, "wait_timeout", "5s", 5),
        })
    } else if str_eq(name, "list_actions") {
        let chat = require_str(args, "chat")?;
        Ok(ToolCall::ListActions { chat, message_id: get_i64(args, "message_id"), limit: arg_limit(args) })
    } else if str_eq(name, "trigger_action") {
        let chat = require_str(args, "chat")?;
        let action = require_str(args, "action")?;
        Ok(ToolCall::TriggerAction {
            chat,
            action,
            message_id: get_i64(args, "message_id"),
            timeout: arg_timeout(args, "wait_timeout", "5s", 5),
        })
    } else if str_eq(name, "send_photo") {
        let chat = require_str(args, "chat")?;
        let path = require_str(args, "path")?;
        Ok(ToolCall::SendPhoto { chat, path, caption: opt_string(args, "caption") })
    } else if str_eq(name, "forward_messages") {
        let from_chat = require_str(args, "from_chat")?;
        let to_chat = require_str(args, "to_chat")?;
        let message_ids = require_str(args, "message_ids")?;
        Ok(ToolCall::ForwardMessages { from_chat, to_chat, message_ids })
    } else if str_eq(name, "edit_message") {
        let chat = require_str(args, "chat")?;
        let message_id = require_i32_id(args)?;
        let text = require_str(args, "text")?;
        Ok(ToolCall::EditMessage { chat, message_id, text })
    } else if str_eq(name, "pin_message") {
        let chat = require_str(args, "chat")?;
        let message_id = require_i32_id(args)?;
        Ok(ToolCall::PinMessage { chat, message_id })
    } else if str_eq(name, "unpin_message") {
        let chat = require_str(args, "chat")?;
        let message_id = require_i32_id(args)?;
        Ok(ToolCall::UnpinMessage { chat, message_id })
    } else if str_eq(name, "download_media") {
        let chat = require_str(args, "chat")?;
        let message_id = require_i32_id(args)?;
        Ok(ToolCall::DownloadMedia { chat, message_id, output: opt_string(args, "output") })
    } else {
        Err(TelegramCliError::Message(concat2("Unknown tool: ", name)))
    }
}

// ---------------------------------------------------------------------------
// JSON-RPC requests and responses
// ---------------------------------------------------------------------------

/// The MCP protocol version the server speaks.
pub open spec fn protocol_version() -> Seq<char> {
    "2024-11-05"@
}

/// A JSON-RPC request: its id (absent for notifications), method and parameters.
#[derive(Debug, PartialEq)]
pub struct McpRequest {
    pub id: Option<JsonValue>,
    pub method: String,
    pub params: Option<JsonValue>,
}

/// A JSON-RPC error object.
#[derive(Debug, Clone, PartialEq, Eq)]
pub struct RpcError {
    pub code: i64,
    pub message: String,
}

/// A JSON-RPC response: a result or an error.
#[derive(Debug, PartialEq)]
pub struct McpResponse {
    pub id: Option<JsonValue>,
    pub result: Option<JsonValue>,
    pub error: Option<RpcError>,
}

/// The JSON form of a response; absent fields are left out.
pub open spec fn response_json(r: McpResponse) -> Json {
    Json::Object(seq![("jsonrpc"@, Json::Str("2.0"@))] + opt_value_entry("id"@, r.id) + opt_value_entry("result"@, r.result) + error_entry(r.error))
}

/// An entry holding an optional value, left out when absent.
pub open spec fn opt_value_entry(key: Seq<char>, v: Option<JsonValue>) -> Seq<(Seq<char>, Json)> {
    match v {
        Some(x) => seq![(key, x@)],
        None => Seq::empty(),
    }
}

/// The `error` entry of a response, left out when absent.
pub open spec fn error_entry(e: Option<RpcError>) -> Seq<(Seq<char>, Json)> {
    match e {
        Some(e) => seq![("error"@, Json::Object(seq![
            ("code"@, Json::Number(crate::text::int_decimal(e.code as int))),
            ("message"@, Json::Str(e.message@)),
        ]))],
        None => Seq::empty(),
    }
}

impl McpResponse {
    /// A successful response.
    pub fn success(id: Option<JsonValue>, result: JsonValue) -> (r: McpResponse)
        ensures
            r.id == id,
            r.result == Some(result),
            r.error is None,
    {
        McpResponse { id, result: Some(result), error: None }
    }

    /// An error response.
    pub fn error(id: Option<JsonValue>, code: i64, message: String) -> (r: McpResponse)
        ensures
            r.id == id,
            r.result is None,
            r.error == Some(RpcError { code, message }),
    {
        McpResponse { id, result: None, error: Some(RpcError { code, message }) }
    }

    /// The JSON form of the response.
    pub fn to_json(&self) -> (r: JsonValue)
        ensures
            r@ == response_json(*self),
    {
        let mut b = ObjectBuilder::new();
        b.field("jsonrpc", JsonValue::string("2.0"));
        let ghost e0 = entries_view(b.entries@);
        match &self.id {
            Some(v) => {
                b.field("id", v.duplicate());
            },
            None => {},
        }
        let ghost e1 = entries_view(b.entries@);
        match &self.result {
            Some(v) => {
                b.field("result", v.duplicate());
            },
            None => {},
        }
        let ghost e2 = entries_view(b.entries@);
        match &self.error {
            Some(err) => {
                let mut eb = ObjectBuilder::new();
                eb.field("code", JsonValue::integer(err.code));
                eb.field("message", JsonValue::string(err.message.as_str()));
                let ghost ee = entries_view(eb.entries@);
                let ev = eb.build();
                assert(ee =~= seq![
                    ("code"@, Json::Number(crate::text::int_decimal(err.code as int))),
                    ("message"@, Json::Str(err.message@)),
                ]);
                b.field("error", ev);
            },
            None => {},
        }
        let ghost e3 = entries_view(b.entries@);
        let r = b.build();
        proof {
            let idp = opt_value_entry("id"@, self.id);
            let rp = opt_value_entry("result"@, self.result);
            let ep = error_entry(self.error);
            assert(e1 =~= e0 + idp);
            assert(e2 =~= e0 + idp + rp);
            assert(e3 =~= e0 + idp + rp + ep);
        }
        r
    }
}

/// The result of `initialize`.
pub open spec fn initialize_json(version: Seq<char>) -> Json {
    Json::Object(seq![
        ("protocolVersion"@, Json::Str(protocol_version())),
        ("capabilities"@, Json::Object(seq![("tools"@, Json::Object(Seq::empty()))])),
        ("serverInfo"@, Json::Object(seq![
            ("name"@, Json::Str("telegram-agent-cli"@)),
            ("version"@, Json::Str(version)),
        ])),
    ])
}

/// The result of `initialize`: protocol version, capabilities and server info
/// with the given package version.
pub fn initialize_result(version: &str) -> (r: JsonValue)
    ensures
        r@ == initialize_json(version@),
{
    let mut tools = ObjectBuilder::new();
    tools.field("tools", JsonValue::empty_object());
    let ghost te = entries_view(tools.entries@);
    let caps = tools.build();
    let mut info = ObjectBuilder::new();
    info.field("name", JsonValue::string("telegram-agent-cli"));
    info.field("version", JsonValue::string(version));
    let ghost ie = entries_view(info.entries@);
    let info_v = info.build();
    let mut b = ObjectBuilder::new();
    b.field("protocolVersion", JsonValue::string("2024-11-05"));
    b.field("capabilities", caps);
    b.field("serverInfo", info_v);
    let ghost e = entries_view(b.entries@);
    let r = b.build();
    assert(te =~= seq![("tools"@, Json::Object(Seq::empty()))]);
    assert(ie =~= seq![("name"@, Json::Str("telegram-agent-cli"@)), ("version"@, Json::Str(version@))]);
    assert(e =~= initialize_json(version@)->Object_0);
    r
}

/// What the server does with a request.
#[derive(Debug, PartialEq)]
pub enum McpStep {
    /// A notification: nothing is answered.
    Ignore,
    /// Answer at once.
    Respond(McpResponse),
    /// Run a tool, then answer with `tool_call_response`.
    CallTool { id: Option<JsonValue>, name: String, arguments: JsonValue },
}

/// The message for an unknown method.
pub open spec fn method_not_found_message(method: Seq<char>) -> Seq<char> {
    "Method not found: "@ + method
}

/// What the server does with a request: notifications are ignored,
/// `initialize`, `ping` and `tools/list` are answered at once, `tools/call`
/// runs a tool, and anything else is a method-not-found error.
pub fn handle_request(req: McpRequest, version: &str) -> (r: McpStep)
    ensures
        req.id is None ==> r == McpStep::Ignore,
        req.id is Some && req.method@ == "initialize"@ ==> (r matches McpStep::Respond(resp)
            && resp.id == req.id && resp.error is None && resp.result is Some && resp.result->0@ == initialize_json(version@)),
        req.id is Some && req.method@ == "ping"@ ==> (r matches McpStep::Respond(resp)
            && resp.id == req.id && resp.error is None && resp.result is Some && resp.result->0@ == Json::Object(Seq::empty())),
        req.id is Some && req.method@ == "tools/list"@ ==> (r matches McpStep::Respond(resp)
            && resp.id == req.id && resp.error is None && resp.result is Some
            && resp.result->0@ == Json::Object(seq![("tools"@, Json::Array(tool_catalogue()))])),
        req.id is Some && req.method@ == "tools/call"@ ==> (r matches McpStep::CallTool { id, name, arguments }
            && id == req.id && name@ == match req.params {
                Some(p) => match as_str(json_get(p@, "name"@)) {
                    Some(n) => n,
                    None => Seq::empty(),
                },
                None => Seq::empty(),
            } && arguments@ == match req.params {
                Some(p) => match json_get(p@, "arguments"@) {
                    Some(a) => a,
                    None => Json::Object(Seq::empty()),
                },
                None => Json::Object(Seq::empty()),
            }),
        req.id is Some && req.method@ != "initialize"@ && req.method@ != "ping"@ && req.method@ != "tools/list"@
            && req.method@ != "tools/call"@ ==> (r matches McpStep::Respond(resp) && resp.id == req.id
            && resp.result is None && resp.error is Some && resp.error->0.code == -32601
            && resp.error->0.message@ == method_not_found_message(req.method@)),
{
    if req.id.is_none() {
        return McpStep::Ignore;
    }
    proof {
        reveal_strlit("initialize");
        reveal_strlit("ping");
        reveal_strlit("tools/list");
        reveal_strlit("tools/call");
        assert("ping"@.len() == 4 && "initialize"@.len() == 10 && "tools/list"@.len() == 10);
        assert("tools/call"@.len() == 10);
        assert("ping"@ != "initialize"@);
        assert("tools/list"@[0] != "initialize"@[0]);
        assert("tools/list"@ != "initialize"@ && "tools/list"@ != "ping"@);
        assert("tools/call"@[0] != "initialize"@[0] && "tools/call"@[7] != "tools/list"@[7]);
        assert("tools/call"@ != "initialize"@ && "tools/call"@ != "ping"@ && "tools/call"@ != "tools/list"@);
    }
    let method = req.method.as_str();
    if str_eq(method, "initialize") {
        McpStep::Respond(McpResponse::success(req.id, initialize_result(version)))
    } else if str_eq(method, "ping") {
        McpStep::Respond(McpResponse::success(req.id, JsonValue::empty_object()))
    } else if str_eq(method, "tools/list") {
        let defs = tool_definitions();
        let ghost dv = defs@;
        let mut b = ObjectBuilder::new();
        let arr = JsonValue::Array(defs);
        proof {
            crate::json::lemma_items_view(dv);
        }
        b.field("tools", arr);
        assert forall|i: int| 0 <= i < dv.len() implies #[trigger] items_view(dv)[i] == tool_catalogue()[i] by {
            assert(items_view(dv)[i] == dv[i]@);
        }
        assert(items_view(dv) =~= tool_catalogue());
        assert(entries_view(b.entries@) =~= seq![("tools"@, Json::Array(tool_catalogue()))]);
        let v = b.build();
        McpStep::Respond(McpResponse::success(req.id, v))
    } else if str_eq(method, "tools/call") {
        let (name, arguments) = match &req.params {
            Some(p) => {
                let name = match get_str(p, "name") {
                    Some(n) => owned(n),
                    None => String::new(),
                };
                let arguments = match json_get_exec(p, "arguments") {
                    Some(a) => a.duplicate(),
                    None => JsonValue::empty_object(),
                };
                (name, arguments)
            },
            None => (String::new(), JsonValue::empty_object()),
        };
        McpStep::CallTool { id: req.id, name, arguments }
    } else {
        let message = concat2("Method not found: ", method);
        McpStep::Respond(McpResponse::error(req.id, -32601, message))
    }
}

/// The `content` of a tool result: one text item.
pub open spec fn text_content(text: Seq<char>) -> Json {
    Json::Array(seq![Json::Object(seq![("type"@, Json::Str("text"@)), ("text"@, Json::Str(text))])])
}

/// One text item of tool output.
fn text_item(text: &str) -> (r: JsonValue)
    ensures
        r@ == text_content(text@),
{
    let mut b = ObjectBuilder::new();
    b.field("type", JsonValue::string("text"));
    b.field("text", JsonValue::string(text));
    let ghost e = entries_view(b.entries@);
    let item = b.build();
    assert(e =~= seq![("type"@, Json::Str("text"@)), ("text"@, Json::Str(text@))]);
    let mut items: Vec<JsonValue> = Vec::new();
    proof {
        lemma_items_view_push(items@, item);
    }
    items.push(item);
    let r = JsonValue::Array(items);
    assert(items_view(items@) =~= seq![text_content(text@)->Array_0[0]]);
    r
}

/// The answer to a tool call: its text, or `Error: ...` marked as an error.
pub fn tool_call_response(id: Option<JsonValue>, outcome: core::result::Result<String, String>) -> (r: McpResponse)
    ensures
        r.id == id,
        r.error is None,
        r.result is Some,
        match outcome {
            Ok(text) => r.result->0@ == Json::Object(seq![("content"@, text_content(text@))]),
            Err(e) => r.result->0@ == Json::Object(seq![
                ("content"@, text_content("Error: "@ + e@)),
                ("isError"@, Json::Bool(true)),
            ]),
        },
{
    match outcome {
        Ok(text) => {
            let mut b = ObjectBuilder::new();
            b.field("content", text_item(text.as_str()));
            let ghost e = entries_view(b.entries@);
            let v = b.build();
            assert(e =~= seq![("content"@, text_content(text@))]);
            McpResponse::success(id, v)
        },
        Err(err) => {
            let msg = concat2("Error: ", err.as_str());
            let mut b = ObjectBuilder::new();
            b.field("content", text_item(msg.as_str()));
            b.field("isError", JsonValue::Bool(true));
            let ghost e = entries_view(b.entries@);
            let v = b.build();
            assert(e =~= seq![("content"@, text_content("Error: "@ + err@)), ("isError"@, Json::Bool(true))]);
            McpResponse::success(id, v)
        },
    }
}

/// `<what> sent to <name> (message_id: <id>)`.
pub fn sent_text(what: &str, display_name: &str, message_id: i64) -> (r: String)
    ensures
        r@ == what@ + " sent to "@ + display_name@ + " (message_id: "@ + crate::text::int_decimal(message_id as int) + ")"@,
{
    let head = crate::text::concat3(what, " sent to ", display_name);
    let id = crate::json::i64_decimal(message_id);
    let tail = crate::text::concat3(" (message_id: ", id.as_str(), ")");
    concat2(head.as_str(), tail.as_str())
}

/// The reply of `forward_messages`: how many were forwarded and where.
pub fn forwarded_text(count: usize, display_name: &str) -> (r: String)
    ensures
        r@ == "Forwarded "@ + crate::text::nat_decimal(count as nat) + " message(s) to "@ + display_name@,
{
    let n = crate::json::u64_decimal(count as u64);
    let head = crate::text::concat3("Forwarded ", n.as_str(), " message(s) to ");
    concat2(head.as_str(), display_name)
}

/// The reply of the edit, pin and unpin tools: `Message <id> <verb> in <chat>`.
pub fn message_changed_text(message_id: i32, verb: &str, display_name: &str) -> (r: String)
    ensures
        r@ == "Message "@ + crate::text::int_decimal(message_id as int) + " "@ + verb@ + " in "@ + display_name@,
{
    let id = crate::json::i64_decimal(message_id as i64);
    let head = crate::text::concat3("Message ", id.as_str(), " ");
    let tail = crate::text::concat3(verb, " in ", display_name);
    concat2(head.as_str(), tail.as_str())
}

/// The reply of `download_media`.
pub fn downloaded_text(downloaded: bool, output: &str) -> (r: String)
    ensures
        r@ == if downloaded {
            "Media downloaded to "@ + output@
        } else {
            "No downloadable media found in the message."@
        },
{
    if downloaded {
        concat2("Media downloaded to ", output)
    } else {
        crate::text::owned("No downloadable media found in the message.")
    }
}

/// The reply of `click_button` when no message followed.
pub fn no_followup_text() -> (r: &'static str)
    ensures
        r@ == "Button clicked, no follow-up message received."@,
{
    "Button clicked, no follow-up message received."
}

/// The error for a line that is not a request: JSON-RPC's parse error.
pub fn parse_error_response(detail: &str) -> (r: McpResponse)
    ensures
        r.id is None,
        r.result is None,
        r.error matches Some(e) && e.code == -32700 && e.message@ == "Parse error: "@ + detail@,
{
    McpResponse::error(None, -32700, concat2("Parse error: ", detail))
}


/// Law: every name a tool's input schema requires is one of its properties.
pub proof fn law_required_are_properties(i: int, j: int)
    requires
        0 <= i < tool_names().len(),
        0 <= j < tool_required_table()[i].len(),
    ensures
        tool_property_table()[i].contains(tool_required_table()[i][j]),
{
    let props = tool_property_table()[i];
    let required = tool_required_table()[i];
    if i == 0 {
        if j == 0 {
            assert(props[1] == required[0]);
        }
        if j == 1 {
            assert(props[2] == required[1]);
        }
    } else if i == 1 {
        if j == 0 {
            assert(props[1] == required[0]);
        }
        if j == 1 {
            assert(props[2] == required[1]);
        }
    } else if i == 2 {
        if j == 0 {
            assert(props[1] == required[0]);
        }
    } else if i == 3 {
        if j == 0 {
            assert(props[1] == required[0]);
        }
    } else if i == 4 {
        if j == 0 {
            assert(props[1] == required[0]);
        }
    } else if i == 8 {
        if j == 0 {
            assert(props[1] == required[0]);
        }
        if j == 1 {
            assert(props[2] == required[1]);
        }
    } else if i == 9 {
        if j == 0 {
            assert(props[1] == required[0]);
        }
    } else if i == 10 {
        if j == 0 {
            assert(props[1] == required[0]);
        }
        if j == 1 {
            assert(props[2] == required[1]);
        }
    } else if i == 11 {
        if j == 0 {
            assert(props[1] == required[0]);
        }
        if j == 1 {
            assert(props[2] == required[1]);
        }
    } else if i == 12 {
        if j == 0 {
            assert(props[1] == required[0]);
        }
        if j == 1 {
            assert(props[2] == required[1]);
        }
        if j == 2 {
            assert(props[3] == required[2]);
        }
    } else if i == 13 {
        if j == 0 {
            assert(props[1] == required[0]);
        }
        if j == 1 {
            assert(props[2] == required[1]);
        }
        if j == 2 {
            assert(props[3] == required[2]);
        }
    } else if i == 14 {
        if j == 0 {
            assert(props[1] == required[0]);
        }
        if j == 1 {
            assert(props[2] == required[1]);
        }
    } else if i == 15 {
        if j == 0 {
            assert(props[1] == required[0]);
        }
        if j == 1 {
            assert(props[2] == required[1]);
        }
    } else if i == 16 {
        if j == 0 {
            assert(props[1] == required[0]);
        }
        if j == 1 {
            assert(props[2] == required[1]);
        }
    }
}

/// Law: a call of every catalogued tool is read as a call of a known tool,
/// never refused as unknown, whatever its arguments.
pub proof fn law_catalogue_tools_dispatch(i: int, args: Json)
    requires
        0 <= i < tool_names().len(),
    ensures
        spec_plan_tool_call(tool_names()[i], args) != Err::<ToolCallView, Seq<char>>("Unknown tool: "@ + tool_names()[i]),
{
    reveal_strlit("send_message");
    reveal_strlit("send_file");
    reveal_strlit("recv_messages");
    reveal_strlit("wait_for_message");
    reveal_strlit("resolve_peer");
    reveal_strlit("list_contacts");
    reveal_strlit("list_chats");
    reveal_strlit("list_accounts");
    reveal_strlit("click_button");
    reveal_strlit("list_actions");
    reveal_strlit("trigger_action");
    reveal_strlit("send_photo");
    reveal_strlit("forward_messages");
    reveal_strlit("edit_message");
    reveal_strlit("pin_message");
    reveal_strlit("unpin_message");
    reveal_strlit("download_media");
    reveal_strlit("Unknown tool: ");
    reveal_strlit("Missing required parameter: ");
    let name = tool_names()[i];
    let r = spec_plan_tool_call(name, args);
    if r is Err {
        let e = r->Err_0;
        assert(e[0] == 'M');
        assert(("Unknown tool: "@ + name)[0] == 'U');
    }
}

/// A number that tells the tool names apart: their length, first and sixth
/// characters.
spec fn tool_name_key(s: Seq<char>) -> int {
    s.len() * 1_000_000 + (s[0] as int) * 1000 + (s[5] as int)
}

/// The catalogue index a tool name's key points to.
spec fn tool_index(s: Seq<char>) -> int {
    let k = tool_name_key(s);
    if k == 12115109 {
        0
    } else if k == 9115102 {
        1
    } else if k == 13114109 {
        2
    } else if k == 16119102 {
        3
    } else if k == 12114118 {
        4
    } else if k == 13108099 {
        5
    } else if k == 10108099 {
        6
    } else if k == 13108097 {
        7
    } else if k == 12099095 {
        8
    } else if k == 12108097 {
        9
    } else if k == 14116101 {
        10
    } else if k == 10115112 {
        11
    } else if k == 16102114 {
        12
    } else if k == 12101109 {
        13
    } else if k == 11112101 {
        14
    } else if k == 13117095 {
        15
    } else if k == 14100111 {
        16
    } else {
        -1
    }
}

/// Each catalogued name's key points back to its own index.
proof fn lemma_tool_index(i: int)
    requires
        0 <= i < tool_names().len(),
    ensures
        tool_index(tool_names()[i]) == i,
{
    if i == 0 {
        reveal_strlit("send_message");
    } else if i == 1 {
        reveal_strlit("send_file");
    } else if i == 2 {
        reveal_strlit("recv_messages");
    } else if i == 3 {
        reveal_strlit("wait_for_message");
    } else if i == 4 {
        reveal_strlit("resolve_peer");
    } else if i == 5 {
        reveal_strlit("list_contacts");
    } else if i == 6 {
        reveal_strlit("list_chats");
    } else if i == 7 {
        reveal_strlit("list_accounts");
    } else if i == 8 {
        reveal_strlit("click_button");
    } else if i == 9 {
        reveal_strlit("list_actions");
    } else if i == 10 {
        reveal_strlit("trigger_action");
    } else if i == 11 {
        reveal_strlit("send_photo");
    } else if i == 12 {
        reveal_strlit("forward_messages");
    } else if i == 13 {
        reveal_strlit("edit_message");
    } else if i == 14 {
        reveal_strlit("pin_message");
    } else if i == 15 {
        reveal_strlit("unpin_message");
    } else if i == 16 {
        reveal_strlit("download_media");
    }
}

/// Law: the catalogue names each tool once.
pub proof fn law_tool_names_distinct(i: int, k: int)
    requires
        0 <= i < tool_names().len(),
        0 <= k < tool_names().len(),
        i != k,
    ensures
        tool_names()[i] != tool_names()[k],
{
    lemma_tool_index(i);
    lemma_tool_index(k);
}

/// Law: a `wait_for_message` call that names its chat waits in that chat for
/// a message whose text is exactly the `text` argument, when that is a
/// string, and that contains the `text_contains` argument, when that is a
/// string; each condition is absent when its argument is. A call without a
/// chat is refused for the missing chat.
pub proof fn law_wait_for_message_conditions(args: Json)
    ensures
        match as_str(json_get(args, "chat"@)) {
            Some(chat) => spec_plan_tool_call("wait_for_message"@, args) matches Ok(
                ToolCallView::WaitForMessage(c, exact, fragment, _),
            ) && c == chat && exact == as_str(json_get(args, "text"@)) && fragment == as_str(
                json_get(args, "text_contains"@),
            ),
            None => spec_plan_tool_call("wait_for_message"@, args) == Err::<ToolCallView, Seq<char>>(
                missing_parameter_message("chat"@),
            ),
        },
{
    reveal_strlit("send_message");
    reveal_strlit("send_file");
    reveal_strlit("recv_messages");
    reveal_strlit("wait_for_message");
    assert("wait_for_message"@.len() == 16);
    assert("send_message"@.len() == 12);
    assert("send_file"@.len() == 9);
    assert("recv_messages"@.len() == 13);
    assert("wait_for_message"@ != "send_message"@);
    assert("wait_for_message"@ != "send_file"@);
    assert("wait_for_message"@ != "recv_messages"@);
    let chat = as_str(json_get(args, "chat"@));
    if chat is Some {
        assert(req(args, "chat"@) == Ok::<Seq<char>, Seq<char>>(chat->0));
    }
}

/// The text argument under a key, if it is a string.
pub open spec fn arg(args: Json, key: Seq<char>) -> Option<Seq<char>> {
    as_str(json_get(args, key))
}

/// Law: each tool reads its operation from the arguments of the same names:
/// when its required arguments are present, the planned call carries each
/// argument in its own place (chat in the chat, text in the text, the source
/// chat as the source, and so on), optional texts exactly when they are
/// strings, and the `message_id`, `limit` and timeout arguments read as the
/// tool's schema describes them.
pub proof fn law_tool_call_arguments(args: Json)
    ensures
        arg(args, "chat"@) is Some && arg(args, "text"@) is Some ==> spec_plan_tool_call("send_message"@, args)
            == Ok::<ToolCallView, Seq<char>>(ToolCallView::SendMessage(arg(args, "chat"@)->0, arg(args, "text"@)->0)),
        arg(args, "chat"@) is Some && arg(args, "path"@) is Some ==> spec_plan_tool_call("send_file"@, args)
            == Ok::<ToolCallView, Seq<char>>(ToolCallView::SendFile(
            arg(args, "chat"@)->0,
            arg(args, "path"@)->0,
            arg(args, "caption"@),
        )),
        arg(args, "chat"@) is Some ==> spec_plan_tool_call("recv_messages"@, args) == Ok::<ToolCallView, Seq<char>>(
            ToolCallView::RecvMessages(arg(args, "chat"@)->0, spec_arg_limit(args)),
        ),
        arg(args, "query"@) is Some ==> spec_plan_tool_call("resolve_peer"@, args) == Ok::<ToolCallView, Seq<char>>(
            ToolCallView::ResolvePeer(arg(args, "query"@)->0),
        ),
        spec_plan_tool_call("list_contacts"@, args) == Ok::<ToolCallView, Seq<char>>(ToolCallView::ListContacts),
        spec_plan_tool_call("list_chats"@, args) == Ok::<ToolCallView, Seq<char>>(ToolCallView::ListChats),
        spec_plan_tool_call("list_accounts"@, args) == Ok::<ToolCallView, Seq<char>>(ToolCallView::ListAccounts),
        arg(args, "chat"@) is Some && arg(args, "button"@) is Some ==> spec_plan_tool_call("click_button"@, args)
            == Ok::<ToolCallView, Seq<char>>(ToolCallView::ClickButton(
            arg(args, "chat"@)->0,
            arg(args, "button"@)->0,
            spec_arg_i64_id(args),
            spec_arg_timeout(args, "wait_timeout"@, "5s"@, 5),
        )),
        arg(args, "chat"@) is Some ==> spec_plan_tool_call("list_actions"@, args) == Ok::<ToolCallView, Seq<char>>(
            ToolCallView::ListActions(arg(args, "chat"@)->0, spec_arg_i64_id(args), spec_arg_limit(args)),
        ),
        arg(args, "chat"@) is Some && arg(args, "action"@) is Some ==> spec_plan_tool_call("trigger_action"@, args)
            == Ok::<ToolCallView, Seq<char>>(ToolCallView::TriggerAction(
            arg(args, "chat"@)->0,
            arg(args, "action"@)->0,
            spec_arg_i64_id(args),
            spec_arg_timeout(args, "wait_timeout"@, "5s"@, 5),
        )),
        arg(args, "chat"@) is Some && arg(args, "path"@) is Some ==> spec_plan_tool_call("send_photo"@, args)
            == Ok::<ToolCallView, Seq<char>>(ToolCallView::SendPhoto(
            arg(args, "chat"@)->0,
            arg(args, "path"@)->0,
            arg(args, "caption"@),
        )),
        arg(args, "from_chat"@) is Some && arg(args, "to_chat"@) is Some && arg(args, "message_ids"@) is Some
            ==> spec_plan_tool_call("forward_messages"@, args) == Ok::<ToolCallView, Seq<char>>(
            ToolCallView::ForwardMessages(
                arg(args, "from_chat"@)->0,
                arg(args, "to_chat"@)->0,
                arg(args, "message_ids"@)->0,
            ),
        ),
        arg(args, "chat"@) is Some && spec_arg_i32_id(args) is Some && arg(args, "text"@) is Some
            ==> spec_plan_tool_call("edit_message"@, args) == Ok::<ToolCallView, Seq<char>>(ToolCallView::EditMessage(
            arg(args, "chat"@)->0,
            spec_arg_i32_id(args)->0,
            arg(args, "text"@)->0,
        )),
        arg(args, "chat"@) is Some && spec_arg_i32_id(args) is Some ==> spec_plan_tool_call("pin_message"@, args)
            == Ok::<ToolCallView, Seq<char>>(ToolCallView::PinMessage(arg(args, "chat"@)->0, spec_arg_i32_id(args)->0)),
        arg(args, "chat"@) is Some && spec_arg_i32_id(args) is Some ==> spec_plan_tool_call("unpin_message"@, args)
            == Ok::<ToolCallView, Seq<char>>(ToolCallView::UnpinMessage(arg(args, "chat"@)->0, spec_arg_i32_id(args)->0)),
        arg(args, "chat"@) is Some && spec_arg_i32_id(args) is Some ==> spec_plan_tool_call("download_media"@, args)
            == Ok::<ToolCallView, Seq<char>>(ToolCallView::DownloadMedia(
            arg(args, "chat"@)->0,
            spec_arg_i32_id(args)->0,
            arg(args, "output"@),
        )),
{
    assert(tool_names()[0] == "send_message"@);
    assert(tool_names()[1] == "send_file"@);
    assert(tool_names()[2] == "recv_messages"@);
    assert(tool_names()[3] == "wait_for_message"@);
    assert(tool_names()[4] == "resolve_peer"@);
    assert(tool_names()[5] == "list_contacts"@);
    assert(tool_names()[6] == "list_chats"@);
    assert(tool_names()[7] == "list_accounts"@);
    assert(tool_names()[8] == "click_button"@);
    assert(tool_names()[9] == "list_actions"@);
    assert(tool_names()[10] == "trigger_action"@);
    assert(tool_names()[11] == "send_photo"@);
    assert(tool_names()[12] == "forward_messages"@);
    assert(tool_names()[13] == "edit_message"@);
    assert(tool_names()[14] == "pin_message"@);
    assert(tool_names()[15] == "unpin_message"@);
    assert(tool_names()[16] == "download_media"@);
    assert forall|i: int, k: int| 0 <= i < tool_names().len() && 0 <= k < tool_names().len() && i != k
        implies #[trigger] tool_names()[i] != #[trigger] tool_names()[k] by {
        law_tool_names_distinct(i, k);
    }
}

/// Whether a required argument is present: `message_id` as an integer, every
/// other as a string.
pub open spec fn required_present(args: Json, key: Seq<char>) -> bool {
    if key == "message_id"@ {
        spec_arg_i32_id(args) is Some
    } else {
        arg(args, key) is Some
    }
}

/// Law: a call of a catalogued tool that lacks one of the arguments its
/// schema requires is refused, naming the first missing one in schema order.
pub proof fn law_missing_required_argument(i: int, args: Json, j: int)
    requires
        0 <= i < tool_names().len(),
        0 <= j < tool_required_table()[i].len(),
        forall|l: int| 0 <= l < j ==> required_present(args, #[trigger] tool_required_table()[i][l]),
        !required_present(args, tool_required_table()[i][j]),
    ensures
        spec_plan_tool_call(tool_names()[i], args) == Err::<ToolCallView, Seq<char>>(
            missing_parameter_message(tool_required_table()[i][j]),
        ),
{
    reveal_strlit("message_id");
    assert(tool_names()[0] == "send_message"@);
    assert(tool_names()[1] == "send_file"@);
    assert(tool_names()[2] == "recv_messages"@);
    assert(tool_names()[3] == "wait_for_message"@);
    assert(tool_names()[4] == "resolve_peer"@);
    assert(tool_names()[5] == "list_contacts"@);
    assert(tool_names()[6] == "list_chats"@);
    assert(tool_names()[7] == "list_accounts"@);
    assert(tool_names()[8] == "click_button"@);
    assert(tool_names()[9] == "list_actions"@);
    assert(tool_names()[10] == "trigger_action"@);
    assert(tool_names()[11] == "send_photo"@);
    assert(tool_names()[12] == "forward_messages"@);
    assert(tool_names()[13] == "edit_message"@);
    assert(tool_names()[14] == "pin_message"@);
    assert(tool_names()[15] == "unpin_message"@);
    assert(tool_names()[16] == "download_media"@);
    assert forall|a: int, b: int| 0 <= a < tool_names().len() && 0 <= b < tool_names().len() && a != b
        implies #[trigger] tool_names()[a] != #[trigger] tool_names()[b] by {
        law_tool_names_distinct(a, b);
    }
    let req = tool_required_table()[i];
    if i == 0 {
        reveal_strlit("chat");
        reveal_strlit("text");
        if j > 0 {
            assert(required_present(args, req[0]));
        }
        if j > 1 {
            assert(required_present(args, req[1]));
        }
    }
    if i == 1 {
        reveal_strlit("chat");
        reveal_strlit("path");
        if j > 0 {
            assert(required_present(args, req[0]));
        }
        if j > 1 {
            assert(required_present(args, req[1]));
        }
    }
    if i == 2 {
        reveal_strlit("chat");
        if j > 0 {
            assert(required_present(args, req[0]));
        }
    }
    if i == 3 {
        reveal_strlit("chat");
        if j > 0 {
            assert(required_present(args, req[0]));
        }
    }
    if i == 4 {
        reveal_strlit("query");
        if j > 0 {
            assert(required_present(args, req[0]));
        }
    }
    if i == 8 {
        reveal_strlit("chat");
        reveal_strlit("button");
        if j > 0 {
            assert(required_present(args, req[0]));
        }
        if j > 1 {
            assert(required_present(args, req[1]));
        }
    }
    if i == 9 {
        reveal_strlit("chat");
        if j > 0 {
            assert(required_present(args, req[0]));
        }
    }
    if i == 10 {
        reveal_strlit("chat");
        reveal_strlit("action");
        if j > 0 {
            assert(required_present(args, req[0]));
        }
        if j > 1 {
            assert(required_present(args, req[1]));
        }
    }
    if i == 11 {
        reveal_strlit("chat");
        reveal_strlit("path");
        if j > 0 {
            assert(required_present(args, req[0]));
        }
        if j > 1 {
            assert(required_present(args, req[1]));
        }
    }
    if i == 12 {
        reveal_strlit("from_chat");
        reveal_strlit("to_chat");
        reveal_strlit("message_ids");
        if j > 0 {
            assert(required_present(args, req[0]));
        }
        if j > 1 {
            assert(required_present(args, req[1]));
        }
        if j > 2 {
            assert(required_present(args, req[2]));
        }
    }
    if i == 13 {
        reveal_strlit("chat");
        reveal_strlit("message_id");
        reveal_strlit("text");
        if j > 0 {
            assert(required_present(args, req[0]));
        }
        if j > 1 {
            assert(required_present(args, req[1]));
        }
        if j > 2 {
            assert(required_present(args, req[2]));
        }
    }
    if i == 14 {
        reveal_strlit("chat");
        reveal_strlit("message_id");
        if j > 0 {
            assert(required_present(args, req[0]));
        }
        if j > 1 {
            assert(required_present(args, req[1]));
        }
    }
    if i == 15 {
        reveal_strlit("chat");
        reveal_strlit("message_id");
        if j > 0 {
            assert(required_present(args, req[0]));
        }
        if j > 1 {
            assert(required_present(args, req[1]));
        }
    }
    if i == 16 {
        reveal_strlit("chat");
        reveal_strlit("message_id");
        if j > 0 {
            assert(required_present(args, req[0]));
        }
        if j > 1 {
            assert(required_present(args, req[1]));
        }
    }
}

} // verus!
