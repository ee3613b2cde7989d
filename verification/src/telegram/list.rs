//! Contacts and chats of an account.
use vstd::prelude::*;
use crate::json::{Json, JsonValue, ObjectBuilder, entries_view, items_view, lemma_items_view_push};
use crate::telegram::peers::opt_str_json;
use crate::text::{int_decimal, nat_decimal, owned, concat2};
use crate::json::i64_decimal;

verus! {

/// A contact of the account.
#[derive(Debug, Clone, PartialEq, Eq)]
pub struct Contact {
    pub id: i64,
    pub phone: Option<String>,
    pub display_name: String,
    pub username: Option<String>,
}

/// How a contact is shown: its first name, else its last name, else its
/// username, else `user_` and its id.
pub open spec fn spec_contact_name(
    first_name: Option<Seq<char>>,
    last_name: Option<Seq<char>>,
    username: Option<Seq<char>>,
    id: int,
) -> Seq<char> {
    match first_name {
        Some(f) => f,
        None => match last_name {
            Some(l) => l,
            None => match username {
                Some(u) => u,
                None => "user_"@ + int_decimal(id),
            },
        },
    }
}

/// An optional text by its characters.
pub open spec fn opt_text(s: Option<&str>) -> Option<Seq<char>> {
    match s {
        Some(t) => Some(t@),
        None => None,
    }
}

/// An optional string by its characters.
pub open spec fn opt_string(s: Option<String>) -> Option<Seq<char>> {
    match s {
        Some(t) => Some(t@),
        None => None,
    }
}

/// A contact from what Telegram lists of a user.
pub fn contact_of(
    id: i64,
    phone: Option<String>,
    first_name: Option<&str>,
    last_name: Option<&str>,
    username: Option<String>,
) -> (r: Contact)
    ensures
        r.id == id,
        r.phone == phone,
        r.username == username,
        r.display_name@ == spec_contact_name(opt_text(first_name), opt_text(last_name), opt_string(username), id as int),
{
    let display_name = match first_name {
        Some(f) => owned(f),
        None => match last_name {
            Some(l) => owned(l),
            None => match &username {
                Some(u) => owned(u.as_str()),
                None => concat2("user_", i64_decimal(id).as_str()),
            },
        },
    };
    Contact { id, phone, display_name, username }
}

/// Whether a chat is a group or a channel.
#[derive(Debug, Clone, Copy, PartialEq, Eq, Structural)]
pub enum ChatKind {
    Group,
    Channel,
}

/// The lower-case name of a chat kind.
pub open spec fn spec_chat_kind_str(k: ChatKind) -> Seq<char> {
    match k {
        ChatKind::Group => "group"@,
        ChatKind::Channel => "channel"@,
    }
}

impl ChatKind {
    /// The lower-case name of the kind.
    pub fn as_str(self) -> (r: &'static str)
        ensures
            r@ == spec_chat_kind_str(self),
    {
        match self {
            ChatKind::Group => "group",
            ChatKind::Channel => "channel",
        }
    }
}

/// A group or channel of the account.
#[derive(Debug, Clone, PartialEq, Eq)]
pub struct Chat {
    pub id: i64,
    pub kind: ChatKind,
    pub display_name: String,
    pub username: Option<String>,
}

/// The JSON form of a contact.
pub open spec fn spec_contact_json(c: Contact) -> Json {
    Json::Object(seq![
        ("id"@, Json::Number(int_decimal(c.id as int))),
        ("phone"@, opt_str_json(c.phone)),
        ("display_name"@, Json::Str(c.display_name@)),
        ("username"@, opt_str_json(c.username)),
    ])
}

/// The JSON form of a chat.
pub open spec fn spec_chat_json(c: Chat) -> Json {
    Json::Object(seq![
        ("id"@, Json::Number(int_decimal(c.id as int))),
        ("kind"@, Json::Str(spec_chat_kind_str(c.kind))),
        ("display_name"@, Json::Str(c.display_name@)),
        ("username"@, opt_str_json(c.username)),
    ])
}

impl Contact {
    /// The JSON form of the contact.
    pub fn to_json(&self) -> (r: JsonValue)
        ensures
            r@ == spec_contact_json(*self),
    {
        let mut b = ObjectBuilder::new();
        b.field("id", JsonValue::integer(self.id));
        b.field("phone", JsonValue::opt_string(&self.phone));
        b.field("display_name", JsonValue::string(self.display_name.as_str()));
        b.field("username", JsonValue::opt_string(&self.username));
        let ghost e = entries_view(b.entries@);
        let r = b.build();
        assert(e =~= seq![
            ("id"@, Json::Number(int_decimal(self.id as int))),
            ("phone"@, opt_str_json(self.phone)),
            ("display_name"@, Json::Str(self.display_name@)),
            ("username"@, opt_str_json(self.username)),
        ]);
        r
    }
}

impl Chat {
    /// The JSON form of the chat.
    pub fn to_json(&self) -> (r: JsonValue)
        ensures
            r@ == spec_chat_json(*self),
    {
        let mut b = ObjectBuilder::new();
        b.field("id", JsonValue::integer(self.id));
        b.field("kind", JsonValue::string(self.kind.as_str()));
        b.field("display_name", JsonValue::string(self.display_name.as_str()));
        b.field("username", JsonValue::opt_string(&self.username));
        let ghost e = entries_view(b.entries@);
        let r = b.build();
        assert(e =~= seq![
            ("id"@, Json::Number(int_decimal(self.id as int))),
            ("kind"@, Json::Str(spec_chat_kind_str(self.kind))),
            ("display_name"@, Json::Str(self.display_name@)),
            ("username"@, opt_str_json(self.username)),
        ]);
        r
    }
}

/// The data of `list contacts`: the contacts and their number.
pub fn contacts_output(contacts: &Vec<Contact>) -> (r: JsonValue)
    ensures
        r@ == Json::Object(seq![
            ("contacts"@, Json::Array(Seq::new(contacts@.len(), |i: int| spec_contact_json(contacts@[i])))),
            ("total"@, Json::Number(nat_decimal(contacts@.len() as nat))),
        ]),
{
    let mut items: Vec<JsonValue> = Vec::new();
    let mut i: usize = 0;
    while i < contacts.len()
        invariant
            i <= contacts@.len(),
            items_view(items@) == Seq::new(i as nat, |k: int| spec_contact_json(contacts@[k])),
        decreases contacts@.len() - i,
    {
        let item = contacts[i].to_json();
        proof {
            lemma_items_view_push(items@, item);
        }
        items.push(item);
        i = i + 1;
        assert(items_view(items@) =~= Seq::new(i as nat, |k: int| spec_contact_json(contacts@[k])));
    }
    let ghost arr = items_view(items@);
    let mut b = ObjectBuilder::new();
    b.field("contacts", JsonValue::Array(items));
    b.field("total", JsonValue::natural(contacts.len() as u64));
    assert(entries_view(b.entries@) =~= seq![
        ("contacts"@, Json::Array(arr)),
        ("total"@, Json::Number(nat_decimal(contacts@.len() as nat))),
    ]);
    b.build()
}

/// The data of `list chats`: the chats and their number.
pub fn chats_output(chats: &Vec<Chat>) -> (r: JsonValue)
    ensures
        r@ == Json::Object(seq![
            ("chats"@, Json::Array(Seq::new(chats@.len(), |i: int| spec_chat_json(chats@[i])))),
            ("total"@, Json::Number(nat_decimal(chats@.len() as nat))),
        ]),
{
    let mut items: Vec<JsonValue> = Vec::new();
    let mut i: usize = 0;
    while i < chats.len()
        invariant
            i <= chats@.len(),
            items_view(items@) == Seq::new(i as nat, |k: int| spec_chat_json(chats@[k])),
        decreases chats@.len() - i,
    {
        let item = chats[i].to_json();
        proof {
            lemma_items_view_push(items@, item);
        }
        items.push(item);
        i = i + 1;
        assert(items_view(items@) =~= Seq::new(i as nat, |k: int| spec_chat_json(chats@[k])));
    }
    let ghost arr = items_view(items@);
    let mut b = ObjectBuilder::new();
    b.field("chats", JsonValue::Array(items));
    b.field("total", JsonValue::natural(chats.len() as u64));
    assert(entries_view(b.entries@) =~= seq![
        ("chats"@, Json::Array(arr)),
        ("total"@, Json::Number(nat_decimal(chats@.len() as nat))),
    ]);
    b.build()
}

} // verus!
