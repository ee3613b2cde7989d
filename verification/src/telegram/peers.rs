//! Resolved Telegram peers.
use vstd::prelude::*;
use crate::errors::{Result, TelegramCliError, is_message_error};
use crate::json::{Json, JsonValue, ObjectBuilder, entries_view};
use crate::text::{concat2, int_decimal, owned, str_eq};
use crate::telegram::lowercase::{spec_to_lowercase, to_lowercase};

verus! {

/// The kind of a Telegram peer.
#[derive(Debug, Clone, Copy, PartialEq, Eq, Structural)]
pub enum PeerKind {
    User,
    Bot,
    Group,
    Channel,
}

/// The snake-case name of a peer kind.
pub open spec fn spec_peer_kind_str(k: PeerKind) -> Seq<char> {
    match k {
        PeerKind::User => "user"@,
        PeerKind::Bot => "bot"@,
        PeerKind::Group => "group"@,
        PeerKind::Channel => "channel"@,
    }
}

impl PeerKind {
    /// The snake-case name of the kind.
    pub fn as_str(self) -> (r: &'static str)
        ensures
            r@ == spec_peer_kind_str(self),
    {
        match self {
            PeerKind::User => "user",
            PeerKind::Bot => "bot",
            PeerKind::Group => "group",
            PeerKind::Channel => "channel",
        }
    }

    /// The kind named by an already lower-cased text; the error quotes it.
    pub fn from_lowercase(lower: &str) -> (r: Result<PeerKind>)
        ensures
            match spec_peer_kind_named(lower@) {
                Some(k) => r == Ok::<PeerKind, TelegramCliError>(k),
                None => r is Err && is_message_error(r->Err_0, "unsupported peer kind: "@ + lower@),
            },
    {
        if str_eq(lower, "user") {
            Ok(PeerKind::User)
        } else if str_eq(lower, "bot") {
            Ok(PeerKind::Bot)
        } else if str_eq(lower, "group") {
            Ok(PeerKind::Group)
        } else if str_eq(lower, "channel") {
            Ok(PeerKind::Channel)
        } else {
            Err(TelegramCliError::Message(concat2("unsupported peer kind: ", lower)))
        }
    }

    /// Parses a kind name, ignoring case.
    pub fn from_str(s: &str) -> (r: Result<PeerKind>)
        ensures
            match spec_peer_kind_named(spec_to_lowercase(s@)) {
                Some(k) => r == Ok::<PeerKind, TelegramCliError>(k),
                None => r is Err && is_message_error(r->Err_0, "unsupported peer kind: "@ + spec_to_lowercase(s@)),
            },
    {
        let lower = to_lowercase(s);
        PeerKind::from_lowercase(lower.as_str())
    }
}

/// The kind a lower-cased name names, if any.
pub open spec fn spec_peer_kind_named(lower: Seq<char>) -> Option<PeerKind> {
    if lower == "user"@ {
        Some(PeerKind::User)
    } else if lower == "bot"@ {
        Some(PeerKind::Bot)
    } else if lower == "group"@ {
        Some(PeerKind::Group)
    } else if lower == "channel"@ {
        Some(PeerKind::Channel)
    } else {
        None
    }
}

/// Law: the name of a peer kind parses back to the kind.
pub proof fn law_peer_kind_roundtrip(k: PeerKind)
    ensures
        spec_peer_kind_named(spec_peer_kind_str(k)) == Some(k),
{
    reveal_strlit("user");
    reveal_strlit("bot");
    reveal_strlit("group");
    reveal_strlit("channel");
    assert("bot"@.len() == 3);
    assert("user"@.len() == 4);
    assert("group"@.len() == 5);
    assert("channel"@.len() == 7);
}

/// A peer that a query resolved to.
#[derive(Debug, Clone, PartialEq, Eq)]
pub struct ResolvedPeer {
    pub peer_id: i64,
    pub peer_kind: PeerKind,
    pub display_name: String,
    pub username: Option<String>,
    pub packed_hex: Option<String>,
}

/// An optional text as JSON.
/// An optional string by its characters.
pub open spec fn opt_chars(s: Option<String>) -> Option<Seq<char>> {
    match s {
        Some(t) => Some(t@),
        None => None,
    }
}

pub open spec fn opt_str_json(s: Option<String>) -> Json {
    match s {
        Some(t) => Json::Str(t@),
        None => Json::Null,
    }
}

/// The JSON form of a resolved peer.
pub open spec fn spec_peer_json(p: ResolvedPeer) -> Json {
    Json::Object(seq![
        ("peer_id"@, Json::Number(int_decimal(p.peer_id as int))),
        ("peer_kind"@, Json::Str(spec_peer_kind_str(p.peer_kind))),
        ("display_name"@, Json::Str(p.display_name@)),
        ("username"@, opt_str_json(p.username)),
        ("packed_hex"@, opt_str_json(p.packed_hex)),
    ])
}

/// A copy of an optional string.
pub fn copy_opt(s: &Option<String>) -> (r: Option<String>)
    ensures
        r is Some == s is Some,
        r is Some ==> r->0@ == s->0@,
        opt_chars(r) == opt_chars(*s),
{
    match s {
        Some(t) => Some(owned(t.as_str())),
        None => None,
    }
}

impl ResolvedPeer {
    /// The JSON form of the peer.
    pub fn to_json(&self) -> (r: JsonValue)
        ensures
            r@ == spec_peer_json(*self),
    {
        let mut b = ObjectBuilder::new();
        b.field("peer_id", JsonValue::integer(self.peer_id));
        b.field("peer_kind", JsonValue::string(self.peer_kind.as_str()));
        b.field("display_name", JsonValue::string(self.display_name.as_str()));
        b.field("username", JsonValue::opt_string(&self.username));
        b.field("packed_hex", JsonValue::opt_string(&self.packed_hex));
        let ghost e = entries_view(b.entries@);
        let r = b.build();
        assert(e =~= seq![
            ("peer_id"@, Json::Number(int_decimal(self.peer_id as int))),
            ("peer_kind"@, Json::Str(spec_peer_kind_str(self.peer_kind))),
            ("display_name"@, Json::Str(self.display_name@)),
            ("username"@, opt_str_json(self.username)),
            ("packed_hex"@, opt_str_json(self.packed_hex)),
        ]);
        r
    }

    /// A copy of the peer.
    pub fn duplicate(&self) -> (r: ResolvedPeer)
        ensures
            r.peer_id == self.peer_id,
            r.peer_kind == self.peer_kind,
            r.display_name@ == self.display_name@,
            r.username is Some == self.username is Some,
            r.username is Some ==> r.username->0@ == self.username->0@,
            r.packed_hex is Some == self.packed_hex is Some,
            r.packed_hex is Some ==> r.packed_hex->0@ == self.packed_hex->0@,
    {
        ResolvedPeer {
            peer_id: self.peer_id,
            peer_kind: self.peer_kind,
            display_name: owned(self.display_name.as_str()),
            username: copy_opt(&self.username),
            packed_hex: copy_opt(&self.packed_hex),
        }
    }
}

} // verus!
