//! What is stored about accounts, aliases and scenario runs.
use vstd::prelude::*;
use crate::errors::{Result, TelegramCliError, is_message_error};
use crate::telegram::lowercase::{spec_to_lowercase, to_lowercase};
use crate::telegram::peers::PeerKind;
use crate::text::{concat2, owned, str_eq};

verus! {

/// Whether an account is a user or a bot.
#[derive(Debug, Clone, Copy, PartialEq, Eq, Structural)]
pub enum AccountKind {
    User,
    Bot,
}

/// Whether an account has a usable session.
#[derive(Debug, Clone, Copy, PartialEq, Eq, Structural)]
pub enum LoginState {
    Pending,
    Authorized,
}

/// The stored name of an account kind.
pub open spec fn spec_account_kind_str(k: AccountKind) -> Seq<char> {
    match k {
        AccountKind::User => "user"@,
        AccountKind::Bot => "bot"@,
    }
}

/// The stored name of a login state.
pub open spec fn spec_login_state_str(s: LoginState) -> Seq<char> {
    match s {
        LoginState::Pending => "pending"@,
        LoginState::Authorized => "authorized"@,
    }
}

/// The account kind an already lower-cased name denotes.
pub open spec fn spec_account_kind_named(lower: Seq<char>) -> Option<AccountKind> {
    if lower == "user"@ {
        Some(AccountKind::User)
    } else if lower == "bot"@ {
        Some(AccountKind::Bot)
    } else {
        None
    }
}

/// The login state an already lower-cased name denotes.
pub open spec fn spec_login_state_named(lower: Seq<char>) -> Option<LoginState> {
    if lower == "pending"@ {
        Some(LoginState::Pending)
    } else if lower == "authorized"@ {
        Some(LoginState::Authorized)
    } else {
        None
    }
}

impl AccountKind {
    /// The stored name of the kind.
    pub fn as_str(self) -> (r: &'static str)
        ensures
            r@ == spec_account_kind_str(self),
    {
        match self {
            AccountKind::User => "user",
            AccountKind::Bot => "bot",
        }
    }

    /// The kind named by an already lower-cased text; the error quotes it.
    pub fn from_lowercase(lower: &str) -> (r: Result<AccountKind>)
        ensures
            match spec_account_kind_named(lower@) {
                Some(k) => r == Ok::<AccountKind, TelegramCliError>(k),
                None => r is Err && is_message_error(r->Err_0, "unsupported account kind: "@ + lower@),
            },
    {
        if str_eq(lower, "user") {
            Ok(AccountKind::User)
        } else if str_eq(lower, "bot") {
            Ok(AccountKind::Bot)
        } else {
            Err(TelegramCliError::Message(concat2("unsupported account kind: ", lower)))
        }
    }

    /// Parses a stored kind name, case-insensitively.
    pub fn from_str(s: &str) -> (r: Result<AccountKind>)
        ensures
            match spec_account_kind_named(spec_to_lowercase(s@)) {
                Some(k) => r == Ok::<AccountKind, TelegramCliError>(k),
                None => r is Err && is_message_error(r->Err_0, "unsupported account kind: "@ + spec_to_lowercase(s@)),
            },
    {
        let lower = to_lowercase(s);
        AccountKind::from_lowercase(lower.as_str())
    }
}

impl LoginState {
    /// The stored name of the state.
    pub fn as_str(self) -> (r: &'static str)
        ensures
            r@ == spec_login_state_str(self),
    {
        match self {
            LoginState::Pending => "pending",
            LoginState::Authorized => "authorized",
        }
    }

    /// The state named by an already lower-cased text; the error quotes it.
    pub fn from_lowercase(lower: &str) -> (r: Result<LoginState>)
        ensures
            match spec_login_state_named(lower@) {
                Some(k) => r == Ok::<LoginState, TelegramCliError>(k),
                None => r is Err && is_message_error(r->Err_0, "unsupported login state: "@ + lower@),
            },
    {
        if str_eq(lower, "pending") {
            Ok(LoginState::Pending)
        } else if str_eq(lower, "authorized") {
            Ok(LoginState::Authorized)
        } else {
            Err(TelegramCliError::Message(concat2("unsupported login state: ", lower)))
        }
    }

    /// Parses a stored state name, case-insensitively.
    pub fn from_str(s: &str) -> (r: Result<LoginState>)
        ensures
            match spec_login_state_named(spec_to_lowercase(s@)) {
                Some(k) => r == Ok::<LoginState, TelegramCliError>(k),
                None => r is Err && is_message_error(r->Err_0, "unsupported login state: "@ + spec_to_lowercase(s@)),
            },
    {
        let lower = to_lowercase(s);
        LoginState::from_lowercase(lower.as_str())
    }
}

/// Law: the stored name of a kind parses back to the kind.
pub proof fn law_account_kind_roundtrip(k: AccountKind)
    ensures
        spec_account_kind_named(spec_account_kind_str(k)) == Some(k),
{
    reveal_strlit("user");
    reveal_strlit("bot");
    assert("user"@ != "bot"@) by {
        assert("user"@.len() == 4);
        assert("bot"@.len() == 3);
    }
}

/// Law: the stored name of a login state parses back to the state.
pub proof fn law_login_state_roundtrip(s: LoginState)
    ensures
        spec_login_state_named(spec_login_state_str(s)) == Some(s),
{
    reveal_strlit("pending");
    reveal_strlit("authorized");
    assert("pending"@ != "authorized"@) by {
        assert("pending"@.len() == 7);
        assert("authorized"@.len() == 10);
    }
}

/// An account to be registered.
#[derive(Debug, Clone, PartialEq, Eq)]
pub struct NewAccount {
    pub name: String,
    pub kind: AccountKind,
    pub api_id: Option<i32>,
    pub api_hash: Option<String>,
    pub phone: Option<String>,
    pub bot_token: Option<String>,
    pub login_state: LoginState,
}

/// The text of an optional string.
pub open spec fn opt_view(s: Option<String>) -> Option<Seq<char>> {
    match s {
        Some(t) => Some(t@),
        None => None,
    }
}

impl NewAccount {
    /// A user account with API credentials and a phone number, not yet logged in.
    pub fn user(name: &str, api_id: i32, api_hash: &str, phone: &str) -> (r: NewAccount)
        ensures
            r.name@ == name@,
            r.kind == AccountKind::User,
            r.api_id == Some(api_id),
            opt_view(r.api_hash) == Some(api_hash@),
            opt_view(r.phone) == Some(phone@),
            r.bot_token is None,
            r.login_state == LoginState::Pending,
    {
        NewAccount {
            name: owned(name),
            kind: AccountKind::User,
            api_id: Some(api_id),
            api_hash: Some(owned(api_hash)),
            phone: Some(owned(phone)),
            bot_token: None,
            login_state: LoginState::Pending,
        }
    }

    /// A user account that will log in by QR code: no phone number.
    pub fn user_qr(name: &str, api_id: i32, api_hash: &str) -> (r: NewAccount)
        ensures
            r.name@ == name@,
            r.kind == AccountKind::User,
            r.api_id == Some(api_id),
            opt_view(r.api_hash) == Some(api_hash@),
            r.phone is None,
            r.bot_token is None,
            r.login_state == LoginState::Pending,
    {
        NewAccount {
            name: owned(name),
            kind: AccountKind::User,
            api_id: Some(api_id),
            api_hash: Some(owned(api_hash)),
            phone: None,
            bot_token: None,
            login_state: LoginState::Pending,
        }
    }

    /// A bot account with its token and optional API credentials.
    pub fn bot(name: &str, bot_token: &str, api_id: Option<i32>, api_hash: Option<String>) -> (r: NewAccount)
        ensures
            r.name@ == name@,
            r.kind == AccountKind::Bot,
            r.api_id == api_id,
            r.api_hash == api_hash,
            r.phone is None,
            opt_view(r.bot_token) == Some(bot_token@),
            r.login_state == LoginState::Pending,
    {
        NewAccount {
            name: owned(name),
            kind: AccountKind::Bot,
            api_id,
            api_hash,
            phone: None,
            bot_token: Some(owned(bot_token)),
            login_state: LoginState::Pending,
        }
    }
}

/// A stored account as listed.
#[derive(Debug, Clone, PartialEq, Eq)]
pub struct AccountRecord {
    pub id: i64,
    pub name: String,
    pub kind: AccountKind,
    pub login_state: LoginState,
    pub is_default: bool,
    pub api_id: Option<i32>,
    pub phone: Option<String>,
}

/// A stored account with its decrypted credentials.
#[derive(Debug, Clone, PartialEq, Eq)]
pub struct AccountProfile {
    pub id: i64,
    pub name: String,
    pub kind: AccountKind,
    pub login_state: LoginState,
    pub is_default: bool,
    pub api_id: Option<i32>,
    pub api_hash: Option<String>,
    pub phone: Option<String>,
    pub bot_token: Option<String>,
    pub last_login_at: Option<String>,
}

/// A saved alias for a peer.
#[derive(Debug, Clone, PartialEq, Eq)]
pub struct AliasRecord {
    pub alias: String,
    pub peer_id: i64,
    pub peer_kind: PeerKind,
    pub display_name: String,
    pub username: Option<String>,
    pub packed_hex: Option<String>,
}

/// A recorded scenario run.
#[derive(Debug, Clone, PartialEq, Eq)]
pub struct TestRunRecord {
    pub id: i64,
    pub scenario_path: String,
    pub status: String,
    pub started_at: String,
    pub finished_at: Option<String>,
}

/// One recorded event of a scenario run.
#[derive(Debug, Clone, PartialEq, Eq)]
pub struct RunEventRecord {
    pub id: i64,
    pub run_id: i64,
    pub step_name: String,
    pub payload_json: String,
    pub created_at: String,
}

} // verus!
