//! The account commands: where their secrets come from, which login they
//! ask for, and what they report.
use vstd::prelude::*;
use crate::errors::{Result, TelegramCliError, is_message_error};
use crate::json::{Json, JsonValue, ObjectBuilder, entries_view, items_view, lemma_items_view_push};
use crate::output::contract::{NextStep, ResultEnvelope, redact, steps_view};
use crate::storage::models::{AccountKind, AccountRecord, LoginState, spec_account_kind_str, spec_login_state_str};
use crate::telegram::auth::{LoginRequest, UserLoginRequest};
use crate::telegram::peers::{copy_opt, opt_chars};
use crate::text::{concat2, concat3, int_decimal, nat_decimal, owned};

verus! {

/// Where a secret was given: directly, through an environment variable
/// (with the variable's value, if it is set), or not at all.
pub open spec fn spec_secret_value(
    direct: Option<Seq<char>>,
    env_name: Option<Seq<char>>,
    env_value: Option<Seq<char>>,
    label: Seq<char>,
) -> core::result::Result<Option<Seq<char>>, Seq<char>> {
    match (direct, env_name) {
        (Some(v), None) => Ok(Some(v)),
        (None, Some(name)) => match env_value {
            Some(v) => Ok(Some(v)),
            None => Err("environment variable "@ + name + " is not set for "@ + label),
        },
        (Some(_), Some(_)) => Err("use either direct "@ + label + " input or an environment variable, not both"@),
        (None, None) => Ok(None),
    }
}

/// A secret given directly or through an environment variable (whose value
/// the caller read); both at once, or an unset variable, is an error.
pub fn resolve_secret_value(
    direct: Option<String>,
    env_name: Option<String>,
    env_value: Option<String>,
    label: &str,
) -> (r: Result<Option<String>>)
    ensures
        match spec_secret_value(opt_chars(direct), opt_chars(env_name), opt_chars(env_value), label@) {
            Ok(v) => r is Ok && opt_chars(r->Ok_0) == v,
            Err(m) => r is Err && is_message_error(r->Err_0, m),
        },
{
    match (direct, env_name) {
        (Some(value), None) => Ok(Some(value)),
        (None, Some(name)) => match env_value {
            Some(v) => Ok(Some(v)),
            None => {
                let head = concat3("environment variable ", name.as_str(), " is not set for ");
                Err(TelegramCliError::Message(concat2(head.as_str(), label)))
            },
        },
        (Some(_), Some(_)) => Err(TelegramCliError::Message(concat3(
            "use either direct ",
            label,
            " input or an environment variable, not both",
        ))),
        (None, None) => Ok(None),
    }
}

/// A bot token given directly or through an environment variable.
pub open spec fn spec_bot_token(
    token: Option<Seq<char>>,
    token_env: Option<Seq<char>>,
    env_value: Option<Seq<char>>,
) -> core::result::Result<Seq<char>, Seq<char>> {
    match (token, token_env) {
        (Some(t), None) => Ok(t),
        (None, Some(name)) => match env_value {
            Some(v) => Ok(v),
            None => Err("environment variable "@ + name + " is not set"@),
        },
        (Some(_), Some(_)) => Err("use either --token or --token-env, not both"@),
        (None, None) => Err("either --token or --token-env is required"@),
    }
}

/// The token of `account add-bot`.
pub fn resolve_bot_token(token: Option<String>, token_env: Option<String>, env_value: Option<String>) -> (r: Result<String>)
    ensures
        match spec_bot_token(opt_chars(token), opt_chars(token_env), opt_chars(env_value)) {
            Ok(t) => r is Ok && r->Ok_0@ == t,
            Err(m) => r is Err && is_message_error(r->Err_0, m),
        },
{
    match (token, token_env) {
        (Some(t), None) => Ok(t),
        (None, Some(name)) => match env_value {
            Some(v) => Ok(v),
            None => Err(TelegramCliError::Message(concat3("environment variable ", name.as_str(), " is not set"))),
        },
        (Some(_), Some(_)) => Err(TelegramCliError::Message(owned("use either --token or --token-env, not both"))),
        (None, None) => Err(TelegramCliError::Message(owned("either --token or --token-env is required"))),
    }
}

/// The message for a session import, which the live adapter does not offer.
pub open spec fn session_import_message() -> Seq<char> {
    "session import is not supported by the live adapter; use code/password login instead"@
}

/// The login an account asks for: a bot signs in with its token (never by
/// QR); a user by QR or by code and password, which may come from the
/// environment. A session import is refused after that choice.
pub fn login_request(
    kind: AccountKind,
    qr: bool,
    code: Result<Option<String>>,
    password: Result<Option<String>>,
    session_given: bool,
) -> (r: Result<LoginRequest>)
    ensures
        kind == AccountKind::Bot && qr ==> r is Err && is_message_error(r->Err_0, "QR login is not supported for bot accounts"@),
        kind == AccountKind::Bot && !qr ==> if session_given {
            r is Err && is_message_error(r->Err_0, session_import_message())
        } else {
            r matches Ok(LoginRequest::Bot)
        },
        kind == AccountKind::User && qr ==> if session_given {
            r is Err && is_message_error(r->Err_0, session_import_message())
        } else {
            r matches Ok(LoginRequest::UserQr)
        },
        kind == AccountKind::User && !qr ==> match code {
            Err(e) => r == Err::<LoginRequest, TelegramCliError>(e),
            Ok(c) => match password {
                Err(e) => r == Err::<LoginRequest, TelegramCliError>(e),
                Ok(p) => if session_given {
                    r is Err && is_message_error(r->Err_0, session_import_message())
                } else {
                    r == Ok::<LoginRequest, TelegramCliError>(LoginRequest::User(UserLoginRequest { code: c, password: p }))
                },
            },
        },
{
    let request = match kind {
        AccountKind::Bot => {
            if qr {
                return Err(TelegramCliError::Message(owned("QR login is not supported for bot accounts")));
            }
            LoginRequest::Bot
        },
        AccountKind::User => {
            if qr {
                LoginRequest::UserQr
            } else {
                let c = match code {
                    Ok(c) => c,
                    Err(e) => {
                        return Err(e);
                    },
                };
                let p = match password {
                    Ok(p) => p,
                    Err(e) => {
                        return Err(e);
                    },
                };
                LoginRequest::User(UserLoginRequest { code: c, password: p })
            }
        },
    };
    if session_given {
        return Err(TelegramCliError::Message(owned(
            "session import is not supported by the live adapter; use code/password login instead",
        )));
    }
    Ok(request)
}

/// `{account, login_state}`, the data of the account commands.
pub open spec fn account_state_json(account: Seq<char>, state: Seq<char>) -> Json {
    Json::Object(seq![("account"@, Json::Str(account)), ("login_state"@, Json::Str(state))])
}

/// `{account, login_state}`.
fn account_state(account: &str, state: &str) -> (r: JsonValue)
    ensures
        r@ == account_state_json(account@, state@),
{
    let mut b = ObjectBuilder::new();
    b.field("account", JsonValue::string(account));
    b.field("login_state", JsonValue::string(state));
    assert(entries_view(b.entries@) =~= seq![("account"@, Json::Str(account@)), ("login_state"@, Json::Str(state@))]);
    b.build()
}

/// What adding an account reports, for a user or a bot account.
pub fn added_account_result(kind: AccountKind, account_name: &str) -> (r: ResultEnvelope)
    ensures
        r.command@ == if kind == AccountKind::User { "telegram-agent-cli account add-user"@ } else { "telegram-agent-cli account add-bot"@ },
        r.summary@ == (if kind == AccountKind::User { "User account "@ } else { "Bot account "@ }) + account_name@ + " was added."@,
        r.data@ == redact(account_state_json(account_name@, "pending"@)),
        steps_view(r.next_steps@) == seq![
            ("authorize_account"@, "telegram-agent-cli account login "@ + account_name@),
            ("inspect_accounts"@, "telegram-agent-cli account list"@),
        ],
        r.status@ == "ok"@,
{
    let (command, who) = match kind {
        AccountKind::User => ("telegram-agent-cli account add-user", "User account "),
        AccountKind::Bot => ("telegram-agent-cli account add-bot", "Bot account "),
    };
    let summary = concat3(who, account_name, " was added.");
    let login = concat2("telegram-agent-cli account login ", account_name);
    let steps = vec![
        NextStep::new("authorize_account", login.as_str()),
        NextStep::new("inspect_accounts", "telegram-agent-cli account list"),
    ];
    let r = ResultEnvelope::success(command, summary.as_str(), account_state(account_name, "pending"), steps);
    assert(steps_view(r.next_steps@) =~= seq![
        ("authorize_account"@, "telegram-agent-cli account login "@ + account_name@),
        ("inspect_accounts"@, "telegram-agent-cli account list"@),
    ]);
    r
}

/// The JSON of an optional integer.
pub open spec fn opt_int(n: Option<i32>) -> Json {
    match n {
        Some(k) => Json::Number(int_decimal(k as int)),
        None => Json::Null,
    }
}

/// The JSON of an optional text.
pub open spec fn opt_text(s: Option<String>) -> Json {
    match s {
        Some(t) => Json::Str(t@),
        None => Json::Null,
    }
}

/// The JSON of a listed account.
pub open spec fn spec_account_json(a: AccountRecord) -> Json {
    Json::Object(seq![
        ("id"@, Json::Number(int_decimal(a.id as int))),
        ("name"@, Json::Str(a.name@)),
        ("kind"@, Json::Str(spec_account_kind_str(a.kind))),
        ("login_state"@, Json::Str(spec_login_state_str(a.login_state))),
        ("is_default"@, Json::Bool(a.is_default)),
        ("api_id"@, opt_int(a.api_id)),
        ("phone"@, opt_text(a.phone)),
    ])
}

/// The JSON of a listed account.
pub fn account_json(a: &AccountRecord) -> (r: JsonValue)
    ensures
        r@ == spec_account_json(*a),
{
    let mut b = ObjectBuilder::new();
    b.field("id", JsonValue::integer(a.id));
    b.field("name", JsonValue::string(a.name.as_str()));
    b.field("kind", JsonValue::string(a.kind.as_str()));
    b.field("login_state", JsonValue::string(a.login_state.as_str()));
    b.field("is_default", JsonValue::Bool(a.is_default));
    b.field("api_id", match a.api_id {
        Some(k) => JsonValue::integer(k as i64),
        None => JsonValue::Null,
    });
    b.field("phone", JsonValue::opt_string(&a.phone));
    assert(entries_view(b.entries@) =~= spec_account_json(*a)->Object_0);
    b.build()
}

/// The name of the first default account.
pub open spec fn spec_default_account(accounts: Seq<AccountRecord>) -> Option<Seq<char>>
    decreases accounts.len(),
{
    if accounts.len() == 0 {
        None
    } else if accounts[0].is_default {
        Some(accounts[0].name@)
    } else {
        spec_default_account(accounts.subrange(1, accounts.len() as int))
    }
}

/// The name of the first default account.
pub fn default_account(accounts: &Vec<AccountRecord>) -> (r: Option<String>)
    ensures
        opt_chars(r) == spec_default_account(accounts@),
{
    let ghost all = accounts@;
    let mut i: usize = 0;
    assert(all.subrange(0, all.len() as int) =~= all);
    while i < accounts.len()
        invariant
            all == accounts@,
            i <= all.len(),
            spec_default_account(all) == spec_default_account(all.subrange(i as int, all.len() as int)),
        decreases all.len() - i,
    {
        let ghost rest = all.subrange(i as int, all.len() as int);
        assert(rest[0] == all[i as int]);
        assert(rest.subrange(1, rest.len() as int) =~= all.subrange(i + 1, all.len() as int));
        if accounts[i].is_default {
            return Some(owned(accounts[i].name.as_str()));
        }
        i = i + 1;
    }
    None
}

/// The data of `account list`: the accounts, their number and the default.
pub fn account_list_output(accounts: &Vec<AccountRecord>) -> (r: JsonValue)
    ensures
        r@ == Json::Object(seq![
            ("accounts"@, Json::Array(Seq::new(accounts@.len(), |i: int| spec_account_json(accounts@[i])))),
            ("total"@, Json::Number(nat_decimal(accounts@.len() as nat))),
            ("default_account"@, match spec_default_account(accounts@) {
                Some(n) => Json::Str(n),
                None => Json::Null,
            }),
        ]),
{
    let mut items: Vec<JsonValue> = Vec::new();
    let mut i: usize = 0;
    while i < accounts.len()
        invariant
            i <= accounts@.len(),
            items_view(items@) == Seq::new(i as nat, |k: int| spec_account_json(accounts@[k])),
        decreases accounts@.len() - i,
    {
        let item = account_json(&accounts[i]);
        proof {
            lemma_items_view_push(items@, item);
        }
        items.push(item);
        i = i + 1;
        assert(items_view(items@) =~= Seq::new(i as nat, |k: int| spec_account_json(accounts@[k])));
    }
    let ghost arr = items_view(items@);
    let d = default_account(accounts);
    let mut b = ObjectBuilder::new();
    b.field("accounts", JsonValue::Array(items));
    b.field("total", JsonValue::natural(accounts.len() as u64));
    b.field("default_account", JsonValue::opt_string(&d));
    assert(entries_view(b.entries@) =~= seq![
        ("accounts"@, Json::Array(arr)),
        ("total"@, Json::Number(nat_decimal(accounts@.len() as nat))),
        ("default_account"@, match spec_default_account(accounts@) {
            Some(n) => Json::Str(n),
            None => Json::Null,
        }),
    ]);
    b.build()
}

/// What `account login`, `use` and `logout` report, given their data with
/// the context attached: the command, the summary and the next steps.
pub open spec fn spec_account_step(which: nat, name: Seq<char>) -> (Seq<char>, Seq<char>, Seq<(Seq<char>, Seq<char>)>) {
    if which == 0 {
        ("telegram-agent-cli account login"@, "Account "@ + name + " is now authorized."@,
            seq![("inspect_accounts"@, "telegram-agent-cli account list"@), ("inspect_diagnostics"@, "telegram-agent-cli doctor"@)])
    } else if which == 1 {
        ("telegram-agent-cli account use"@, "Default account was set to "@ + name + "."@,
            seq![("inspect_accounts"@, "telegram-agent-cli account list"@), ("inspect_diagnostics"@, "telegram-agent-cli doctor"@)])
    } else {
        ("telegram-agent-cli account logout"@, "Stored session for "@ + name + " was cleared."@,
            seq![("inspect_login_help"@, "telegram-agent-cli account login --help"@), ("inspect_accounts"@, "telegram-agent-cli account list"@)])
    }
}

/// Which account state change a report is for.
#[derive(Debug, Clone, Copy, PartialEq, Eq, Structural)]
pub enum AccountChange {
    Login,
    Use,
    Logout,
}

/// The number of a change, as `spec_account_step` takes it.
pub open spec fn change_index(c: AccountChange) -> nat {
    match c {
        AccountChange::Login => 0,
        AccountChange::Use => 1,
        AccountChange::Logout => 2,
    }
}

/// The data of a state change before its context is attached.
pub open spec fn spec_change_data(c: AccountChange, name: Seq<char>) -> Json {
    match c {
        AccountChange::Login => account_state_json(name, "authorized"@),
        AccountChange::Use => Json::Object(seq![("default_account"@, Json::Str(name))]),
        AccountChange::Logout => account_state_json(name, "logged_out"@),
    }
}

/// The data of a state change before its context is attached.
pub fn change_data(c: AccountChange, name: &str) -> (r: JsonValue)
    ensures
        r@ == spec_change_data(c, name@),
{
    match c {
        AccountChange::Login => account_state(name, "authorized"),
        AccountChange::Use => {
            let mut b = ObjectBuilder::new();
            b.field("default_account", JsonValue::string(name));
            assert(entries_view(b.entries@) =~= seq![("default_account"@, Json::Str(name@))]);
            b.build()
        },
        AccountChange::Logout => account_state(name, "logged_out"),
    }
}

/// What a state change reports, with its data (context attached) as given.
pub fn account_change_result(c: AccountChange, name: &str, data: JsonValue) -> (r: ResultEnvelope)
    ensures
        r.command@ == spec_account_step(change_index(c), name@).0,
        r.summary@ == spec_account_step(change_index(c), name@).1,
        steps_view(r.next_steps@) == spec_account_step(change_index(c), name@).2,
        r.data@ == redact(data@),
        r.status@ == "ok"@,
{
    let (command, summary, steps) = match c {
        AccountChange::Login => (
            "telegram-agent-cli account login",
            concat3("Account ", name, " is now authorized."),
            vec![
                NextStep::new("inspect_accounts", "telegram-agent-cli account list"),
                NextStep::new("inspect_diagnostics", "telegram-agent-cli doctor"),
            ],
        ),
        AccountChange::Use => (
            "telegram-agent-cli account use",
            concat3("Default account was set to ", name, "."),
            vec![
                NextStep::new("inspect_accounts", "telegram-agent-cli account list"),
                NextStep::new("inspect_diagnostics", "telegram-agent-cli doctor"),
            ],
        ),
        AccountChange::Logout => (
            "telegram-agent-cli account logout",
            concat3("Stored session for ", name, " was cleared."),
            vec![
                NextStep::new("inspect_login_help", "telegram-agent-cli account login --help"),
                NextStep::new("inspect_accounts", "telegram-agent-cli account list"),
            ],
        ),
    };
    let r = ResultEnvelope::success(command, summary.as_str(), data, steps);
    assert(steps_view(r.next_steps@) =~= spec_account_step(change_index(c), name@).2);
    r
}

} // verus!
