//! The decisions of signing an account in: which stored credential a login
//! uses, what 2FA needs, and how a QR login is presented and polled.
use vstd::prelude::*;
use crate::errors::{Result, TelegramCliError, is_message_error};
use crate::json::i64_decimal;
use crate::storage::models::AccountProfile;
use crate::telegram::actions::{base64url_encode, spec_base64url_encode};
use crate::telegram::auth::{LoginRequest, UserLoginRequest};
use crate::text::{concat2, concat3, int_decimal, owned};

verus! {

/// What a login signs in with.
#[derive(Debug, Clone, PartialEq, Eq)]
pub enum LoginCredential {
    /// A bot signs in with its stored token.
    BotToken(String),
    /// A user signs in with a code sent to the stored phone number.
    Phone(String),
    /// A user signs in by scanning a QR code.
    Qr,
}

/// The message for a bot account without a stored token.
pub open spec fn missing_token_message(account: Seq<char>) -> Seq<char> {
    "bot account "@ + account + " is missing a stored token"@
}

/// The message for a user account without a stored phone number.
pub open spec fn missing_phone_message(account: Seq<char>) -> Seq<char> {
    "user account "@ + account + " is missing a stored phone number"@
}

/// What a login request signs in with, from the stored profile; an error
/// when the profile lacks it.
pub fn login_credential(account_name: &str, profile: &AccountProfile, request: &LoginRequest) -> (r: Result<LoginCredential>)
    ensures
        match request {
            LoginRequest::Bot => match profile.bot_token {
                Some(t) => r matches Ok(LoginCredential::BotToken(x)) && x@ == t@,
                None => r is Err && is_message_error(r->Err_0, missing_token_message(account_name@)),
            },
            LoginRequest::User(_) => match profile.phone {
                Some(p) => r matches Ok(LoginCredential::Phone(x)) && x@ == p@,
                None => r is Err && is_message_error(r->Err_0, missing_phone_message(account_name@)),
            },
            LoginRequest::UserQr => r matches Ok(LoginCredential::Qr),
        },
{
    match request {
        LoginRequest::Bot => match &profile.bot_token {
            Some(t) => Ok(LoginCredential::BotToken(owned(t.as_str()))),
            None => Err(TelegramCliError::Message(concat3("bot account ", account_name, " is missing a stored token"))),
        },
        LoginRequest::User(_) => match &profile.phone {
            Some(p) => Ok(LoginCredential::Phone(owned(p.as_str()))),
            None => Err(TelegramCliError::Message(concat3("user account ", account_name, " is missing a stored phone number"))),
        },
        LoginRequest::UserQr => Ok(LoginCredential::Qr),
    }
}

/// The 2FA password of a user login, asked for when Telegram requires one.
pub fn two_factor_password(request: &UserLoginRequest) -> (r: Result<String>)
    ensures
        match request.password {
            Some(p) => r is Ok && r->Ok_0@ == p@,
            None => r is Err && is_message_error(r->Err_0, "this account requires 2FA; pass --password or --password-env"@),
        },
{
    match &request.password {
        Some(p) => Ok(owned(p.as_str())),
        None => Err(TelegramCliError::Message(owned("this account requires 2FA; pass --password or --password-env"))),
    }
}

/// The link a QR code shows: the login token in URL-safe base64.
pub fn qr_login_url(token: &[u8]) -> (r: String)
    ensures
        r@ == "tg://login?token="@ + spec_base64url_encode(token@),
{
    concat2("tg://login?token=", base64url_encode(token).as_str())
}

/// The summary shown with a fresh QR code.
pub fn qr_ready_summary(expires_in_secs: i64) -> (r: String)
    ensures
        r@ == "QR login is ready. Scan the terminal QR code with the Telegram app on your phone. The current code expires in about "@
            + int_decimal(expires_in_secs as int) + " seconds."@,
{
    concat3(
        "QR login is ready. Scan the terminal QR code with the Telegram app on your phone. The current code expires in about ",
        i64_decimal(expires_in_secs).as_str(),
        " seconds.",
    )
}

/// The next steps shown with a fresh QR code.
pub fn qr_ready_steps() -> (r: Vec<&'static str>)
    ensures
        r@.len() == 2,
        r@[0]@ == "Keep this terminal open while Telegram scans and confirms the session."@,
        r@[1]@ == "If the QR code expires, run telegram-agent-cli account login <name> --qr again."@,
{
    vec![
        "Keep this terminal open while Telegram scans and confirms the session.",
        "If the QR code expires, run telegram-agent-cli account login <name> --qr again.",
    ]
}

/// The next steps shown once a QR login is confirmed.
pub fn qr_confirmed_steps() -> (r: Vec<&'static str>)
    ensures
        r@.len() == 2,
        r@[0]@ == "Run telegram-agent-cli account list to confirm login state."@,
        r@[1]@ == "Run telegram-agent-cli doctor to inspect current diagnostics."@,
{
    vec![
        "Run telegram-agent-cli account list to confirm login state.",
        "Run telegram-agent-cli doctor to inspect current diagnostics.",
    ]
}

/// What a QR token poll returned.
#[derive(Debug, Clone, Copy, PartialEq, Eq, Structural)]
pub enum QrPoll {
    /// The code is still waiting to be scanned.
    Pending,
    /// The session was confirmed.
    Confirmed,
}

/// What a QR login does next.
#[derive(Debug, Clone, Copy, PartialEq, Eq, Structural)]
pub enum QrNext {
    /// Wait a second and poll again.
    PollAgain,
    /// The login is done.
    Done,
    /// The code expired.
    Expired,
}

/// The message for an expired QR code.
pub open spec fn qr_expired_message() -> Seq<char> {
    "QR code expired; run `telegram-agent-cli account login --qr` again"@
}

/// What a QR login does after a one-second wait: give up once the code's
/// expiry has passed (checked before polling), else follow the poll.
pub fn qr_next(now_unix: i64, expires_at_unix: i64, poll: Option<QrPoll>) -> (r: QrNext)
    ensures
        now_unix >= expires_at_unix ==> r == QrNext::Expired,
        now_unix < expires_at_unix ==> r == match poll {
            Some(QrPoll::Confirmed) => QrNext::Done,
            _ => QrNext::PollAgain,
        },
{
    if now_unix >= expires_at_unix {
        QrNext::Expired
    } else {
        match poll {
            Some(QrPoll::Confirmed) => QrNext::Done,
            _ => QrNext::PollAgain,
        }
    }
}

/// The error of an expired QR login.
pub fn qr_expired_error() -> (r: TelegramCliError)
    ensures
        is_message_error(r, qr_expired_message()),
{
    TelegramCliError::Message(owned("QR code expired; run `telegram-agent-cli account login --qr` again"))
}

/// The error of a QR login that kept being sent to other data centres.
pub fn qr_migration_error() -> (r: TelegramCliError)
    ensures
        is_message_error(r, "QR login hit repeated DC migrations; retry the login command"@),
{
    TelegramCliError::Message(owned("QR login hit repeated DC migrations; retry the login command"))
}

/// How many data-centre migrations a QR login follows before giving up.
pub fn qr_max_migrations() -> (r: usize)
    ensures
        r == 4,
{
    4
}

} // verus!
