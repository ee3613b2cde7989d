//! Login requests.
use vstd::prelude::*;

verus! {

/// How an account's session is obtained.
#[derive(Debug, Clone, Copy, PartialEq, Eq, Structural)]
pub enum AuthMode {
    SessionImport,
    Interactive,
}

/// What a login asks the Telegram service for.
#[derive(Debug, Clone, PartialEq, Eq)]
pub enum LoginRequest {
    Bot,
    User(UserLoginRequest),
    UserQr,
}

/// The secrets a user login may need.
#[derive(Debug, Clone, PartialEq, Eq, Default)]
pub struct UserLoginRequest {
    pub code: Option<String>,
    pub password: Option<String>,
}

} // verus!
