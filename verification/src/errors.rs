//! The error type of the library.
use vstd::prelude::*;
use crate::text::owned;

verus! {

/// Everything that can go wrong in the library; `Io` and `Database` carry the
/// message of the operating-system or storage failure that the caller met.
#[derive(Debug, Clone, PartialEq, Eq)]
pub enum TelegramCliError {
    Message(String),
    CliUsage { command_path: String, help_command: String, message: String, rendered: String },
    Io(String),
    Database(String),
}

/// `Result` with the library's error.
pub type Result<T> = core::result::Result<T, TelegramCliError>;

/// The machine-readable code of an error.
pub open spec fn spec_error_code(e: TelegramCliError) -> Seq<char> {
    match e {
        TelegramCliError::Message(_) => "message_error"@,
        TelegramCliError::CliUsage { .. } => "cli_usage_error"@,
        TelegramCliError::Io(_) => "io_error"@,
        TelegramCliError::Database(_) => "database_error"@,
    }
}

/// The human-readable text of an error.
pub open spec fn spec_error_text(e: TelegramCliError) -> Seq<char> {
    match e {
        TelegramCliError::Message(m) => m@,
        TelegramCliError::CliUsage { message, .. } => message@,
        TelegramCliError::Io(m) => m@,
        TelegramCliError::Database(m) => m@,
    }
}

/// A `Message` error whose text is `m`.
pub open spec fn is_message_error(e: TelegramCliError, m: Seq<char>) -> bool {
    e is Message && e->Message_0@ == m
}

impl TelegramCliError {
    /// A `Message` error carrying a copy of `text`.
    pub fn message(text: &str) -> (r: TelegramCliError)
        ensures
            is_message_error(r, text@),
    {
        TelegramCliError::Message(owned(text))
    }

    /// The machine-readable code of the error.
    pub fn code(&self) -> (r: &'static str)
        ensures
            r@ == spec_error_code(*self),
    {
        match self {
            TelegramCliError::Message(_) => "message_error",
            TelegramCliError::CliUsage { .. } => "cli_usage_error",
            TelegramCliError::Io(_) => "io_error",
            TelegramCliError::Database(_) => "database_error",
        }
    }

    /// The pre-rendered usage text of a usage error.
    pub fn rendered(&self) -> (r: Option<&str>)
        ensures
            match *self {
                TelegramCliError::CliUsage { rendered, .. } => r is Some && r->0@ == rendered@,
                _ => r is None,
            },
    {
        match self {
            TelegramCliError::CliUsage { rendered, .. } => Some(rendered.as_str()),
            _ => None,
        }
    }

    /// The command path a usage error refers to.
    pub fn command_path(&self) -> (r: Option<&str>)
        ensures
            match *self {
                TelegramCliError::CliUsage { command_path, .. } => r is Some && r->0@
                    == command_path@,
                _ => r is None,
            },
    {
        match self {
            TelegramCliError::CliUsage { command_path, .. } => Some(command_path.as_str()),
            _ => None,
        }
    }

    /// The help command suggested by a usage error.
    pub fn help_command(&self) -> (r: Option<&str>)
        ensures
            match *self {
                TelegramCliError::CliUsage { help_command, .. } => r is Some && r->0@
                    == help_command@,
                _ => r is None,
            },
    {
        match self {
            TelegramCliError::CliUsage { help_command, .. } => Some(help_command.as_str()),
            _ => None,
        }
    }

    /// The human-readable text of the error, as its `Display` form.
    pub fn to_string(&self) -> (r: String)
        ensures
            r@ == spec_error_text(*self),
    {
        match self {
            TelegramCliError::Message(m) => owned(m.as_str()),
            TelegramCliError::CliUsage { message, .. } => owned(message.as_str()),
            TelegramCliError::Io(m) => owned(m.as_str()),
            TelegramCliError::Database(m) => owned(m.as_str()),
        }
    }
}

} // verus!
