//! Telegram-facing data: peers, messages, keyboards, interactive actions.
pub mod lowercase;
pub mod peers;
pub mod auth;
pub mod list;
pub mod messages;
pub mod updates;
pub mod keyboard;
pub mod actions;
pub mod markup;
pub mod mock;
pub mod trigger;
pub mod grammers;
pub mod login;
