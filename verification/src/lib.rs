//! Verified core of a Telegram automation command-line tool.
pub mod errors;
pub mod json;
pub mod text;
pub mod telegram;
pub mod output;
pub mod cli;
pub mod commands;
pub mod storage;
pub mod config;
pub mod automation;
