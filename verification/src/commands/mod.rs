//! The decisions behind each command family.
pub mod repl;
pub mod message;
pub mod mcp;
pub mod context;
pub mod bot;
pub mod account;
pub mod daemon;
pub mod doctor;
pub mod peer;
