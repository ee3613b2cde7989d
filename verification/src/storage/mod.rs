//! Stored accounts and the encryption of their secrets.
pub mod models;
pub mod crypto;
