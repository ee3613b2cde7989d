//! The environment variables the tool reads.
use vstd::prelude::*;

verus! {

/// Overrides the configuration directory.
pub const ENV_CONFIG_DIR: &'static str = "TELEGRAM_CLI_CONFIG_DIR";
/// Overrides the data directory.
pub const ENV_DATA_DIR: &'static str = "TELEGRAM_CLI_DATA_DIR";
/// Overrides the state directory.
pub const ENV_STATE_DIR: &'static str = "TELEGRAM_CLI_STATE_DIR";
/// Overrides the cache directory.
pub const ENV_CACHE_DIR: &'static str = "TELEGRAM_CLI_CACHE_DIR";
/// The Telegram API id used when an account stores none.
pub const ENV_API_ID: &'static str = "TELEGRAM_CLI_API_ID";
/// The Telegram API hash used when an account stores none.
pub const ENV_API_HASH: &'static str = "TELEGRAM_CLI_API_HASH";
/// The master key material, used in place of the key file.
pub const ENV_MASTER_KEY: &'static str = "TELEGRAM_CLI_MASTER_KEY";

} // verus!
