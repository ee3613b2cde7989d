//! What commands print: the output contract, formats and renderers.
pub mod contract;
pub mod format;
pub mod guidance;
pub mod render;
pub mod stream;
pub mod help_json;
