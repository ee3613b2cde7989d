//! Runtime configuration: environment variable names and directory layout.
pub mod settings;
pub mod paths;
