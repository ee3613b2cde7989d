//! Scripted scenarios: their steps, and the decisions of running them.
pub mod spec;
pub mod filters;
pub mod runner;
