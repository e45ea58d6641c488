//! Symphony: a verified library for running coding agents on tracked tasks.
pub mod actions;
pub mod cli;
pub mod clock;
pub mod codex;
pub mod dashboard;
pub mod display;
pub mod dynamic_tool;
pub mod github;
pub mod http;
pub mod humanize;
pub mod issue;
pub mod json;
pub mod laws;
pub mod logging;
pub mod observability;
pub mod orchestrator;
pub mod pattern;
pub mod prompt;
pub mod snapshot;
pub mod sorting;
pub mod table;
pub mod terminal;
pub mod text;
pub mod throughput;
pub mod todoist_flow;
pub mod tracker;
pub mod usage;
pub mod worker;
pub mod worker_flow;
pub mod workpad;
pub mod workpad_flow;
