//! The logic of a session manager for Codex rollouts.
//!
//! Rollout files, runtime configurations and terminals stay outside: callers
//! hand in plain values and carry out the actions that come back.

pub mod cli;
pub mod cli_graph;
pub mod cli_parse;
pub mod commands;
pub mod distill;
pub mod distill_flow;
pub mod lines;
pub mod migrate;
pub mod numbers;
pub mod operations;
pub mod order;
pub mod paths;
pub mod picker;
pub mod preview;
pub mod profile_cleanup;
pub mod progress;
pub mod replay;
pub mod rollout;
pub mod rollout_edit;
pub mod runtime;
pub mod search;
pub mod smart;
pub mod smart_flow;
pub mod summary;
pub mod text;
pub mod tui;
pub mod types;
