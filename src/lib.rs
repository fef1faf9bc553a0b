//! Pane selection, filtering and command orchestration for a terminal
//! multiplexer extension.
//!
//! Every item here is plain data and logic: the host runtime, process launch
//! and remote fetching are performed by the caller, which hands the results
//! back as plain values.

pub mod config;
pub mod text;
pub mod filter;
pub mod state;
pub mod context;
pub mod input;
pub mod analyzer;
pub mod plugin;
pub mod ui;
pub mod screen;
