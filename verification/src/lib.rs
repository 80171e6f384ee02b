//! A verified ReAct-style control loop for autonomous task execution.
//!
//! The library alternates between a reasoning step and an enacted decision,
//! bounded by an iteration cap and a token budget. Reasoning, tool execution,
//! artifact storage, session persistence, context compression and sub-task
//! delegation are pluggable capabilities supplied by the caller.

pub mod caps;
pub mod context;
pub mod decode;
pub mod delegation;
pub mod error;
pub mod react;
pub mod shim;
pub mod text;
pub mod types;

pub use react::{ReActAction, ReActConfig, ReActController};
