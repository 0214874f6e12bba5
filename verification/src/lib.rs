//! Ownership and termination of the processes behind stdio MCP servers.
//!
//! The library holds the decisions: when a process group is signalled, polled
//! and killed, how concurrent cleanup requests share one attempt, what becomes
//! of a process whose last owner is dropped, and how a supervisor reacts to the
//! loss of its parent. Each decision is a function from a state and an
//! observation to the next state and the next action; the embedding program
//! performs the action and reports what it observed.

pub mod cleanup;
pub mod cleanup_laws;
pub mod completion;
pub mod error;
pub mod executor;
pub mod exit_wait;
pub mod handle;
pub mod local;
pub mod supervisor;
pub mod supervisor_exe;
pub mod supervisor_laws;
pub mod termination_laws;
pub mod text;
