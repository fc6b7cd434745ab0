//! Supervision library for an OCI container monitor: runtime argument
//! construction, the sync-pipe protocol, the stdio multiplexer's decisions,
//! log-plugin resolution and attach-socket path rules.
pub mod text;
pub mod error;
pub mod unix_socket;
pub mod stdio;
pub mod cli;
pub mod args;
pub mod commands;
pub mod number;
pub mod parent_pipe;
pub mod log_plugin;
pub mod process;
pub mod session;
pub mod logging;
