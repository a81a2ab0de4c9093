//! Helpers for self-rebuilding single-file programs: a staleness check on
//! modification times, the decisions of the rename / recompile / relaunch
//! protocol, and POSIX shell quoting for tracing the commands that run.

pub mod quoting;
pub mod rebuild;
pub mod shell;
pub mod staleness;
