//! Background build-and-compare jobs for an object diffing workflow.
//!
//! The crate holds the decisions of the workflow: the job registry, the
//! staged build pipeline, the change detector's filter and the rebuild
//! scheduler. Threads, subprocesses, file access and rendering are left to
//! the program that embeds it, which feeds results back in as plain values.

pub mod app;
pub mod cmd;
pub mod jobs;
pub mod paths;
pub mod text;
pub mod watch;
