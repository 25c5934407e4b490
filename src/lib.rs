//! Verified core of a small HTTP bridge to the `restic` backup tool.
//!
//! The library decides what each operation runs, how the tool's output is
//! classified, and which HTTP reply results. Reading the configuration file,
//! writing the credential file, running the tool and serving HTTP happen in
//! the application around it.

pub mod classify;
pub mod config;
pub mod handlers;
pub mod invocation;
