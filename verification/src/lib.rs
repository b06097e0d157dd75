//! Concurrent command-set supervision, verified.
//!
//! The crate models the decision logic of a process supervisor that runs a
//! batch of shell commands side by side: labeling their output lines,
//! enforcing per-command timeouts, resolving the race between a watchdog,
//! a cancellation request and natural exit, and folding the individual exit
//! codes into one aggregate status. Process spawning, threads and terminal
//! I/O live outside the library and drive these verified functions.

pub mod cancel;
pub mod cli;
pub mod config;
pub mod monitor;
pub mod mux;
pub mod supervisor;
pub mod text;
pub mod view;
