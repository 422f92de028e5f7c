//! Core logic of a subtitle-fetching job runner.
//!
//! The crate models the pieces of the application that make decisions:
//! the job scheduler that drives fetch jobs under a concurrency limit,
//! the classification of the external tool's output into a terminal job
//! status, the installation monitor's state machine, and the pure text
//! helpers around them.  All I/O (spawning the external tool, walking
//! folders, timers and channels) lives outside this crate and feeds the
//! functions here with plain values.

pub mod classify;
pub mod commands;
pub mod helper_functions;
pub mod jobs;
pub mod logging;
pub mod monitor;
pub mod progress;
pub mod scheduler;
pub mod settings;
pub mod subtitle_utils;
pub mod text;
pub mod version;

use vstd::prelude::*;

verus! {

/// The application version this crate belongs to.
pub const APP_VERSION: &'static str = "2.1.0";

/// Largest number of concurrently running fetch jobs a caller may request.
pub const MAX_CONCURRENT_DOWNLOADS: usize = 100;

/// Default number of concurrently running fetch jobs.
pub const DEFAULT_CONCURRENT_DOWNLOADS: usize = 25;

} // verus!
