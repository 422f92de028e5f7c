//! The persisted user preferences record.
//!
//! Loading and saving the record happens outside the crate; here live
//! the record itself and its defaults.

use vstd::prelude::*;

verus! {

/// User preferences that persist between sessions.
pub struct Settings {
    pub selected_languages: Vec<String>,
    pub force_download: bool,
    pub overwrite_existing: bool,
    pub concurrent_downloads: usize,
    pub ignore_local_extras: bool,
}

impl Default for Settings {
    /// No languages selected, no forcing or overwriting, the default
    /// concurrency limit, extras folders included.
    fn default() -> (r: Settings)
        ensures
            r.selected_languages@.len() == 0,
            !r.force_download,
            !r.overwrite_existing,
            r.concurrent_downloads == crate::DEFAULT_CONCURRENT_DOWNLOADS,
            !r.ignore_local_extras,
    {
        Settings {
            selected_languages: Vec::new(),
            force_download: false,
            overwrite_existing: false,
            concurrent_downloads: crate::DEFAULT_CONCURRENT_DOWNLOADS,
            ignore_local_extras: false,
        }
    }
}

} // verus!
