//! The progress cache and the status lines derived from it.
//!
//! A high-frequency poller reads job progress through a snapshot that is
//! refreshed at most every [`REFRESH_INTERVAL_MS`] milliseconds, so that
//! it never holds up the workers.  The snapshot is always a complete,
//! consistent copy of the job list handed in by the caller.

use crate::jobs::{
    clone_jobs, count_failed, count_running, count_succeeded, lemma_counts_partition, statuses,
    DownloadJob,
};
use crate::text::spec_digits;
use vstd::prelude::*;

verus! {

/// How often (at most) the cached snapshot is renewed, in milliseconds.
pub const REFRESH_INTERVAL_MS: u64 = 500;

/// A timestamped snapshot of the job list.
pub struct ProgressCache {
    pub cached_jobs: Vec<DownloadJob>,
    pub last_update_ms: u64,
}

impl ProgressCache {
    /// An empty cache that refreshes on first use.
    pub fn new() -> (c: ProgressCache)
        ensures
            c.cached_jobs@.len() == 0,
            c.last_update_ms == 0,
    {
        ProgressCache { cached_jobs: Vec::new(), last_update_ms: 0 }
    }

    /// Renew the snapshot if the refresh interval has passed; otherwise
    /// leave the cache untouched.  When it renews, the cache becomes an
    /// exact copy of `jobs`.
    pub fn refresh(&mut self, now_ms: u64, jobs: &Vec<DownloadJob>) -> (updated: bool)
        requires
            old(self).last_update_ms <= now_ms,
        ensures
            updated == (now_ms - old(self).last_update_ms >= REFRESH_INTERVAL_MS),
            updated ==> {
                &&& final(self).cached_jobs.deep_view() == jobs.deep_view()
                &&& final(self).last_update_ms == now_ms
            },
            !updated ==> *final(self) == *old(self),
    {
        if now_ms - self.last_update_ms >= REFRESH_INTERVAL_MS {
            self.cached_jobs = clone_jobs(jobs);
            self.last_update_ms = now_ms;
            true
        } else {
            false
        }
    }
}

/// The three progress figures a poller displays: completed successfully
/// (`Success` or `EmbeddedExists`), currently running, and failed.
pub fn progress_counts(jobs: &Vec<DownloadJob>) -> (r: (usize, usize, usize))
    ensures
        r.0 == count_succeeded(statuses(jobs@)),
        r.1 == count_running(statuses(jobs@)),
        r.2 == count_failed(statuses(jobs@)),
{
    let s = crate::jobs::count_succeeded_jobs(jobs);
    let r = crate::jobs::count_running_jobs(jobs);
    let f = crate::jobs::count_failed_jobs(jobs);
    (s, r, f)
}

/// The status line shown for a poll of the job list: a completion
/// summary once the pool has finished, a progress line while jobs run,
/// nothing otherwise.
pub open spec fn spec_status_line(s: Seq<crate::jobs::JobStatusView>, finished: bool) -> Option<
    Seq<char>,
> {
    let succ = count_succeeded(s);
    let run = count_running(s);
    let fail = count_failed(s);
    if finished {
        Some(
            "Subliminal jobs completed: "@ + spec_digits(succ) + " successful, "@ + spec_digits(
                fail,
            ) + " failed"@,
        )
    } else if run > 0 {
        Some(
            "Downloading: "@ + spec_digits(succ) + " completed, "@ + spec_digits(run)
                + " running, "@ + spec_digits((s.len() - succ - run) as nat) + " pending"@,
        )
    } else {
        None
    }
}

/// Derive the user-visible status line from the job list, as the
/// completion poller does.  `finished` says whether the scheduler has
/// reported the pool done.
pub fn download_status_line(jobs: &Vec<DownloadJob>, finished: bool) -> (r: Option<String>)
    ensures
        r matches Some(line) ==> spec_status_line(statuses(jobs@), finished) == Some(line@),
        r is None ==> spec_status_line(statuses(jobs@), finished) is None,
{
    let (succ, run, fail) = progress_counts(jobs);
    proof {
        lemma_counts_partition(statuses(jobs@));
    }
    if finished {
        let line = String::from_str("Subliminal jobs completed: ").concat(
            crate::text::usize_to_string(succ).as_str(),
        ).concat(" successful, ").concat(crate::text::usize_to_string(fail).as_str()).concat(
            " failed",
        );
        Some(line)
    } else if run > 0 {
        let pending = jobs.len() - succ - run;
        let line = String::from_str("Downloading: ").concat(
            crate::text::usize_to_string(succ).as_str(),
        ).concat(" completed, ").concat(crate::text::usize_to_string(run).as_str()).concat(
            " running, ",
        ).concat(crate::text::usize_to_string(pending).as_str()).concat(" pending");
        Some(line)
    } else {
        None
    }
}

} // verus!
