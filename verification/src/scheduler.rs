//! The admission-control state machine of the worker pool.
//!
//! A [`Scheduler`] owns the job list of one run.  Jobs are admitted in
//! FIFO order while fewer than `limit` of them are running and the
//! cancellation flag is unset; workers report exactly one terminal status
//! back per admitted job; cancellation rewrites every job that is not yet
//! terminal.  The polling loop that spawns threads, sleeps and calls these
//! functions lives outside the crate.

use crate::jobs::{
    cancelled_reason, clone_string_vec, count_running, is_terminal, job_step_ok, statuses,
    lemma_count_running_pos, lemma_count_running_update, lemma_count_running_zero_iff,
    DownloadJob, JobStatus, JobStatusView,
};
use vstd::prelude::*;

verus! {

/// The shared state of one scan-then-fetch cycle.
///
/// `jobs[..next]` have been admitted (they are `Running` or terminal),
/// `jobs[next..]` are still `Pending`; `running` counts the admitted jobs
/// whose worker has not reported back yet.
pub struct Scheduler {
    pub jobs: Vec<DownloadJob>,
    pub next: usize,
    pub running: usize,
    pub limit: usize,
    pub cancelled: bool,
}

impl Scheduler {
    /// Well-formedness: the concurrency limit is valid, at most `limit`
    /// jobs run at once, `running` counts exactly the `Running` jobs, and
    /// statuses are `Pending` from `next` on and non-`Pending` before it.
    pub open spec fn wf(&self) -> bool {
        &&& 1 <= self.limit <= crate::MAX_CONCURRENT_DOWNLOADS
        &&& self.next <= self.jobs@.len()
        &&& self.running == count_running(statuses(self.jobs@))
        &&& self.running <= self.limit
        &&& forall|i: int|
            self.next <= i < self.jobs@.len() ==> statuses(self.jobs@)[i] is Pending
        &&& forall|i: int| 0 <= i < self.next ==> !(statuses(self.jobs@)[i] is Pending)
    }

    /// Set up a fresh run over `targets` with concurrency limit `limit`:
    /// one `Pending` job per target, nothing admitted, nothing cancelled.
    pub fn new(targets: Vec<String>, limit: usize) -> (s: Scheduler)
        requires
            1 <= limit <= crate::MAX_CONCURRENT_DOWNLOADS,
        ensures
            s.wf(),
            s.jobs@.len() == targets@.len(),
            s.next == 0,
            s.running == 0,
            s.limit == limit,
            !s.cancelled,
            forall|i: int|
                0 <= i < targets@.len() ==> {
                    &&& (#[trigger] s.jobs@[i])@.video_path == targets.deep_view()[i]
                    &&& s.jobs@[i]@.status is Pending
                    &&& s.jobs@[i]@.subtitle_paths.len() == 0
                },
    {
        let mut jobs: Vec<DownloadJob> = Vec::new();
        let mut i: usize = 0;
        while i < targets.len()
            invariant
                0 <= i <= targets@.len(),
                jobs@.len() == i,
                count_running(statuses(jobs@)) == 0,
                forall|k: int|
                    0 <= k < i ==> {
                        &&& (#[trigger] jobs@[k])@.video_path == targets.deep_view()[k]
                        &&& jobs@[k]@.status is Pending
                        &&& jobs@[k]@.subtitle_paths.len() == 0
                    },
            decreases targets@.len() - i,
        {
            let ghost before = statuses(jobs@);
            let job = DownloadJob {
                video_path: targets[i].clone(),
                status: JobStatus::Pending,
                subtitle_paths: Vec::new(),
            };
            jobs.push(job);
            proof {
                assert(statuses(jobs@).drop_last() =~= before);
            }
            i += 1;
        }
        Scheduler { jobs, next: 0, running: 0, limit, cancelled: false }
    }

    /// Admit the next pending job if the run is not cancelled, the
    /// concurrency limit leaves room, and a pending job exists.  Returns
    /// the admitted job's index and target; the job becomes `Running`.
    pub fn try_admit(&mut self) -> (r: Option<(usize, String)>)
        requires
            old(self).wf(),
        ensures
            final(self).wf(),
            final(self).limit == old(self).limit,
            final(self).cancelled == old(self).cancelled,
            final(self).jobs@.len() == old(self).jobs@.len(),
            forall|i: int|
                0 <= i < old(self).jobs@.len() ==> job_step_ok(
                    statuses(old(self).jobs@)[i],
                    statuses(final(self).jobs@)[i],
                ),
            match r {
                Some(p) => {
                    &&& !old(self).cancelled
                    &&& old(self).running < old(self).limit
                    &&& old(self).next < old(self).jobs@.len()
                    &&& p.0 == old(self).next
                    &&& p.1@ == old(self).jobs@[p.0 as int]@.video_path
                    &&& final(self).next == old(self).next + 1
                    &&& final(self).running == old(self).running + 1
                    &&& statuses(final(self).jobs@) =~= statuses(old(self).jobs@).update(
                        p.0 as int,
                        JobStatusView::Running,
                    )
                    &&& forall|i: int|
                        0 <= i < old(self).jobs@.len() && i != p.0 ==> (
                        #[trigger] final(self).jobs@[i])@ == old(self).jobs@[i]@
                    &&& final(self).jobs@[p.0 as int]@.status is Running
                    &&& final(self).jobs@[p.0 as int]@.video_path == old(self).jobs@[p.0 as int]@.video_path
                    &&& final(self).jobs@[p.0 as int]@.subtitle_paths == old(self).jobs@[p.0 as int]@.subtitle_paths
                },
                None => {
                    &&& *final(self) == *old(self)
                    &&& (old(self).cancelled || old(self).running >= old(self).limit || old(
                        self,
                    ).next >= old(self).jobs@.len())
                },
            },
    {
        if self.cancelled || self.running >= self.limit || self.next >= self.jobs.len() {
            return None;
        }
        let idx = self.next;
        let path = self.jobs[idx].video_path.clone();
        let admitted = DownloadJob {
            video_path: self.jobs[idx].video_path.clone(),
            status: JobStatus::Running,
            subtitle_paths: clone_string_vec(&self.jobs[idx].subtitle_paths),
        };
        let ghost before = statuses(self.jobs@);
        self.jobs.set(idx, admitted);
        self.next = idx + 1;
        self.running = self.running + 1;
        proof {
            assert(statuses(self.jobs@) =~= before.update(idx as int, JobStatusView::Running));
            lemma_count_running_update(before, idx as int, JobStatusView::Running);
        }
        Some((idx, path))
    }

    /// Record the terminal outcome a worker reports for its job.
    pub fn finish_job(&mut self, idx: usize, status: JobStatus, subtitle_paths: Vec<String>)
        requires
            old(self).wf(),
            idx < old(self).jobs@.len(),
            statuses(old(self).jobs@)[idx as int] is Running,
            is_terminal(status@),
        ensures
            final(self).wf(),
            final(self).limit == old(self).limit,
            final(self).cancelled == old(self).cancelled,
            final(self).next == old(self).next,
            final(self).jobs@.len() == old(self).jobs@.len(),
            final(self).running == old(self).running - 1,
            statuses(final(self).jobs@) =~= statuses(old(self).jobs@).update(
                idx as int,
                status@,
            ),
            final(self).jobs@[idx as int]@.status == status@,
            final(self).jobs@[idx as int]@.video_path == old(self).jobs@[idx as int]@.video_path,
            final(self).jobs@[idx as int]@.subtitle_paths == subtitle_paths.deep_view(),
            forall|i: int|
                0 <= i < old(self).jobs@.len() && i != idx ==> (
                #[trigger] final(self).jobs@[i])@ == old(self).jobs@[i]@,
            forall|i: int|
                0 <= i < old(self).jobs@.len() ==> job_step_ok(
                    statuses(old(self).jobs@)[i],
                    statuses(final(self).jobs@)[i],
                ),
    {
        proof {
            lemma_count_running_pos(statuses(self.jobs@), idx as int);
        }
        let done = DownloadJob {
            video_path: self.jobs[idx].video_path.clone(),
            status,
            subtitle_paths,
        };
        let ghost before = statuses(self.jobs@);
        self.jobs.set(idx, done);
        self.running = self.running - 1;
        proof {
            assert(statuses(self.jobs@) =~= before.update(idx as int, self.jobs@[idx as int]@.status));
            lemma_count_running_update(before, idx as int, self.jobs@[idx as int]@.status);
        }
    }

    /// Raise the cancellation flag.  Jobs are not touched here; the
    /// sweep rewrites them.
    pub fn cancel(&mut self)
        requires
            old(self).wf(),
        ensures
            final(self).wf(),
            final(self).cancelled,
            final(self).jobs == old(self).jobs,
            final(self).next == old(self).next,
            final(self).running == old(self).running,
            final(self).limit == old(self).limit,
    {
        self.cancelled = true;
    }

    /// Rewrite every job that is not yet terminal to
    /// `Failed("Cancelled")` and stop admitting: after the sweep nothing
    /// is `Pending` or `Running` any more.
    pub fn cancel_sweep(&mut self)
        requires
            old(self).wf(),
        ensures
            final(self).wf(),
            final(self).limit == old(self).limit,
            final(self).cancelled == old(self).cancelled,
            final(self).jobs@.len() == old(self).jobs@.len(),
            final(self).next == final(self).jobs@.len(),
            final(self).running == 0,
            forall|i: int|
                0 <= i < old(self).jobs@.len() && is_terminal(statuses(old(self).jobs@)[i])
                    ==> (#[trigger] final(self).jobs@[i])@ == old(self).jobs@[i]@,
            forall|i: int|
                0 <= i < old(self).jobs@.len() && !is_terminal(statuses(old(self).jobs@)[i])
                    ==> {
                    &&& (#[trigger] final(self).jobs@[i])@.status == JobStatusView::Failed(
                        cancelled_reason(),
                    )
                    &&& final(self).jobs@[i]@.video_path == old(self).jobs@[i]@.video_path
                    &&& final(self).jobs@[i]@.subtitle_paths == old(self).jobs@[i]@.subtitle_paths
                },
            forall|i: int|
                0 <= i < old(self).jobs@.len() ==> job_step_ok(
                    statuses(old(self).jobs@)[i],
                    statuses(final(self).jobs@)[i],
                ),
    {
        let mut i: usize = 0;
        let total = self.jobs.len();
        while i < total
            invariant
                0 <= i <= total,
                total == self.jobs@.len(),
                total == old(self).jobs@.len(),
                self.limit == old(self).limit,
                self.cancelled == old(self).cancelled,
                self.next == old(self).next,
                self.running == old(self).running,
                forall|k: int|
                    i <= k < total ==> (#[trigger] self.jobs@[k])@ == old(self).jobs@[k]@,
                forall|k: int|
                    0 <= k < i && is_terminal(statuses(old(self).jobs@)[k]) ==> (
                    #[trigger] self.jobs@[k])@ == old(self).jobs@[k]@,
                forall|k: int|
                    0 <= k < i && !is_terminal(statuses(old(self).jobs@)[k]) ==> {
                        &&& (#[trigger] self.jobs@[k])@.status == JobStatusView::Failed(
                            cancelled_reason(),
                        )
                        &&& self.jobs@[k]@.video_path == old(self).jobs@[k]@.video_path
                        &&& self.jobs@[k]@.subtitle_paths == old(self).jobs@[k]@.subtitle_paths
                    },
            decreases total - i,
        {
            let is_open = matches!(&self.jobs[i].status, JobStatus::Pending | JobStatus::Running);
            if is_open {
                let swept = DownloadJob {
                    video_path: self.jobs[i].video_path.clone(),
                    status: JobStatus::Failed(String::from_str("Cancelled")),
                    subtitle_paths: clone_string_vec(&self.jobs[i].subtitle_paths),
                };
                self.jobs.set(i, swept);
            }
            i += 1;
        }
        self.next = total;
        self.running = 0;
        proof {
            lemma_count_running_zero_iff(statuses(self.jobs@));
        }
    }

    /// The run is finished: everything admitted, every worker reported.
    pub fn is_finished(&self) -> (r: bool)
        ensures
            r == (self.next == self.jobs@.len() && self.running == 0),
    {
        self.next == self.jobs.len() && self.running == 0
    }

    /// How many jobs the run drives in total.
    pub fn total(&self) -> (n: usize)
        ensures
            n == self.jobs@.len(),
    {
        self.jobs.len()
    }

    /// A consistent copy of the job list, taken in one piece.
    pub fn snapshot(&self) -> (r: Vec<DownloadJob>)
        ensures
            r.deep_view() == self.jobs.deep_view(),
    {
        let mut r: Vec<DownloadJob> = Vec::new();
        let mut i: usize = 0;
        while i < self.jobs.len()
            invariant
                0 <= i <= self.jobs@.len(),
                r.deep_view() =~= self.jobs.deep_view().subrange(0, i as int),
            decreases self.jobs@.len() - i,
        {
            let ghost prev = r.deep_view();
            let c = self.jobs[i].clone();
            r.push(c);
            proof {
                assert(r.deep_view() =~= prev.push(self.jobs@[i as int]@));
            }
            i += 1;
        }
        proof {
            assert(r.deep_view() =~= self.jobs.deep_view());
        }
        r
    }

    /// At any instant a well-formed scheduler has at most `limit` jobs in
    /// `Running` state.
    pub proof fn lemma_running_bounded(&self)
        requires
            self.wf(),
        ensures
            count_running(statuses(self.jobs@)) <= self.limit,
    {
    }

    /// Once the scheduler reports finished, every job has reached a
    /// terminal status: none is left `Pending` or `Running`.
    pub proof fn lemma_finished_all_terminal(&self)
        requires
            self.wf(),
            self.next == self.jobs@.len(),
            self.running == 0,
        ensures
            forall|i: int| 0 <= i < self.jobs@.len() ==> is_terminal(statuses(self.jobs@)[i]),
    {
        lemma_count_running_zero_iff(statuses(self.jobs@));
        assert forall|i: int| 0 <= i < self.jobs@.len() implies is_terminal(
            statuses(self.jobs@)[i],
        ) by {
            assert(!(statuses(self.jobs@)[i] is Pending));
            assert(!(statuses(self.jobs@)[i] is Running));
        }
    }
}

} // verus!
