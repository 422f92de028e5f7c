//! Jobs and their statuses.
//!
//! A [`DownloadJob`] tracks one target file through the fetch pipeline.
//! Its status moves along `Pending -> Running -> {Success, EmbeddedExists,
//! Failed}` and never leaves a terminal state, except for the uniform
//! cancellation rewrite applied when a run is cancelled.

use vstd::prelude::*;

verus! {

/// Status of a subtitle fetch job.
pub enum JobStatus {
    Pending,
    Running,
    Success,
    /// The target already carries an embedded subtitle; the payload is the
    /// human-readable explanation.
    EmbeddedExists(String),
    /// The job ended without subtitles; the payload is the reason.
    Failed(String),
}

/// Mathematical model of a [`JobStatus`].
pub enum JobStatusView {
    Pending,
    Running,
    Success,
    EmbeddedExists(Seq<char>),
    Failed(Seq<char>),
}

impl View for JobStatus {
    type V = JobStatusView;

    open spec fn view(&self) -> JobStatusView {
        match self {
            JobStatus::Pending => JobStatusView::Pending,
            JobStatus::Running => JobStatusView::Running,
            JobStatus::Success => JobStatusView::Success,
            JobStatus::EmbeddedExists(m) => JobStatusView::EmbeddedExists(m@),
            JobStatus::Failed(m) => JobStatusView::Failed(m@),
        }
    }
}

impl DeepView for JobStatus {
    type V = JobStatusView;

    open spec fn deep_view(&self) -> JobStatusView {
        self.view()
    }
}

impl Clone for JobStatus {
    fn clone(&self) -> (r: Self)
        ensures
            r@ == self@,
    {
        match self {
            JobStatus::Pending => JobStatus::Pending,
            JobStatus::Running => JobStatus::Running,
            JobStatus::Success => JobStatus::Success,
            JobStatus::EmbeddedExists(m) => JobStatus::EmbeddedExists(m.clone()),
            JobStatus::Failed(m) => JobStatus::Failed(m.clone()),
        }
    }
}

/// A status from which a job never moves again (within a run).
pub open spec fn is_terminal(s: JobStatusView) -> bool {
    s is Success || s is EmbeddedExists || s is Failed
}

/// The reason recorded when a job is rewritten at cancellation time.
pub open spec fn cancelled_reason() -> Seq<char> {
    "Cancelled"@
}

/// The legal single-step evolutions of a job status: stay put, be admitted
/// (`Pending -> Running`), finish (`Running ->` terminal), or be rewritten
/// by the cancellation sweep (non-terminal `-> Failed("Cancelled")`).
pub open spec fn job_step_ok(before: JobStatusView, after: JobStatusView) -> bool {
    ||| before == after
    ||| (before is Pending && after is Running)
    ||| (before is Running && is_terminal(after))
    ||| (!is_terminal(before) && after == JobStatusView::Failed(cancelled_reason()))
}

/// One unit of work: a target file, its status, and the subtitle files
/// discovered for it.
pub struct DownloadJob {
    pub video_path: String,
    pub status: JobStatus,
    pub subtitle_paths: Vec<String>,
}

/// Mathematical model of a [`DownloadJob`].
pub struct JobView {
    pub video_path: Seq<char>,
    pub status: JobStatusView,
    pub subtitle_paths: Seq<Seq<char>>,
}

impl View for DownloadJob {
    type V = JobView;

    open spec fn view(&self) -> JobView {
        JobView {
            video_path: self.video_path@,
            status: self.status@,
            subtitle_paths: self.subtitle_paths.deep_view(),
        }
    }
}

impl DeepView for DownloadJob {
    type V = JobView;

    open spec fn deep_view(&self) -> JobView {
        self.view()
    }
}

impl Clone for DownloadJob {
    fn clone(&self) -> (r: Self)
        ensures
            r@ == self@,
    {
        let r = DownloadJob {
            video_path: self.video_path.clone(),
            status: self.status.clone(),
            subtitle_paths: clone_string_vec(&self.subtitle_paths),
        };
        proof {
            assert(r@ == self@);
        }
        r
    }
}

/// An element-wise copy of a vector of strings.
pub fn clone_string_vec(v: &Vec<String>) -> (r: Vec<String>)
    ensures
        r.deep_view() == v.deep_view(),
{
    let mut r: Vec<String> = Vec::new();
    let mut i: usize = 0;
    while i < v.len()
        invariant
            0 <= i <= v.len(),
            r.deep_view() =~= v.deep_view().subrange(0, i as int),
        decreases v.len() - i,
    {
        let ghost prev = r.deep_view();
        let c = v[i].clone();
        proof {
            assert(c@ == v@[i as int]@);
        }
        r.push(c);
        proof {
            assert(r.deep_view() =~= prev.push(v@[i as int]@));
        }
        i += 1;
    }
    proof {
        assert(r.deep_view() =~= v.deep_view());
    }
    r
}

/// An element-wise copy of a job list.
pub fn clone_jobs(v: &Vec<DownloadJob>) -> (r: Vec<DownloadJob>)
    ensures
        r.deep_view() == v.deep_view(),
{
    let mut r: Vec<DownloadJob> = Vec::new();
    let mut i: usize = 0;
    while i < v.len()
        invariant
            0 <= i <= v.len(),
            r.deep_view() =~= v.deep_view().subrange(0, i as int),
        decreases v.len() - i,
    {
        let ghost prev = r.deep_view();
        let c = v[i].clone();
        r.push(c);
        proof {
            assert(r.deep_view() =~= prev.push(v@[i as int]@));
        }
        i += 1;
    }
    proof {
        assert(r.deep_view() =~= v.deep_view());
    }
    r
}

/// The sequence of statuses of a sequence of jobs.
pub open spec fn statuses(jobs: Seq<DownloadJob>) -> Seq<JobStatusView> {
    jobs.map_values(|j: DownloadJob| j@.status)
}

/// How many statuses are `Running`.
pub open spec fn count_running(s: Seq<JobStatusView>) -> nat
    decreases s.len(),
{
    if s.len() == 0 {
        0
    } else {
        count_running(s.drop_last()) + if s.last() is Running {
            1nat
        } else {
            0nat
        }
    }
}

/// How many statuses count as completed successfully
/// (`Success` or `EmbeddedExists`).
pub open spec fn count_succeeded(s: Seq<JobStatusView>) -> nat
    decreases s.len(),
{
    if s.len() == 0 {
        0
    } else {
        count_succeeded(s.drop_last()) + if s.last() is Success || s.last() is EmbeddedExists {
            1nat
        } else {
            0nat
        }
    }
}

/// How many statuses are `Failed`.
pub open spec fn count_failed(s: Seq<JobStatusView>) -> nat
    decreases s.len(),
{
    if s.len() == 0 {
        0
    } else {
        count_failed(s.drop_last()) + if s.last() is Failed {
            1nat
        } else {
            0nat
        }
    }
}

/// Updating one status changes the `Running` count by exactly the
/// contribution of the old and new value at that position.
pub proof fn lemma_count_running_update(s: Seq<JobStatusView>, i: int, v: JobStatusView)
    requires
        0 <= i < s.len(),
    ensures
        count_running(s.update(i, v)) == count_running(s) - (if s[i] is Running {
            1int
        } else {
            0int
        }) + (if v is Running {
            1int
        } else {
            0int
        }),
    decreases s.len(),
{
    let t = s.update(i, v);
    if i == s.len() - 1 {
        assert(t.drop_last() =~= s.drop_last());
    } else {
        assert(t.drop_last() =~= s.drop_last().update(i, v));
        lemma_count_running_update(s.drop_last(), i, v);
    }
}

/// A sequence with a `Running` element has a positive `Running` count.
pub proof fn lemma_count_running_pos(s: Seq<JobStatusView>, i: int)
    requires
        0 <= i < s.len(),
        s[i] is Running,
    ensures
        count_running(s) >= 1,
    decreases s.len(),
{
    if i == s.len() - 1 {
    } else {
        lemma_count_running_pos(s.drop_last(), i);
    }
}

/// The `Running` count is zero exactly when no element is `Running`.
pub proof fn lemma_count_running_zero_iff(s: Seq<JobStatusView>)
    ensures
        (count_running(s) == 0) <==> (forall|i: int| 0 <= i < s.len() ==> !(s[i] is Running)),
    decreases s.len(),
{
    if s.len() > 0 {
        lemma_count_running_zero_iff(s.drop_last());
        assert(forall|i: int| 0 <= i < s.len() - 1 ==> s.drop_last()[i] == s[i]);
    }
}

/// Every status falls in at most one of the three counted classes, so
/// the counts together never exceed the length.
pub proof fn lemma_counts_partition(s: Seq<JobStatusView>)
    ensures
        count_succeeded(s) + count_running(s) + count_failed(s) <= s.len(),
    decreases s.len(),
{
    if s.len() > 0 {
        lemma_counts_partition(s.drop_last());
    }
}

/// Count the `Running` jobs of a job list.
pub fn count_running_jobs(jobs: &Vec<DownloadJob>) -> (n: usize)
    ensures
        n == count_running(statuses(jobs@)),
{
    let ghost all = statuses(jobs@);
    let mut n: usize = 0;
    let mut i: usize = 0;
    while i < jobs.len()
        invariant
            0 <= i <= jobs@.len(),
            all == statuses(jobs@),
            n == count_running(all.subrange(0, i as int)),
            n <= i,
        decreases jobs@.len() - i,
    {
        proof {
            assert(all.subrange(0, i + 1).drop_last() =~= all.subrange(0, i as int));
            assert(all.subrange(0, i + 1).last() == jobs@[i as int]@.status);
        }
        if matches!(&jobs[i].status, JobStatus::Running) {
            n += 1;
        }
        i += 1;
    }
    proof {
        assert(all.subrange(0, jobs@.len() as int) =~= all);
    }
    n
}

/// Count the successfully completed jobs (`Success` or `EmbeddedExists`).
pub fn count_succeeded_jobs(jobs: &Vec<DownloadJob>) -> (n: usize)
    ensures
        n == count_succeeded(statuses(jobs@)),
{
    let ghost all = statuses(jobs@);
    let mut n: usize = 0;
    let mut i: usize = 0;
    while i < jobs.len()
        invariant
            0 <= i <= jobs@.len(),
            all == statuses(jobs@),
            n == count_succeeded(all.subrange(0, i as int)),
            n <= i,
        decreases jobs@.len() - i,
    {
        proof {
            assert(all.subrange(0, i + 1).drop_last() =~= all.subrange(0, i as int));
            assert(all.subrange(0, i + 1).last() == jobs@[i as int]@.status);
        }
        if matches!(&jobs[i].status, JobStatus::Success | JobStatus::EmbeddedExists(_)) {
            n += 1;
        }
        i += 1;
    }
    proof {
        assert(all.subrange(0, jobs@.len() as int) =~= all);
    }
    n
}

/// Count the `Failed` jobs.
pub fn count_failed_jobs(jobs: &Vec<DownloadJob>) -> (n: usize)
    ensures
        n == count_failed(statuses(jobs@)),
{
    let ghost all = statuses(jobs@);
    let mut n: usize = 0;
    let mut i: usize = 0;
    while i < jobs.len()
        invariant
            0 <= i <= jobs@.len(),
            all == statuses(jobs@),
            n == count_failed(all.subrange(0, i as int)),
            n <= i,
        decreases jobs@.len() - i,
    {
        proof {
            assert(all.subrange(0, i + 1).drop_last() =~= all.subrange(0, i as int));
            assert(all.subrange(0, i + 1).last() == jobs@[i as int]@.status);
        }
        if matches!(&jobs[i].status, JobStatus::Failed(_)) {
            n += 1;
        }
        i += 1;
    }
    proof {
        assert(all.subrange(0, jobs@.len() as int) =~= all);
    }
    n
}

} // verus!
