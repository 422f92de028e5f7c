use rustitles::jobs::{DownloadJob, JobStatus};
use rustitles::progress::{download_status_line, progress_counts, ProgressCache};

fn job(status: JobStatus) -> DownloadJob {
    DownloadJob {
        video_path: "/m/a.mkv".to_string(),
        status,
        subtitle_paths: Vec::new(),
    }
}

fn sample_jobs() -> Vec<DownloadJob> {
    vec![
        job(JobStatus::Success),
        job(JobStatus::EmbeddedExists("embedded".to_string())),
        job(JobStatus::Running),
        job(JobStatus::Failed("nope".to_string())),
        job(JobStatus::Pending),
    ]
}

#[test]
fn counts_split_by_status_class() {
    let (succ, run, fail) = progress_counts(&sample_jobs());
    assert_eq!((succ, run, fail), (2, 1, 1));
}

#[test]
fn running_jobs_give_a_progress_line() {
    let line = download_status_line(&sample_jobs(), false);
    assert_eq!(line, Some("Downloading: 2 completed, 1 running, 2 pending".to_string()));
}

#[test]
fn a_finished_pool_gives_a_completion_summary() {
    let line = download_status_line(&sample_jobs(), true);
    assert_eq!(line, Some("Subliminal jobs completed: 2 successful, 1 failed".to_string()));
}

#[test]
fn an_idle_unfinished_pool_gives_no_line() {
    let jobs = vec![job(JobStatus::Pending)];
    assert_eq!(download_status_line(&jobs, false), None);
}

#[test]
fn the_cache_refreshes_only_after_the_interval() {
    let mut cache = ProgressCache::new();
    let jobs = sample_jobs();
    assert!(cache.refresh(1000, &jobs));
    assert_eq!(cache.cached_jobs.len(), 5);
    assert_eq!(cache.last_update_ms, 1000);
    // a poll 200 ms later leaves the cache untouched
    let more = vec![job(JobStatus::Success)];
    assert!(!cache.refresh(1200, &more));
    assert_eq!(cache.cached_jobs.len(), 5);
    assert_eq!(cache.last_update_ms, 1000);
    // a poll 500 ms after the last renewal takes the new snapshot
    assert!(cache.refresh(1500, &more));
    assert_eq!(cache.cached_jobs.len(), 1);
    assert!(matches!(cache.cached_jobs[0].status, JobStatus::Success));
}

#[test]
fn the_snapshot_is_a_complete_copy() {
    let mut cache = ProgressCache::new();
    let jobs = sample_jobs();
    cache.refresh(600, &jobs);
    assert_eq!(cache.cached_jobs.len(), jobs.len());
    for (a, b) in cache.cached_jobs.iter().zip(jobs.iter()) {
        assert_eq!(a.video_path, b.video_path);
    }
}
