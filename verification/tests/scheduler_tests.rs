use rustitles::jobs::JobStatus;
use rustitles::scheduler::Scheduler;

fn targets(n: usize) -> Vec<String> {
    (0..n).map(|i| format!("/videos/movie{}.mkv", i)).collect()
}

#[test]
fn ten_targets_with_limit_three_never_exceed_three_running() {
    let mut s = Scheduler::new(targets(10), 3);
    let mut live: Vec<usize> = Vec::new();
    let mut rounds = 0;
    while !s.is_finished() {
        while let Some((idx, target)) = s.try_admit() {
            assert_eq!(target, format!("/videos/movie{}.mkv", idx));
            live.push(idx);
        }
        assert!(s.running <= 3);
        assert!(live.len() <= 3);
        let idx = live.remove(0);
        s.finish_job(idx, JobStatus::Success, Vec::new());
        rounds += 1;
        assert!(rounds <= 100);
    }
    assert_eq!(s.total(), 10);
    let snap = s.snapshot();
    assert_eq!(snap.len(), 10);
    for job in &snap {
        assert!(matches!(job.status, JobStatus::Success));
    }
}

#[test]
fn jobs_start_pending_and_admission_is_fifo() {
    let mut s = Scheduler::new(targets(4), 2);
    for job in &s.snapshot() {
        assert!(matches!(job.status, JobStatus::Pending));
        assert!(job.subtitle_paths.is_empty());
    }
    let (i0, t0) = s.try_admit().unwrap();
    let (i1, t1) = s.try_admit().unwrap();
    assert_eq!((i0, i1), (0, 1));
    assert_eq!(t0, "/videos/movie0.mkv");
    assert_eq!(t1, "/videos/movie1.mkv");
    // the limit is reached: nothing further is admitted
    assert!(s.try_admit().is_none());
    let snap = s.snapshot();
    assert!(matches!(snap[0].status, JobStatus::Running));
    assert!(matches!(snap[1].status, JobStatus::Running));
    assert!(matches!(snap[2].status, JobStatus::Pending));
}

#[test]
fn finish_job_records_status_and_paths() {
    let mut s = Scheduler::new(targets(2), 2);
    let (idx, _) = s.try_admit().unwrap();
    s.finish_job(idx, JobStatus::Success, vec!["/videos/movie0.en.srt".to_string()]);
    let snap = s.snapshot();
    assert!(matches!(snap[0].status, JobStatus::Success));
    assert_eq!(snap[0].subtitle_paths, vec!["/videos/movie0.en.srt".to_string()]);
    assert_eq!(snap[0].video_path, "/videos/movie0.mkv");
    assert!(matches!(snap[1].status, JobStatus::Pending));
}

#[test]
fn cancelled_scheduler_admits_nothing_further() {
    let mut s = Scheduler::new(targets(3), 2);
    let _ = s.try_admit().unwrap();
    s.cancel();
    assert!(s.try_admit().is_none());
}

#[test]
fn cancel_sweep_rewrites_open_jobs_and_finishes_the_run() {
    let mut s = Scheduler::new(targets(4), 2);
    let (i0, _) = s.try_admit().unwrap();
    let (i1, _) = s.try_admit().unwrap();
    s.finish_job(i0, JobStatus::Success, Vec::new());
    s.cancel();
    s.cancel_sweep();
    assert!(s.is_finished());
    let snap = s.snapshot();
    // the terminal job keeps its result
    assert!(matches!(snap[i0].status, JobStatus::Success));
    // the running and the pending jobs are rewritten uniformly
    for idx in [i1, 2, 3] {
        match &snap[idx].status {
            JobStatus::Failed(msg) => assert_eq!(msg, "Cancelled"),
            _ => panic!("expected Failed(Cancelled) at {}", idx),
        }
    }
}

#[test]
fn empty_run_is_finished_immediately() {
    let s = Scheduler::new(Vec::new(), 1);
    assert!(s.is_finished());
    assert_eq!(s.total(), 0);
}
