use rustitles::classify::{classify_needs_probe, classify_output, combine_output, worker_status};
use rustitles::jobs::JobStatus;

fn langs(v: &[&str]) -> Vec<String> {
    v.iter().map(|s| s.to_string()).collect()
}

#[test]
fn zero_downloads_with_probe_match_names_the_language() {
    let combined = combine_output("Downloaded 0 subtitles", "");
    let r = classify_output(&combined, 0, false, Some("English".to_string()), &langs(&["en"]));
    match r {
        JobStatus::EmbeddedExists(msg) => assert_eq!(
            msg,
            "Embedded English subtitles already exist (no external subtitles found online)"
        ),
        _ => panic!("expected EmbeddedExists"),
    }
}

#[test]
fn cache_error_with_discovered_file_is_success() {
    let combined = combine_output("error: dbm.error cache is corrupt", "");
    let r = classify_output(&combined, 1, false, None, &langs(&["en"]));
    assert!(matches!(r, JobStatus::Success));
}

#[test]
fn silent_output_with_no_files_is_success() {
    let combined = combine_output("downloaded 2 subtitles", "");
    let r = classify_output(&combined, 0, false, None, &langs(&["en"]));
    assert!(matches!(r, JobStatus::Success));
}

#[test]
fn zero_downloads_with_files_is_success() {
    let combined = combine_output("Downloaded 0 subtitles", "");
    let r = classify_output(&combined, 2, false, None, &langs(&["en"]));
    assert!(matches!(r, JobStatus::Success));
}

#[test]
fn zero_downloads_forced_fails_online() {
    let combined = combine_output("Downloaded 0 subtitles", "");
    let r = classify_output(&combined, 0, true, None, &langs(&["en"]));
    match r {
        JobStatus::Failed(msg) => assert_eq!(msg, "No subtitles found online"),
        _ => panic!("expected Failed"),
    }
}

#[test]
fn zero_downloads_with_phrase_names_first_language() {
    let combined = combine_output("Downloaded 0 subtitles; skipping video", "");
    let r = classify_output(&combined, 0, false, None, &langs(&["fr", "en"]));
    match r {
        JobStatus::EmbeddedExists(msg) => assert_eq!(
            msg,
            "Embedded French subtitles already exist (no external subtitles found online)"
        ),
        _ => panic!("expected EmbeddedExists"),
    }
}

#[test]
fn zero_downloads_without_hints_fails() {
    let combined = combine_output("Downloaded 0 subtitles", "");
    let r = classify_output(&combined, 0, false, None, &langs(&["en"]));
    match r {
        JobStatus::Failed(msg) => assert_eq!(
            msg,
            "No subtitles found (no embedded or external subtitles available)"
        ),
        _ => panic!("expected Failed"),
    }
}

#[test]
fn cache_error_without_files_is_recoverable_failure() {
    let combined = combine_output("ERROR db type could not be determined", "");
    let r = classify_output(&combined, 0, false, None, &langs(&["en"]));
    match r {
        JobStatus::Failed(msg) => assert_eq!(msg, "DBM cache error - try again later"),
        _ => panic!("expected Failed"),
    }
}

#[test]
fn plain_error_without_files_fails() {
    let combined = combine_output("", "something failed badly");
    let r = classify_output(&combined, 0, false, None, &langs(&["en"]));
    match r {
        JobStatus::Failed(msg) => assert_eq!(msg, "Subliminal error: see log"),
        _ => panic!("expected Failed"),
    }
}

#[test]
fn plain_error_with_files_is_success() {
    let combined = combine_output("an error occurred", "");
    let r = classify_output(&combined, 1, false, None, &langs(&["en"]));
    assert!(matches!(r, JobStatus::Success));
}

#[test]
fn combine_output_folds_case_and_joins() {
    let combined = combine_output("Downloaded 0 Subtitles", "WARN: Failed");
    assert_eq!(combined, "downloaded 0 subtitles\nwarn: failed");
}

#[test]
fn probe_is_only_needed_for_unforced_zero_download_without_files() {
    assert!(classify_needs_probe("downloaded 0 subtitle", 0, false));
    assert!(!classify_needs_probe("downloaded 0 subtitle", 1, false));
    assert!(!classify_needs_probe("downloaded 0 subtitle", 0, true));
    assert!(!classify_needs_probe("all fine", 0, false));
}

#[test]
fn cancelled_worker_fails_without_classification() {
    let r = worker_status(true, true, "anything", 3, false, None, &langs(&["en"]));
    match r {
        JobStatus::Failed(msg) => assert_eq!(msg, "Cancelled"),
        _ => panic!("expected Failed"),
    }
}

#[test]
fn unlaunchable_tool_fails() {
    let r = worker_status(false, false, "", 0, false, None, &langs(&["en"]));
    match r {
        JobStatus::Failed(msg) => assert_eq!(msg, "Failed to run subliminal"),
        _ => panic!("expected Failed"),
    }
}
