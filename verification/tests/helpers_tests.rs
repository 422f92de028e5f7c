use rustitles::helper_functions::{is_extras_folder, Utils, Validation};
use rustitles::settings::Settings;
use rustitles::{DEFAULT_CONCURRENT_DOWNLOADS, MAX_CONCURRENT_DOWNLOADS};

#[test]
fn file_name_is_the_part_after_the_last_separator() {
    assert_eq!(Utils::get_file_name("/videos/show/episode.mkv"), "episode.mkv");
    assert_eq!(Utils::get_file_name("C:\\videos\\episode.mkv"), "episode.mkv");
    assert_eq!(Utils::get_file_name("episode.mkv"), "episode.mkv");
    assert_eq!(Utils::get_file_name("/videos/show/"), "Unknown");
    assert_eq!(Utils::get_file_name(""), "Unknown");
}

#[test]
fn truncation_keeps_short_strings_and_cuts_long_ones() {
    assert_eq!(Utils::truncate_string("short", 10), "short");
    assert_eq!(Utils::truncate_string("hello world", 8), "hello...");
    assert_eq!(Utils::truncate_string("abc", 3), "abc");
    assert_eq!(Utils::truncate_string("abcd", 3), "...");
}

#[test]
fn video_files_are_recognised_by_extension() {
    assert!(Utils::is_video_file("/videos/a.mkv"));
    assert!(Utils::is_video_file("b.MP4"));
    assert!(Utils::is_video_file("c.WebM"));
    assert!(Utils::is_video_file("d.dvr-ms"));
    assert!(!Utils::is_video_file("notes.txt"));
    assert!(!Utils::is_video_file("noextension"));
    assert!(!Utils::is_video_file(".mkv"));
    assert!(!Utils::is_video_file("/videos/mp4/"));
}

#[test]
fn progress_is_a_truncated_percentage() {
    assert_eq!(Utils::format_progress(0, 0), "0%");
    assert_eq!(Utils::format_progress(0, 4), "0%");
    assert_eq!(Utils::format_progress(1, 3), "33%");
    assert_eq!(Utils::format_progress(2, 3), "66%");
    assert_eq!(Utils::format_progress(3, 3), "100%");
    assert_eq!(Utils::format_progress(1, 200), "0%");
}

#[test]
fn extras_folders_are_matched_exactly() {
    assert!(is_extras_folder("Behind The Scenes"));
    assert!(is_extras_folder("Trailers"));
    assert!(is_extras_folder("Other"));
    assert!(!is_extras_folder("trailers"));
    assert!(!is_extras_folder("Season 1"));
}

#[test]
fn folder_validation_needs_text_and_a_directory() {
    assert!(Validation::is_valid_folder("/videos", true));
    assert!(!Validation::is_valid_folder("/videos", false));
    assert!(!Validation::is_valid_folder("", true));
}

#[test]
fn concurrency_validation_enforces_the_range() {
    assert!(!Validation::is_valid_concurrent_downloads(0));
    assert!(Validation::is_valid_concurrent_downloads(1));
    assert!(Validation::is_valid_concurrent_downloads(MAX_CONCURRENT_DOWNLOADS));
    assert!(!Validation::is_valid_concurrent_downloads(MAX_CONCURRENT_DOWNLOADS + 1));
}

#[test]
fn settings_defaults() {
    let s = Settings::default();
    assert!(s.selected_languages.is_empty());
    assert!(!s.force_download);
    assert!(!s.overwrite_existing);
    assert_eq!(s.concurrent_downloads, DEFAULT_CONCURRENT_DOWNLOADS);
    assert!(!s.ignore_local_extras);
}
