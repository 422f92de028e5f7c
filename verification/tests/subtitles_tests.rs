use rustitles::subtitle_utils::SubtitleUtils;

fn strings(v: &[&str]) -> Vec<String> {
    v.iter().map(|s| s.to_string()).collect()
}

#[test]
fn known_language_codes_get_names() {
    assert_eq!(SubtitleUtils::language_code_to_name("en"), "English");
    assert_eq!(SubtitleUtils::language_code_to_name("pt-br"), "Portuguese (Brazil)");
    assert_eq!(SubtitleUtils::language_code_to_name("zh-tw"), "Chinese (Traditional)");
    assert_eq!(SubtitleUtils::language_code_to_name("km"), "Khmer");
}

#[test]
fn unknown_language_codes_map_to_themselves() {
    assert_eq!(SubtitleUtils::language_code_to_name("xx"), "xx");
    assert_eq!(SubtitleUtils::language_code_to_name(""), "");
}

#[test]
fn finds_language_tagged_then_generic_subtitles() {
    let files = strings(&["/m/show.en.srt", "/m/show.srt", "/m/other.srt"]);
    let r = SubtitleUtils::find_all_subtitle_files(
        "/m/show.mkv",
        &strings(&["en", "fr"]),
        &files,
    );
    assert_eq!(r, strings(&["/m/show.en.srt", "/m/show.srt"]));
}

#[test]
fn extension_order_prefers_srt() {
    let files = strings(&["/m/show.en.vtt", "/m/show.en.srt"]);
    let r = SubtitleUtils::find_all_subtitle_files("/m/show.mkv", &strings(&["en"]), &files);
    assert_eq!(r, strings(&["/m/show.en.srt"]));
}

#[test]
fn no_candidates_for_a_path_without_file_name() {
    let files = strings(&["/m/show.srt"]);
    let r = SubtitleUtils::find_all_subtitle_files("/m/", &strings(&["en"]), &files);
    assert!(r.is_empty());
}

#[test]
fn missing_subtitles_when_a_language_lacks_both_forms() {
    let files = strings(&["/m/show.en.srt"]);
    assert!(SubtitleUtils::video_missing_subtitle(
        "/m/show.mkv",
        &strings(&["en", "fr"]),
        &files,
    ));
    assert!(!SubtitleUtils::video_missing_subtitle("/m/show.mkv", &strings(&["en"]), &files));
}

#[test]
fn a_generic_subtitle_satisfies_every_language() {
    let files = strings(&["/m/show.srt"]);
    assert!(!SubtitleUtils::video_missing_subtitle(
        "/m/show.mkv",
        &strings(&["en", "fr"]),
        &files,
    ));
}

#[test]
fn scan_selection_keeps_missing_videos_in_order() {
    let videos = strings(&["/m/a.mkv", "/m/b.mkv", "/m/c.mkv"]);
    let listings = vec![
        strings(&["/m/a.en.srt"]),
        strings(&[]),
        strings(&["/m/c.srt"]),
    ];
    let langs = strings(&["en"]);
    let picked = SubtitleUtils::select_scan_targets(&videos, &langs, &listings, false);
    assert_eq!(picked, strings(&["/m/b.mkv"]));
    // overwriting takes every video, subtitles or not
    let all = SubtitleUtils::select_scan_targets(&videos, &langs, &listings, true);
    assert_eq!(all, videos);
}

#[test]
fn probe_output_matches_two_and_three_letter_tags() {
    let langs = strings(&["en"]);
    assert_eq!(
        SubtitleUtils::embedded_language_match("0,eng\n1,ita", &langs),
        Some("English".to_string()),
    );
    assert_eq!(SubtitleUtils::embedded_language_match("0,en", &langs), Some("English".to_string()));
    assert_eq!(SubtitleUtils::embedded_language_match("0,ita", &langs), None);
}

#[test]
fn probe_output_lines_without_a_language_field_are_skipped() {
    let langs = strings(&["he"]);
    assert_eq!(SubtitleUtils::embedded_language_match("garbage\n3, heb \r\n", &langs),
        Some("Hebrew".to_string()));
    assert_eq!(SubtitleUtils::embedded_language_match("", &langs), None);
    assert_eq!(SubtitleUtils::embedded_language_match("no commas here", &langs), None);
}

#[test]
fn probe_tags_fold_case() {
    // the tag comparison folds case; the name lookup sees the code as requested
    let langs = strings(&["EN"]);
    assert_eq!(SubtitleUtils::embedded_language_match("0,ENG", &langs), Some("EN".to_string()));
}
