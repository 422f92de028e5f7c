//! Classification of the external fetch tool's output.
//!
//! Given the tool's combined, case-folded output, the number of subtitle
//! files discovered on disk, the force flag and the requested languages,
//! exactly one terminal job status is produced.  Discovered files are
//! authoritative over textual claims: text is advisory only.

use crate::jobs::{JobStatus, JobStatusView};
use crate::subtitle_utils::{spec_language_name, SubtitleUtils};
use crate::text::{contains_seq, lower_seq, opt_string_view, str_contains, to_lowercase};
use vstd::prelude::*;

verus! {

/// The output claims that nothing was fetched.
pub open spec fn mentions_zero_downloads(out: Seq<char>) -> bool {
    contains_seq(out, "downloaded 0 subtitle"@)
}

/// The output carries an error or failure keyword.
pub open spec fn mentions_error(out: Seq<char>) -> bool {
    contains_seq(out, "error"@) || contains_seq(out, "failed"@)
}

/// The output matches the known recoverable cache-corruption signature.
pub open spec fn mentions_cache_corruption(out: Seq<char>) -> bool {
    contains_seq(out, "dbm.error"@) || contains_seq(out, "db type could not be determined"@)
}

/// The output contains one of the fixed "already satisfied" phrases.
pub open spec fn mentions_embedded_phrase(out: Seq<char>) -> bool {
    ||| contains_seq(out, "embedded"@)
    ||| contains_seq(out, "already exists"@)
    ||| contains_seq(out, "no need to download"@)
    ||| contains_seq(out, "subtitle(s) already present"@)
    ||| contains_seq(out, "has embedded subtitles"@)
    ||| contains_seq(out, "skipping"@)
}

/// The reason recorded when embedded subtitles make a fetch unnecessary.
pub open spec fn embedded_reason(name: Seq<char>) -> Seq<char> {
    "Embedded "@ + name + " subtitles already exist (no external subtitles found online)"@
}

/// The language whose name is used when an "already satisfied" phrase has
/// to be attributed to some language: the first requested one.
pub open spec fn first_language(langs: Seq<Seq<char>>) -> Seq<char> {
    if langs.len() > 0 {
        langs[0]
    } else {
        "unknown"@
    }
}

/// The classification rule: one terminal status from the combined
/// case-folded output `out`, the number `files` of subtitle files found on
/// disk, the `force` flag, the embedded-probe result `probe`, and the
/// requested languages.
pub open spec fn spec_classify(
    out: Seq<char>,
    files: nat,
    force: bool,
    probe: Option<Seq<char>>,
    langs: Seq<Seq<char>>,
) -> JobStatusView {
    if mentions_zero_downloads(out) {
        if files > 0 {
            JobStatusView::Success
        } else if !force {
            if probe is Some {
                JobStatusView::EmbeddedExists(embedded_reason(probe->0))
            } else if mentions_embedded_phrase(out) {
                JobStatusView::EmbeddedExists(
                    embedded_reason(spec_language_name(first_language(langs))),
                )
            } else {
                JobStatusView::Failed(
                    "No subtitles found (no embedded or external subtitles available)"@,
                )
            }
        } else {
            JobStatusView::Failed("No subtitles found online"@)
        }
    } else if mentions_error(out) {
        if mentions_cache_corruption(out) {
            if files > 0 {
                JobStatusView::Success
            } else {
                JobStatusView::Failed("DBM cache error - try again later"@)
            }
        } else if files > 0 {
            JobStatusView::Success
        } else {
            JobStatusView::Failed("Subliminal error: see log"@)
        }
    } else {
        JobStatusView::Success
    }
}

/// Case-fold the captured standard output and standard error and join
/// them into the single blob that classification scans.
pub fn combine_output(stdout: &str, stderr: &str) -> (r: String)
    ensures
        r@ == lower_seq(stdout@) + "\n"@ + lower_seq(stderr@),
{
    let lo = to_lowercase(stdout);
    let le = to_lowercase(stderr);
    lo.concat("\n").concat(le.as_str())
}

/// The embedded-subtitle probe is only worth running when the tool
/// claims zero downloads, no subtitle file was discovered, and the run
/// is not forced.
pub fn classify_needs_probe(combined: &str, files: usize, force: bool) -> (r: bool)
    ensures
        r == (mentions_zero_downloads(combined@) && files == 0 && !force),
{
    files == 0 && !force && str_contains(combined, "downloaded 0 subtitle")
}

/// Build the reason recorded when embedded subtitles already satisfy the
/// request for the named language.
fn embedded_reason_exec(name: &str) -> (r: String)
    ensures
        r@ == embedded_reason(name@),
{
    String::from_str("Embedded ").concat(name).concat(
        " subtitles already exist (no external subtitles found online)",
    )
}

/// Classify the outcome of one fetch attempt.
///
/// `combined` is the case-folded combined output (see [`combine_output`]),
/// `files` the number of subtitle files discovered on disk for the target,
/// `probe` the embedded-probe result if the probe was run (see
/// [`classify_needs_probe`]), and `langs` the requested language codes.
pub fn classify_output(
    combined: &str,
    files: usize,
    force: bool,
    probe: Option<String>,
    langs: &Vec<String>,
) -> (r: JobStatus)
    ensures
        r@ == spec_classify(combined@, files as nat, force, opt_string_view(probe), langs.deep_view()),
{
    if str_contains(combined, "downloaded 0 subtitle") {
        if files > 0 {
            JobStatus::Success
        } else if !force {
            match probe {
                Some(name) => JobStatus::EmbeddedExists(embedded_reason_exec(name.as_str())),
                None => {
                    if str_contains(combined, "embedded") || str_contains(combined, "already exists")
                        || str_contains(combined, "no need to download")
                        || str_contains(combined, "subtitle(s) already present")
                        || str_contains(combined, "has embedded subtitles")
                        || str_contains(combined, "skipping") {
                        let code: &str = if langs.len() > 0 {
                            langs[0].as_str()
                        } else {
                            "unknown"
                        };
                        proof {
                            assert(code@ == first_language(langs.deep_view()));
                        }
                        let name = SubtitleUtils::language_code_to_name(code);
                        JobStatus::EmbeddedExists(embedded_reason_exec(name))
                    } else {
                        JobStatus::Failed(
                            String::from_str(
                                "No subtitles found (no embedded or external subtitles available)",
                            ),
                        )
                    }
                },
            }
        } else {
            JobStatus::Failed(String::from_str("No subtitles found online"))
        }
    } else if str_contains(combined, "error") || str_contains(combined, "failed") {
        if str_contains(combined, "dbm.error") || str_contains(
            combined,
            "db type could not be determined",
        ) {
            if files > 0 {
                JobStatus::Success
            } else {
                JobStatus::Failed(String::from_str("DBM cache error - try again later"))
            }
        } else if files > 0 {
            JobStatus::Success
        } else {
            JobStatus::Failed(String::from_str("Subliminal error: see log"))
        }
    } else {
        JobStatus::Success
    }
}

/// The decision a worker records for its job: cancellation wins, then a
/// failed launch, otherwise the classification of the tool's output.
pub open spec fn spec_worker_status(
    cancelled: bool,
    launch_ok: bool,
    out: Seq<char>,
    files: nat,
    force: bool,
    probe: Option<Seq<char>>,
    langs: Seq<Seq<char>>,
) -> JobStatusView {
    if cancelled {
        JobStatusView::Failed(crate::jobs::cancelled_reason())
    } else if !launch_ok {
        JobStatusView::Failed("Failed to run subliminal"@)
    } else {
        spec_classify(out, files, force, probe, langs)
    }
}

/// Decide the terminal status a worker writes back for its job.
///
/// `cancelled` is the cancellation token as sampled before launching the
/// tool, and `launch_ok` says whether any invocation of the fallback
/// chain could be launched at all.
pub fn worker_status(
    cancelled: bool,
    launch_ok: bool,
    combined: &str,
    files: usize,
    force: bool,
    probe: Option<String>,
    langs: &Vec<String>,
) -> (r: JobStatus)
    ensures
        r@ == spec_worker_status(
            cancelled,
            launch_ok,
            combined@,
            files as nat,
            force,
            opt_string_view(probe),
            langs.deep_view(),
        ),
{
    if cancelled {
        JobStatus::Failed(String::from_str("Cancelled"))
    } else if !launch_ok {
        JobStatus::Failed(String::from_str("Failed to run subliminal"))
    } else {
        classify_output(combined, files, force, probe, langs)
    }
}

} // verus!
