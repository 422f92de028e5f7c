//! Common utility functions and validation helpers.
//!
//! File-name handling, display truncation, progress formatting, and
//! input validation.  Paths are handled as plain strings: the file name
//! is the part after the last separator, the extension the part after
//! the last dot of the file name.

use crate::text::{
    dot_fn, file_name_of, last_dot_end, last_sep_end, lemma_suffix_after_last, lower_seq,
    path_sep_fn, spec_digits, suffix_after_last, to_lowercase,
};
use vstd::arithmetic::div_mod::{lemma_div_is_ordered, lemma_div_multiples_vanish};
use vstd::prelude::*;

verus! {

/// Common utility functions used throughout the crate.
pub struct Utils;

/// The extension of a path: the part of the file name after its last
/// dot, provided that dot is neither missing nor the name's first
/// character.
pub open spec fn spec_extension(s: Seq<char>) -> Option<Seq<char>> {
    let name = file_name_of(s);
    let ext = suffix_after_last(name, dot_fn());
    if ext.len() + 2 <= name.len() {
        Some(ext)
    } else {
        None
    }
}

/// A path names a video file when its extension, case-folded, is one of
/// the recognised video extensions.
pub open spec fn spec_is_video_file(s: Seq<char>) -> bool {
    match spec_extension(s) {
        Some(e) => is_video_extension(lower_seq(e)),
        None => false,
    }
}

/// The recognised (lower-case) video file extensions.
pub open spec fn is_video_extension(e: Seq<char>) -> bool {
    ||| e == "mp4"@
    ||| e == "mkv"@
    ||| e == "avi"@
    ||| e == "mov"@
    ||| e == "wmv"@
    ||| e == "flv"@
    ||| e == "mpeg"@
    ||| e == "mpg"@
    ||| e == "webm"@
    ||| e == "m4v"@
    ||| e == "3gp"@
    ||| e == "3g2"@
    ||| e == "asf"@
    ||| e == "mts"@
    ||| e == "m2ts"@
    ||| e == "ts"@
    ||| e == "vob"@
    ||| e == "ogv"@
    ||| e == "rm"@
    ||| e == "rmvb"@
    ||| e == "divx"@
    ||| e == "f4v"@
    ||| e == "mxf"@
    ||| e == "mp2"@
    ||| e == "mpv"@
    ||| e == "dat"@
    ||| e == "tod"@
    ||| e == "vro"@
    ||| e == "drc"@
    ||| e == "mng"@
    ||| e == "qt"@
    ||| e == "yuv"@
    ||| e == "viv"@
    ||| e == "amv"@
    ||| e == "nsv"@
    ||| e == "svi"@
    ||| e == "mpe"@
    ||| e == "mpv2"@
    ||| e == "m2v"@
    ||| e == "m1v"@
    ||| e == "m2p"@
    ||| e == "trp"@
    ||| e == "tp"@
    ||| e == "ps"@
    ||| e == "evo"@
    ||| e == "ogm"@
    ||| e == "ogx"@
    ||| e == "mod"@
    ||| e == "rec"@
    ||| e == "dvr-ms"@
    ||| e == "pva"@
    ||| e == "wtv"@
    ||| e == "m4p"@
    ||| e == "m4b"@
    ||| e == "m4r"@
    ||| e == "m4a"@
    ||| e == "3gpp"@
    ||| e == "3gpp2"@
}

/// A path with its extension (and the dot before it) removed; the path
/// itself when it has no extension.
pub open spec fn base_of(s: Seq<char>) -> Seq<char> {
    match spec_extension(s) {
        Some(e) => s.subrange(0, s.len() - e.len() - 1),
        None => s,
    }
}

/// The truncation rule: strings longer than `max_len` characters are cut
/// to `max_len - 3` and continued with an ellipsis.
pub open spec fn spec_truncate(s: Seq<char>, max_len: nat) -> Seq<char> {
    if s.len() <= max_len {
        s
    } else {
        s.subrange(0, max_len - 3) + "..."@
    }
}

/// The progress percentage, rounded down; `0%` when nothing is expected.
pub open spec fn spec_format_progress(current: nat, total: nat) -> Seq<char> {
    if total == 0 {
        "0%"@
    } else {
        spec_digits(current * 100 / total) + "%"@
    }
}

impl Utils {
    /// The file name of a path, or `"Unknown"` when the path ends in a
    /// separator (and so names no file).
    pub fn get_file_name(path: &str) -> (r: String)
        ensures
            file_name_of(path@).len() > 0 ==> r@ == file_name_of(path@),
            file_name_of(path@).len() == 0 ==> r@ == "Unknown"@,
    {
        let len = path.unicode_len();
        let k = last_sep_end(path);
        proof {
            lemma_suffix_after_last(path@, path_sep_fn(), k as int);
        }
        let name = path.substring_char(k, len);
        if name.is_empty() {
            String::from_str("Unknown")
        } else {
            String::from_str(name)
        }
    }

    /// Truncate a string to at most `max_len` characters, ending it with
    /// an ellipsis when it had to be cut.
    pub fn truncate_string(s: &str, max_len: usize) -> (r: String)
        requires
            max_len >= 3,
        ensures
            r@ == spec_truncate(s@, max_len as nat),
    {
        let len = s.unicode_len();
        if len <= max_len {
            String::from_str(s)
        } else {
            String::from_str(s.substring_char(0, max_len - 3)).concat("...")
        }
    }

    /// Check whether a path names a video file by its extension.
    pub fn is_video_file(path: &str) -> (r: bool)
        ensures
            r == spec_is_video_file(path@),
    {
        let len = path.unicode_len();
        let k = last_sep_end(path);
        proof {
            lemma_suffix_after_last(path@, path_sep_fn(), k as int);
        }
        let name = path.substring_char(k, len);
        let nlen = name.unicode_len();
        let d = last_dot_end(name);
        proof {
            lemma_suffix_after_last(name@, dot_fn(), d as int);
        }
        if d < 2 {
            // no dot in the file name, or the name starts with its only dot
            return false;
        }
        let ext_raw = name.substring_char(d, nlen);
        let lowered = to_lowercase(ext_raw);
        let ext = lowered.as_str();
            crate::text::str_eq(ext, "mp4")
        || crate::text::str_eq(ext, "mkv")
        || crate::text::str_eq(ext, "avi")
        || crate::text::str_eq(ext, "mov")
        || crate::text::str_eq(ext, "wmv")
        || crate::text::str_eq(ext, "flv")
        || crate::text::str_eq(ext, "mpeg")
        || crate::text::str_eq(ext, "mpg")
        || crate::text::str_eq(ext, "webm")
        || crate::text::str_eq(ext, "m4v")
        || crate::text::str_eq(ext, "3gp")
        || crate::text::str_eq(ext, "3g2")
        || crate::text::str_eq(ext, "asf")
        || crate::text::str_eq(ext, "mts")
        || crate::text::str_eq(ext, "m2ts")
        || crate::text::str_eq(ext, "ts")
        || crate::text::str_eq(ext, "vob")
        || crate::text::str_eq(ext, "ogv")
        || crate::text::str_eq(ext, "rm")
        || crate::text::str_eq(ext, "rmvb")
        || crate::text::str_eq(ext, "divx")
        || crate::text::str_eq(ext, "f4v")
        || crate::text::str_eq(ext, "mxf")
        || crate::text::str_eq(ext, "mp2")
        || crate::text::str_eq(ext, "mpv")
        || crate::text::str_eq(ext, "dat")
        || crate::text::str_eq(ext, "tod")
        || crate::text::str_eq(ext, "vro")
        || crate::text::str_eq(ext, "drc")
        || crate::text::str_eq(ext, "mng")
        || crate::text::str_eq(ext, "qt")
        || crate::text::str_eq(ext, "yuv")
        || crate::text::str_eq(ext, "viv")
        || crate::text::str_eq(ext, "amv")
        || crate::text::str_eq(ext, "nsv")
        || crate::text::str_eq(ext, "svi")
        || crate::text::str_eq(ext, "mpe")
        || crate::text::str_eq(ext, "mpv2")
        || crate::text::str_eq(ext, "m2v")
        || crate::text::str_eq(ext, "m1v")
        || crate::text::str_eq(ext, "m2p")
        || crate::text::str_eq(ext, "trp")
        || crate::text::str_eq(ext, "tp")
        || crate::text::str_eq(ext, "ps")
        || crate::text::str_eq(ext, "evo")
        || crate::text::str_eq(ext, "ogm")
        || crate::text::str_eq(ext, "ogx")
        || crate::text::str_eq(ext, "mod")
        || crate::text::str_eq(ext, "rec")
        || crate::text::str_eq(ext, "dvr-ms")
        || crate::text::str_eq(ext, "pva")
        || crate::text::str_eq(ext, "wtv")
        || crate::text::str_eq(ext, "m4p")
        || crate::text::str_eq(ext, "m4b")
        || crate::text::str_eq(ext, "m4r")
        || crate::text::str_eq(ext, "m4a")
        || crate::text::str_eq(ext, "3gpp")
        || crate::text::str_eq(ext, "3gpp2")
    }

    /// Create a progress percentage string for `current` out of `total`
    /// completed items.  Progress never exceeds the total, which also
    /// keeps the percentage within `usize`.
    pub fn format_progress(current: usize, total: usize) -> (r: String)
        requires
            current <= total,
        ensures
            r@ == spec_format_progress(current as nat, total as nat),
    {
        if total == 0 {
            String::from_str("0%")
        } else {
            let p128: u128 = (current as u128) * 100 / (total as u128);
            proof {
                lemma_div_is_ordered(
                    current as int * 100,
                    total as int * 100,
                    total as int,
                );
                lemma_div_multiples_vanish(100, total as int);
            }
            let p: usize = p128 as usize;
            crate::text::usize_to_string(p).concat("%")
        }
    }
}

/// The folder names skipped during a scan when local extras are ignored.
pub open spec fn spec_is_extras_folder(name: Seq<char>) -> bool {
    ||| name == "Behind The Scenes"@
    ||| name == "Deleted Scenes"@
    ||| name == "Featurettes"@
    ||| name == "Interviews"@
    ||| name == "Scenes"@
    ||| name == "Shorts"@
    ||| name == "Trailers"@
    ||| name == "Other"@
}

/// Check whether a folder name is a local-extras folder that a scan with
/// `ignore_local_extras` skips.
pub fn is_extras_folder(name: &str) -> (r: bool)
    ensures
        r == spec_is_extras_folder(name@),
{
    crate::text::str_eq(name, "Behind The Scenes") || crate::text::str_eq(name, "Deleted Scenes")
        || crate::text::str_eq(name, "Featurettes") || crate::text::str_eq(name, "Interviews")
        || crate::text::str_eq(name, "Scenes") || crate::text::str_eq(name, "Shorts")
        || crate::text::str_eq(name, "Trailers") || crate::text::str_eq(name, "Other")
}

/// Input validation utilities.
pub struct Validation;

impl Validation {
    /// A folder path is acceptable when it is non-empty and the caller has
    /// confirmed that it names an existing directory on disk.
    pub fn is_valid_folder(path: &str, exists_as_dir: bool) -> (r: bool)
        ensures
            r == (path@.len() > 0 && exists_as_dir),
    {
        !path.is_empty() && exists_as_dir
    }

    /// A concurrency limit is acceptable when it lies in
    /// `[1, MAX_CONCURRENT_DOWNLOADS]`.
    pub fn is_valid_concurrent_downloads(value: usize) -> (r: bool)
        ensures
            r == (1 <= value <= crate::MAX_CONCURRENT_DOWNLOADS),
    {
        value > 0 && value <= crate::MAX_CONCURRENT_DOWNLOADS
    }
}

} // verus!
