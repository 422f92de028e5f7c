//! Subtitle lookup helpers and language naming.
//!
//! Given a directory listing, these functions decide which subtitle
//! files exist for a video and which requested languages are still
//! missing; the actual directory walk happens outside the crate.

use crate::helper_functions::base_of;
use crate::text::{
    dot_fn, file_name_of, find_char, index_of_char, last_dot_end, last_sep_end,
    lemma_suffix_after_last, lower_seq, opt_string_view, path_sep_fn, starts_with_seq, str_eq,
    str_starts_with, to_lowercase, trim_spaces, trim_spaces_exec,
};
use vstd::prelude::*;

verus! {

/// Utilities for working with subtitle files and language naming.
pub struct SubtitleUtils;

/// The candidate subtitle file for `base` (the video path without its
/// extension), a language code and a subtitle extension.
pub open spec fn lang_candidate(base: Seq<char>, lang: Seq<char>, ext: Seq<char>) -> Seq<char> {
    base + "."@ + lang + "."@ + ext
}

/// The candidate subtitle file for `base` and a subtitle extension,
/// without a language tag.
pub open spec fn generic_candidate(base: Seq<char>, ext: Seq<char>) -> Seq<char> {
    base + "."@ + ext
}

/// The first language-tagged candidate, in the fixed extension order
/// srt, sub, ssa, ass, vtt, that occurs in the directory listing.
pub open spec fn first_lang_match(
    base: Seq<char>,
    lang: Seq<char>,
    files: Seq<Seq<char>>,
) -> Option<Seq<char>> {
    if files.contains(lang_candidate(base, lang, "srt"@)) {
        Some(lang_candidate(base, lang, "srt"@))
    } else if files.contains(lang_candidate(base, lang, "sub"@)) {
        Some(lang_candidate(base, lang, "sub"@))
    } else if files.contains(lang_candidate(base, lang, "ssa"@)) {
        Some(lang_candidate(base, lang, "ssa"@))
    } else if files.contains(lang_candidate(base, lang, "ass"@)) {
        Some(lang_candidate(base, lang, "ass"@))
    } else if files.contains(lang_candidate(base, lang, "vtt"@)) {
        Some(lang_candidate(base, lang, "vtt"@))
    } else {
        None
    }
}

/// The first untagged candidate, in the same extension order, that
/// occurs in the directory listing.
pub open spec fn first_generic_match(base: Seq<char>, files: Seq<Seq<char>>) -> Option<Seq<char>> {
    if files.contains(generic_candidate(base, "srt"@)) {
        Some(generic_candidate(base, "srt"@))
    } else if files.contains(generic_candidate(base, "sub"@)) {
        Some(generic_candidate(base, "sub"@))
    } else if files.contains(generic_candidate(base, "ssa"@)) {
        Some(generic_candidate(base, "ssa"@))
    } else if files.contains(generic_candidate(base, "ass"@)) {
        Some(generic_candidate(base, "ass"@))
    } else if files.contains(generic_candidate(base, "vtt"@)) {
        Some(generic_candidate(base, "vtt"@))
    } else {
        None
    }
}

/// One pick per requested language, in request order, skipping languages
/// with no candidate on disk.
pub open spec fn picks_for_langs(
    base: Seq<char>,
    langs: Seq<Seq<char>>,
    files: Seq<Seq<char>>,
) -> Seq<Seq<char>>
    decreases langs.len(),
{
    if langs.len() == 0 {
        Seq::empty()
    } else {
        let rest = picks_for_langs(base, langs.drop_last(), files);
        match first_lang_match(base, langs.last(), files) {
            Some(c) => rest.push(c),
            None => rest,
        }
    }
}

/// All subtitle files present for a video: the language-tagged picks in
/// request order, then the untagged pick.  A path without a file name
/// has no candidates.
pub open spec fn spec_find_all(
    path: Seq<char>,
    langs: Seq<Seq<char>>,
    files: Seq<Seq<char>>,
) -> Seq<Seq<char>> {
    if file_name_of(path).len() == 0 {
        Seq::empty()
    } else {
        let base = base_of(path);
        picks_for_langs(base, langs, files) + match first_generic_match(base, files) {
            Some(c) => seq![c],
            None => Seq::<Seq<char>>::empty(),
        }
    }
}

/// A video still misses subtitles when no untagged subtitle file exists
/// and some requested language has no tagged one either.
pub open spec fn spec_video_missing(
    path: Seq<char>,
    langs: Seq<Seq<char>>,
    files: Seq<Seq<char>>,
) -> bool {
    &&& file_name_of(path).len() > 0
    &&& first_generic_match(base_of(path), files) is None
    &&& exists|i: int|
        0 <= i < langs.len() && first_lang_match(base_of(path), langs[i], files) is None
}

/// The second comma-separated field of a probe line, when the line has
/// at least two fields.
pub open spec fn second_field(line: Seq<char>) -> Option<Seq<char>> {
    let c1 = index_of_char(line, ',');
    if c1 >= line.len() {
        None
    } else {
        let rest = line.subrange(c1 as int + 1, line.len() as int);
        let c2 = index_of_char(rest, ',');
        if c2 >= rest.len() {
            Some(rest)
        } else {
            Some(rest.subrange(0, c2 as int))
        }
    }
}

/// The language tag of a probe line: its second field, trimmed and
/// case-folded; nothing when the line has no second field.
pub open spec fn probe_line_lang(line: Seq<char>) -> Option<Seq<char>> {
    match second_field(line) {
        Some(f) => Some(lower_seq(trim_spaces(f))),
        None => None,
    }
}

/// The first requested code that a stream tag satisfies: the tag equals
/// the (case-folded) code or extends it, so both two- and three-letter
/// tags match a two-letter request.
pub open spec fn matched_request(tag: Seq<char>, reqs: Seq<Seq<char>>) -> Option<Seq<char>>
    decreases reqs.len(),
{
    if reqs.len() == 0 {
        None
    } else if tag == lower_seq(reqs[0]) || starts_with_seq(tag, lower_seq(reqs[0])) {
        Some(reqs[0])
    } else {
        matched_request(tag, reqs.drop_first())
    }
}

/// The requested code matched by the first probe output line whose
/// stream tag satisfies one.
pub open spec fn spec_embedded_match(out: Seq<char>, reqs: Seq<Seq<char>>) -> Option<Seq<char>>
    decreases out.len(),
{
    let e = index_of_char(out, '\n');
    let line = if e >= out.len() {
        out
    } else {
        out.subrange(0, e as int)
    };
    let here = match probe_line_lang(line) {
        Some(tag) => matched_request(tag, reqs),
        None => None,
    };
    if here is Some {
        here
    } else if e >= out.len() {
        None
    } else {
        spec_embedded_match(out.subrange(e as int + 1, out.len() as int), reqs)
    }
}

/// The second comma-separated field of a probe line.
fn second_field_exec(line: &str) -> (r: Option<String>)
    ensures
        opt_string_view(r) == second_field(line@),
{
    let len = line.unicode_len();
    let c1 = find_char(line, ',');
    if c1 >= len {
        return None;
    }
    let rest = line.substring_char(c1 + 1, len);
    let rlen = len - (c1 + 1);
    let c2 = find_char(rest, ',');
    if c2 >= rlen {
        Some(String::from_str(rest))
    } else {
        Some(String::from_str(rest.substring_char(0, c2)))
    }
}

/// The first requested code from position `i` on that the tag satisfies.
fn matched_request_exec(tag: &str, reqs: &Vec<String>, i: usize) -> (r: Option<String>)
    requires
        i <= reqs@.len(),
    ensures
        opt_string_view(r) == matched_request(
            tag@,
            reqs.deep_view().subrange(i as int, reqs@.len() as int),
        ),
    decreases reqs@.len() - i,
{
    let ghost sub = reqs.deep_view().subrange(i as int, reqs@.len() as int);
    if i == reqs.len() {
        proof {
            assert(sub =~= Seq::<Seq<char>>::empty());
        }
        return None;
    }
    proof {
        assert(sub[0] == reqs.deep_view()[i as int]);
        assert(sub.drop_first() =~= reqs.deep_view().subrange(i as int + 1, reqs@.len() as int));
    }
    let low = to_lowercase(reqs[i].as_str());
    if str_eq(tag, low.as_str()) || str_starts_with(tag, low.as_str()) {
        Some(reqs[i].clone())
    } else {
        matched_request_exec(tag, reqs, i + 1)
    }
}

/// The requested code matched by the first matching probe line.
fn embedded_match_rec(output: &str, reqs: &Vec<String>) -> (r: Option<String>)
    ensures
        opt_string_view(r) == spec_embedded_match(output@, reqs.deep_view()),
    decreases output@.len(),
{
    let len = output.unicode_len();
    let e = find_char(output, '\n');
    let line = if e >= len {
        output
    } else {
        output.substring_char(0, e)
    };
    let here = match second_field_exec(line) {
        Some(f) => {
            let trimmed = trim_spaces_exec(f.as_str());
            let tag = to_lowercase(trimmed.as_str());
            matched_request_exec(tag.as_str(), reqs, 0)
        },
        None => None,
    };
    proof {
        assert(reqs.deep_view().subrange(0, reqs@.len() as int) =~= reqs.deep_view());
    }
    match here {
        Some(req) => Some(req),
        None => {
            if e >= len {
                None
            } else {
                embedded_match_rec(output.substring_char(e + 1, len), reqs)
            }
        },
    }
}

/// The videos a scan selects for fetching: all of them when existing
/// subtitles are to be overwritten, otherwise those still missing one.
/// `listings[i]` is the directory listing next to `videos[i]`.
pub open spec fn spec_scan_targets(
    videos: Seq<Seq<char>>,
    langs: Seq<Seq<char>>,
    listings: Seq<Seq<Seq<char>>>,
    overwrite: bool,
) -> Seq<Seq<char>>
    decreases videos.len(),
{
    if videos.len() == 0 {
        Seq::empty()
    } else {
        let rest = spec_scan_targets(videos.drop_last(), langs, listings.drop_last(), overwrite);
        if overwrite || spec_video_missing(videos.last(), langs, listings.last()) {
            rest.push(videos.last())
        } else {
            rest
        }
    }
}

/// Split a path into "has a file name" and its extension-less base.
fn path_base<'a>(path: &'a str) -> (r: (bool, &'a str))
    ensures
        r.0 == (file_name_of(path@).len() > 0),
        r.1@ == base_of(path@),
{
    let len = path.unicode_len();
    let k = last_sep_end(path);
    proof {
        lemma_suffix_after_last(path@, path_sep_fn(), k as int);
    }
    let name = path.substring_char(k, len);
    let nlen = name.unicode_len();
    let d = last_dot_end(name);
    proof {
        lemma_suffix_after_last(name@, dot_fn(), d as int);
    }
    let has_name = nlen > 0;
    if d >= 2 {
        let base = path.substring_char(0, len - (nlen - d) - 1);
        (has_name, base)
    } else {
        (has_name, path)
    }
}

/// Does the directory listing contain this exact file?
fn listing_contains(files: &Vec<String>, x: &str) -> (r: bool)
    ensures
        r == files.deep_view().contains(x@),
{
    let mut i: usize = 0;
    while i < files.len()
        invariant
            0 <= i <= files@.len(),
            forall|j: int| 0 <= j < i ==> files.deep_view()[j] != x@,
        decreases files@.len() - i,
    {
        if str_eq(files[i].as_str(), x) {
            proof {
                assert(files.deep_view()[i as int] == x@);
            }
            return true;
        }
        i += 1;
    }
    proof {
        assert(forall|j: int|
            0 <= j < files.deep_view().len() ==> files.deep_view()[j] != x@);
    }
    false
}

/// The language-tagged candidate as a string.
fn lang_candidate_exec(base: &str, lang: &str, ext: &str) -> (r: String)
    ensures
        r@ == lang_candidate(base@, lang@, ext@),
{
    String::from_str(base).concat(".").concat(lang).concat(".").concat(ext)
}

/// The untagged candidate as a string.
fn generic_candidate_exec(base: &str, ext: &str) -> (r: String)
    ensures
        r@ == generic_candidate(base@, ext@),
{
    String::from_str(base).concat(".").concat(ext)
}

/// The first language-tagged candidate present in the listing.
fn first_lang_match_exec(base: &str, lang: &str, files: &Vec<String>) -> (r: Option<String>)
    ensures
        opt_string_view(r) == first_lang_match(base@, lang@, files.deep_view()),
{
    let c = lang_candidate_exec(base, lang, "srt");
    if listing_contains(files, c.as_str()) {
        return Some(c);
    }
    let c = lang_candidate_exec(base, lang, "sub");
    if listing_contains(files, c.as_str()) {
        return Some(c);
    }
    let c = lang_candidate_exec(base, lang, "ssa");
    if listing_contains(files, c.as_str()) {
        return Some(c);
    }
    let c = lang_candidate_exec(base, lang, "ass");
    if listing_contains(files, c.as_str()) {
        return Some(c);
    }
    let c = lang_candidate_exec(base, lang, "vtt");
    if listing_contains(files, c.as_str()) {
        return Some(c);
    }
    None
}

/// The first untagged candidate present in the listing.
fn first_generic_match_exec(base: &str, files: &Vec<String>) -> (r: Option<String>)
    ensures
        opt_string_view(r) == first_generic_match(base@, files.deep_view()),
{
    let c = generic_candidate_exec(base, "srt");
    if listing_contains(files, c.as_str()) {
        return Some(c);
    }
    let c = generic_candidate_exec(base, "sub");
    if listing_contains(files, c.as_str()) {
        return Some(c);
    }
    let c = generic_candidate_exec(base, "ssa");
    if listing_contains(files, c.as_str()) {
        return Some(c);
    }
    let c = generic_candidate_exec(base, "ass");
    if listing_contains(files, c.as_str()) {
        return Some(c);
    }
    let c = generic_candidate_exec(base, "vtt");
    if listing_contains(files, c.as_str()) {
        return Some(c);
    }
    None
}

/// The human-readable name of an ISO-style language code; unknown codes
/// map to themselves.
pub open spec fn spec_language_name(code: Seq<char>) -> Seq<char> {
    if code == "en"@ {
        "English"@
    } else if code == "en-us"@ {
        "English (US)"@
    } else if code == "en-gb"@ {
        "English (UK)"@
    } else if code == "fr"@ {
        "French"@
    } else if code == "fr-ca"@ {
        "French (Canada)"@
    } else if code == "es"@ {
        "Spanish"@
    } else if code == "es-mx"@ {
        "Spanish (Mexico)"@
    } else if code == "es-es"@ {
        "Spanish (Spain)"@
    } else if code == "de"@ {
        "German"@
    } else if code == "de-at"@ {
        "German (Austria)"@
    } else if code == "de-ch"@ {
        "German (Switzerland)"@
    } else if code == "it"@ {
        "Italian"@
    } else if code == "it-ch"@ {
        "Italian (Switzerland)"@
    } else if code == "pt"@ {
        "Portuguese"@
    } else if code == "pt-br"@ {
        "Portuguese (Brazil)"@
    } else if code == "pt-pt"@ {
        "Portuguese (Portugal)"@
    } else if code == "nl"@ {
        "Dutch"@
    } else if code == "nl-be"@ {
        "Dutch (Belgium)"@
    } else if code == "pl"@ {
        "Polish"@
    } else if code == "ru"@ {
        "Russian"@
    } else if code == "sv"@ {
        "Swedish"@
    } else if code == "fi"@ {
        "Finnish"@
    } else if code == "da"@ {
        "Danish"@
    } else if code == "no"@ {
        "Norwegian"@
    } else if code == "cs"@ {
        "Czech"@
    } else if code == "hu"@ {
        "Hungarian"@
    } else if code == "ro"@ {
        "Romanian"@
    } else if code == "bg"@ {
        "Bulgarian"@
    } else if code == "hr"@ {
        "Croatian"@
    } else if code == "et"@ {
        "Estonian"@
    } else if code == "el"@ {
        "Greek"@
    } else if code == "is"@ {
        "Icelandic"@
    } else if code == "lv"@ {
        "Latvian"@
    } else if code == "lt"@ {
        "Lithuanian"@
    } else if code == "mt"@ {
        "Maltese"@
    } else if code == "sk"@ {
        "Slovak"@
    } else if code == "sl"@ {
        "Slovenian"@
    } else if code == "tr"@ {
        "Turkish"@
    } else if code == "uk"@ {
        "Ukrainian"@
    } else if code == "he"@ {
        "Hebrew"@
    } else if code == "ar"@ {
        "Arabic"@
    } else if code == "ja"@ {
        "Japanese"@
    } else if code == "ko"@ {
        "Korean"@
    } else if code == "zh"@ {
        "Chinese"@
    } else if code == "zh-cn"@ {
        "Chinese (Simplified)"@
    } else if code == "zh-tw"@ {
        "Chinese (Traditional)"@
    } else if code == "th"@ {
        "Thai"@
    } else if code == "vi"@ {
        "Vietnamese"@
    } else if code == "id"@ {
        "Indonesian"@
    } else if code == "ms"@ {
        "Malay"@
    } else if code == "fil"@ {
        "Filipino/Tagalog"@
    } else if code == "bn"@ {
        "Bengali"@
    } else if code == "hi"@ {
        "Hindi"@
    } else if code == "ur"@ {
        "Urdu"@
    } else if code == "fa"@ {
        "Persian/Farsi"@
    } else if code == "af"@ {
        "Afrikaans"@
    } else if code == "sw"@ {
        "Swahili"@
    } else if code == "zu"@ {
        "Zulu"@
    } else if code == "xh"@ {
        "Xhosa"@
    } else if code == "ku"@ {
        "Kurdish"@
    } else if code == "az"@ {
        "Azerbaijani"@
    } else if code == "ka"@ {
        "Georgian"@
    } else if code == "am"@ {
        "Amharic"@
    } else if code == "ta"@ {
        "Tamil"@
    } else if code == "te"@ {
        "Telugu"@
    } else if code == "kn"@ {
        "Kannada"@
    } else if code == "ml"@ {
        "Malayalam"@
    } else if code == "gu"@ {
        "Gujarati"@
    } else if code == "pa"@ {
        "Punjabi"@
    } else if code == "or"@ {
        "Odia"@
    } else if code == "mn"@ {
        "Mongolian"@
    } else if code == "my"@ {
        "Burmese"@
    } else if code == "lo"@ {
        "Lao"@
    } else if code == "km"@ {
        "Khmer"@
    } else {
        code
    }

}

impl SubtitleUtils {
    /// Convert a language code to a human-readable name.
    pub fn language_code_to_name<'a>(code: &'a str) -> (r: &'a str)
        ensures
            r@ == spec_language_name(code@),
    {
        if crate::text::str_eq(code, "en") {
            "English"
        } else if crate::text::str_eq(code, "en-us") {
            "English (US)"
        } else if crate::text::str_eq(code, "en-gb") {
            "English (UK)"
        } else if crate::text::str_eq(code, "fr") {
            "French"
        } else if crate::text::str_eq(code, "fr-ca") {
            "French (Canada)"
        } else if crate::text::str_eq(code, "es") {
            "Spanish"
        } else if crate::text::str_eq(code, "es-mx") {
            "Spanish (Mexico)"
        } else if crate::text::str_eq(code, "es-es") {
            "Spanish (Spain)"
        } else if crate::text::str_eq(code, "de") {
            "German"
        } else if crate::text::str_eq(code, "de-at") {
            "German (Austria)"
        } else if crate::text::str_eq(code, "de-ch") {
            "German (Switzerland)"
        } else if crate::text::str_eq(code, "it") {
            "Italian"
        } else if crate::text::str_eq(code, "it-ch") {
            "Italian (Switzerland)"
        } else if crate::text::str_eq(code, "pt") {
            "Portuguese"
        } else if crate::text::str_eq(code, "pt-br") {
            "Portuguese (Brazil)"
        } else if crate::text::str_eq(code, "pt-pt") {
            "Portuguese (Portugal)"
        } else if crate::text::str_eq(code, "nl") {
            "Dutch"
        } else if crate::text::str_eq(code, "nl-be") {
            "Dutch (Belgium)"
        } else if crate::text::str_eq(code, "pl") {
            "Polish"
        } else if crate::text::str_eq(code, "ru") {
            "Russian"
        } else if crate::text::str_eq(code, "sv") {
            "Swedish"
        } else if crate::text::str_eq(code, "fi") {
            "Finnish"
        } else if crate::text::str_eq(code, "da") {
            "Danish"
        } else if crate::text::str_eq(code, "no") {
            "Norwegian"
        } else if crate::text::str_eq(code, "cs") {
            "Czech"
        } else if crate::text::str_eq(code, "hu") {
            "Hungarian"
        } else if crate::text::str_eq(code, "ro") {
            "Romanian"
        } else if crate::text::str_eq(code, "bg") {
            "Bulgarian"
        } else if crate::text::str_eq(code, "hr") {
            "Croatian"
        } else if crate::text::str_eq(code, "et") {
            "Estonian"
        } else if crate::text::str_eq(code, "el") {
            "Greek"
        } else if crate::text::str_eq(code, "is") {
            "Icelandic"
        } else if crate::text::str_eq(code, "lv") {
            "Latvian"
        } else if crate::text::str_eq(code, "lt") {
            "Lithuanian"
        } else if crate::text::str_eq(code, "mt") {
            "Maltese"
        } else if crate::text::str_eq(code, "sk") {
            "Slovak"
        } else if crate::text::str_eq(code, "sl") {
            "Slovenian"
        } else if crate::text::str_eq(code, "tr") {
            "Turkish"
        } else if crate::text::str_eq(code, "uk") {
            "Ukrainian"
        } else if crate::text::str_eq(code, "he") {
            "Hebrew"
        } else if crate::text::str_eq(code, "ar") {
            "Arabic"
        } else if crate::text::str_eq(code, "ja") {
            "Japanese"
        } else if crate::text::str_eq(code, "ko") {
            "Korean"
        } else if crate::text::str_eq(code, "zh") {
            "Chinese"
        } else if crate::text::str_eq(code, "zh-cn") {
            "Chinese (Simplified)"
        } else if crate::text::str_eq(code, "zh-tw") {
            "Chinese (Traditional)"
        } else if crate::text::str_eq(code, "th") {
            "Thai"
        } else if crate::text::str_eq(code, "vi") {
            "Vietnamese"
        } else if crate::text::str_eq(code, "id") {
            "Indonesian"
        } else if crate::text::str_eq(code, "ms") {
            "Malay"
        } else if crate::text::str_eq(code, "fil") {
            "Filipino/Tagalog"
        } else if crate::text::str_eq(code, "bn") {
            "Bengali"
        } else if crate::text::str_eq(code, "hi") {
            "Hindi"
        } else if crate::text::str_eq(code, "ur") {
            "Urdu"
        } else if crate::text::str_eq(code, "fa") {
            "Persian/Farsi"
        } else if crate::text::str_eq(code, "af") {
            "Afrikaans"
        } else if crate::text::str_eq(code, "sw") {
            "Swahili"
        } else if crate::text::str_eq(code, "zu") {
            "Zulu"
        } else if crate::text::str_eq(code, "xh") {
            "Xhosa"
        } else if crate::text::str_eq(code, "ku") {
            "Kurdish"
        } else if crate::text::str_eq(code, "az") {
            "Azerbaijani"
        } else if crate::text::str_eq(code, "ka") {
            "Georgian"
        } else if crate::text::str_eq(code, "am") {
            "Amharic"
        } else if crate::text::str_eq(code, "ta") {
            "Tamil"
        } else if crate::text::str_eq(code, "te") {
            "Telugu"
        } else if crate::text::str_eq(code, "kn") {
            "Kannada"
        } else if crate::text::str_eq(code, "ml") {
            "Malayalam"
        } else if crate::text::str_eq(code, "gu") {
            "Gujarati"
        } else if crate::text::str_eq(code, "pa") {
            "Punjabi"
        } else if crate::text::str_eq(code, "or") {
            "Odia"
        } else if crate::text::str_eq(code, "mn") {
            "Mongolian"
        } else if crate::text::str_eq(code, "my") {
            "Burmese"
        } else if crate::text::str_eq(code, "lo") {
            "Lao"
        } else if crate::text::str_eq(code, "km") {
            "Khmer"
        } else {
            code
        }
    }

    /// Select the scan's targets from the found videos: all of them when
    /// overwriting, otherwise the ones still missing a subtitle for some
    /// selected language.  `listings[i]` lists the files next to
    /// `videos[i]`.
    pub fn select_scan_targets(
        videos: &Vec<String>,
        langs: &Vec<String>,
        listings: &Vec<Vec<String>>,
        overwrite: bool,
    ) -> (r: Vec<String>)
        requires
            videos@.len() == listings@.len(),
        ensures
            r.deep_view() == spec_scan_targets(
                videos.deep_view(),
                langs.deep_view(),
                listings.deep_view(),
                overwrite,
            ),
    {
        let ghost gv = videos.deep_view();
        let ghost gl = listings.deep_view();
        let mut r: Vec<String> = Vec::new();
        let mut i: usize = 0;
        while i < videos.len()
            invariant
                0 <= i <= videos@.len(),
                videos@.len() == listings@.len(),
                gv == videos.deep_view(),
                gl == listings.deep_view(),
                r.deep_view() =~= spec_scan_targets(
                    gv.subrange(0, i as int),
                    langs.deep_view(),
                    gl.subrange(0, i as int),
                    overwrite,
                ),
            decreases videos@.len() - i,
        {
            proof {
                assert(gv.subrange(0, i + 1).drop_last() =~= gv.subrange(0, i as int));
                assert(gl.subrange(0, i + 1).drop_last() =~= gl.subrange(0, i as int));
                assert(gv.subrange(0, i + 1).last() == gv[i as int]);
                assert(gl.subrange(0, i + 1).last() == gl[i as int]);
            }
            if overwrite || SubtitleUtils::video_missing_subtitle(
                videos[i].as_str(),
                langs,
                &listings[i],
            ) {
                let ghost prev = r.deep_view();
                let c = videos[i].clone();
                r.push(c);
                proof {
                    assert(r.deep_view() =~= prev.push(gv[i as int]));
                }
            }
            i += 1;
        }
        proof {
            assert(gv.subrange(0, gv.len() as int) =~= gv);
            assert(gl.subrange(0, gl.len() as int) =~= gl);
        }
        r
    }

    /// Read the embedded-subtitle probe's output (one `index,language`
    /// line per subtitle stream) and name the first requested language
    /// that an embedded stream satisfies.
    pub fn embedded_language_match(probe_output: &str, langs: &Vec<String>) -> (r: Option<String>)
        ensures
            opt_string_view(r) == match spec_embedded_match(probe_output@, langs.deep_view()) {
                Some(req) => Some(spec_language_name(req)),
                None => None,
            },
    {
        match embedded_match_rec(probe_output, langs) {
            Some(req) => Some(
                String::from_str(SubtitleUtils::language_code_to_name(req.as_str())),
            ),
            None => None,
        }
    }

    /// Find all subtitle files for a video and a set of languages within
    /// the given directory listing: per language the first candidate in
    /// extension order, then the first untagged candidate.
    pub fn find_all_subtitle_files(
        video_path: &str,
        langs: &Vec<String>,
        folder_files: &Vec<String>,
    ) -> (r: Vec<String>)
        ensures
            r.deep_view() == spec_find_all(
                video_path@,
                langs.deep_view(),
                folder_files.deep_view(),
            ),
    {
        let (has_name, base) = path_base(video_path);
        let mut out: Vec<String> = Vec::new();
        if !has_name {
            proof {
                assert(out.deep_view() =~= spec_find_all(
                    video_path@,
                    langs.deep_view(),
                    folder_files.deep_view(),
                ));
            }
            return out;
        }
        let ghost gbase = base_of(video_path@);
        let ghost glangs = langs.deep_view();
        let ghost gfiles = folder_files.deep_view();
        let mut i: usize = 0;
        while i < langs.len()
            invariant
                0 <= i <= langs@.len(),
                glangs == langs.deep_view(),
                gfiles == folder_files.deep_view(),
                gbase == base@,
                out.deep_view() =~= picks_for_langs(gbase, glangs.subrange(0, i as int), gfiles),
            decreases langs@.len() - i,
        {
            let ghost prev = out.deep_view();
            proof {
                assert(glangs.subrange(0, i + 1).drop_last() =~= glangs.subrange(0, i as int));
                assert(glangs.subrange(0, i + 1).last() == glangs[i as int]);
            }
            match first_lang_match_exec(base, langs[i].as_str(), folder_files) {
                Some(c) => {
                    out.push(c);
                    proof {
                        assert(out.deep_view() =~= prev.push(
                            first_lang_match(gbase, glangs[i as int], gfiles)->0,
                        ));
                    }
                },
                None => {},
            }
            i += 1;
        }
        proof {
            assert(glangs.subrange(0, glangs.len() as int) =~= glangs);
        }
        let ghost picks = out.deep_view();
        match first_generic_match_exec(base, folder_files) {
            Some(c) => {
                out.push(c);
                proof {
                    assert(out.deep_view() =~= picks.push(first_generic_match(gbase, gfiles)->0));
                    assert(out.deep_view() =~= spec_find_all(video_path@, glangs, gfiles));
                }
            },
            None => {
                proof {
                    assert(out.deep_view() =~= spec_find_all(video_path@, glangs, gfiles));
                }
            },
        }
        out
    }

    /// Check whether a video is still missing subtitles for any of the
    /// selected languages, given the directory listing.
    pub fn video_missing_subtitle(
        video_path: &str,
        selected_languages: &Vec<String>,
        folder_files: &Vec<String>,
    ) -> (r: bool)
        ensures
            r == spec_video_missing(
                video_path@,
                selected_languages.deep_view(),
                folder_files.deep_view(),
            ),
    {
        let (has_name, base) = path_base(video_path);
        if !has_name {
            return false;
        }
        match first_generic_match_exec(base, folder_files) {
            Some(_) => false,
            None => {
                let ghost glangs = selected_languages.deep_view();
                let ghost gfiles = folder_files.deep_view();
                proof {
                    assert(file_name_of(video_path@).len() > 0);
                    assert(first_generic_match(base_of(video_path@), gfiles) is None);
                }
                let mut i: usize = 0;
                while i < selected_languages.len()
                    invariant
                        0 <= i <= selected_languages@.len(),
                        glangs == selected_languages.deep_view(),
                        gfiles == folder_files.deep_view(),
                        base@ == base_of(video_path@),
                        file_name_of(video_path@).len() > 0,
                        first_generic_match(base_of(video_path@), gfiles) is None,
                        forall|j: int|
                            0 <= j < i ==> !(first_lang_match(base@, glangs[j], gfiles) is None),
                    decreases selected_languages@.len() - i,
                {
                    match first_lang_match_exec(base, selected_languages[i].as_str(), folder_files) {
                        Some(_) => {},
                        None => {
                            proof {
                                assert(first_lang_match(
                                    base_of(video_path@),
                                    glangs[i as int],
                                    gfiles,
                                ) is None);
                                assert(exists|j: int|
                                    0 <= j < glangs.len() && first_lang_match(
                                        base_of(video_path@),
                                        glangs[j],
                                        gfiles,
                                    ) is None);
                            }
                            return true;
                        },
                    }
                    i += 1;
                }
                false
            },
        }
    }
}

} // verus!
