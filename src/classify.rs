use vstd::prelude::*;

use crate::paths::{eq_ignore_ascii_case, matches_ignoring_case};

verus! {

/// The content type of an extension in the fixed table, compared without
/// regard to ASCII letter case.
pub open spec fn table_type(e: Seq<char>) -> Option<Seq<char>> {
    if eq_ignore_ascii_case(e, "jpg"@) || eq_ignore_ascii_case(e, "jpeg"@) {
        Some("image/jpeg"@)
    } else if eq_ignore_ascii_case(e, "png"@) {
        Some("image/png"@)
    } else if eq_ignore_ascii_case(e, "gif"@) {
        Some("image/gif"@)
    } else if eq_ignore_ascii_case(e, "svg"@) {
        Some("image/svg+xml"@)
    } else if eq_ignore_ascii_case(e, "webp"@) {
        Some("image/webp"@)
    } else if eq_ignore_ascii_case(e, "ico"@) {
        Some("image/x-icon"@)
    } else if eq_ignore_ascii_case(e, "bmp"@) {
        Some("image/bmp"@)
    } else if eq_ignore_ascii_case(e, "tiff"@) {
        Some("image/tiff"@)
    } else if eq_ignore_ascii_case(e, "avif"@) {
        Some("image/avif"@)
    } else if eq_ignore_ascii_case(e, "css"@) {
        Some("text/css"@)
    } else if eq_ignore_ascii_case(e, "js"@) || eq_ignore_ascii_case(e, "mjs"@) {
        Some("text/javascript"@)
    } else if eq_ignore_ascii_case(e, "wasm"@) {
        Some("application/wasm"@)
    } else if eq_ignore_ascii_case(e, "ttf"@) {
        Some("font/ttf"@)
    } else if eq_ignore_ascii_case(e, "otf"@) {
        Some("font/otf"@)
    } else if eq_ignore_ascii_case(e, "woff"@) {
        Some("font/woff"@)
    } else if eq_ignore_ascii_case(e, "woff2"@) {
        Some("font/woff2"@)
    } else if eq_ignore_ascii_case(e, "eot"@) {
        Some("application/vnd.ms-fontobject"@)
    } else if eq_ignore_ascii_case(e, "mp3"@) {
        Some("audio/mpeg"@)
    } else if eq_ignore_ascii_case(e, "wav"@) {
        Some("audio/wav"@)
    } else if eq_ignore_ascii_case(e, "ogg"@) {
        Some("audio/ogg"@)
    } else if eq_ignore_ascii_case(e, "m4a"@) {
        Some("audio/mp4"@)
    } else if eq_ignore_ascii_case(e, "flac"@) {
        Some("audio/flac"@)
    } else if eq_ignore_ascii_case(e, "mp4"@) {
        Some("video/mp4"@)
    } else if eq_ignore_ascii_case(e, "webm"@) {
        Some("video/webm"@)
    } else if eq_ignore_ascii_case(e, "mov"@) {
        Some("video/quicktime"@)
    } else if eq_ignore_ascii_case(e, "zip"@) {
        Some("application/zip"@)
    } else if eq_ignore_ascii_case(e, "tar"@) {
        Some("application/x-tar"@)
    } else if eq_ignore_ascii_case(e, "gz"@) {
        Some("application/gzip"@)
    } else if eq_ignore_ascii_case(e, "pdf"@) {
        Some("application/pdf"@)
    } else if eq_ignore_ascii_case(e, "txt"@) {
        Some("text/plain"@)
    } else if eq_ignore_ascii_case(e, "csv"@) {
        Some("text/csv"@)
    } else if eq_ignore_ascii_case(e, "xml"@) {
        Some("application/xml"@)
    } else if eq_ignore_ascii_case(e, "json"@) {
        Some("application/json"@)
    } else {
        None
    }
}

/// The first MIME type that the `mime_guess` crate records for an extension.
pub uninterp spec fn guessed_type(ext: Seq<char>) -> Option<Seq<char>>;

/// The content type of a file with extension `e`: the table's entry, else
/// the guess of `mime_guess`, else `application/octet-stream`.
pub open spec fn classify_spec(e: Seq<char>) -> Seq<char> {
    match table_type(e) {
        Some(t) => t,
        None => match guessed_type(e) {
            Some(t) => t,
            None => "application/octet-stream"@,
        },
    }
}

/// Relies on `mime_guess::get_mime_type_str`: the first MIME type of its
/// static table for the extension (matched without regard to case), and
/// none for the empty extension.
#[verifier::external_body]
fn guess_type(ext: &str) -> (r: Option<String>)
    ensures
        r is Some <==> guessed_type(ext@) is Some,
        r is Some ==> r->0@ == guessed_type(ext@)->0,
        ext@.len() == 0 ==> r is None,
{
    mime_guess::get_mime_type_str(ext).map(String::from)
}

fn table_lookup(ext: &str) -> (r: Option<&'static str>)
    ensures
        r is Some <==> table_type(ext@) is Some,
        r is Some ==> r->0@ == table_type(ext@)->0,
{
    if matches_ignoring_case(ext, "jpg") || matches_ignoring_case(ext, "jpeg") {
        Some("image/jpeg")
    } else if matches_ignoring_case(ext, "png") {
        Some("image/png")
    } else if matches_ignoring_case(ext, "gif") {
        Some("image/gif")
    } else if matches_ignoring_case(ext, "svg") {
        Some("image/svg+xml")
    } else if matches_ignoring_case(ext, "webp") {
        Some("image/webp")
    } else if matches_ignoring_case(ext, "ico") {
        Some("image/x-icon")
    } else if matches_ignoring_case(ext, "bmp") {
        Some("image/bmp")
    } else if matches_ignoring_case(ext, "tiff") {
        Some("image/tiff")
    } else if matches_ignoring_case(ext, "avif") {
        Some("image/avif")
    } else if matches_ignoring_case(ext, "css") {
        Some("text/css")
    } else if matches_ignoring_case(ext, "js") || matches_ignoring_case(ext, "mjs") {
        Some("text/javascript")
    } else if matches_ignoring_case(ext, "wasm") {
        Some("application/wasm")
    } else if matches_ignoring_case(ext, "ttf") {
        Some("font/ttf")
    } else if matches_ignoring_case(ext, "otf") {
        Some("font/otf")
    } else if matches_ignoring_case(ext, "woff") {
        Some("font/woff")
    } else if matches_ignoring_case(ext, "woff2") {
        Some("font/woff2")
    } else if matches_ignoring_case(ext, "eot") {
        Some("application/vnd.ms-fontobject")
    } else if matches_ignoring_case(ext, "mp3") {
        Some("audio/mpeg")
    } else if matches_ignoring_case(ext, "wav") {
        Some("audio/wav")
    } else if matches_ignoring_case(ext, "ogg") {
        Some("audio/ogg")
    } else if matches_ignoring_case(ext, "m4a") {
        Some("audio/mp4")
    } else if matches_ignoring_case(ext, "flac") {
        Some("audio/flac")
    } else if matches_ignoring_case(ext, "mp4") {
        Some("video/mp4")
    } else if matches_ignoring_case(ext, "webm") {
        Some("video/webm")
    } else if matches_ignoring_case(ext, "mov") {
        Some("video/quicktime")
    } else if matches_ignoring_case(ext, "zip") {
        Some("application/zip")
    } else if matches_ignoring_case(ext, "tar") {
        Some("application/x-tar")
    } else if matches_ignoring_case(ext, "gz") {
        Some("application/gzip")
    } else if matches_ignoring_case(ext, "pdf") {
        Some("application/pdf")
    } else if matches_ignoring_case(ext, "txt") {
        Some("text/plain")
    } else if matches_ignoring_case(ext, "csv") {
        Some("text/csv")
    } else if matches_ignoring_case(ext, "xml") {
        Some("application/xml")
    } else if matches_ignoring_case(ext, "json") {
        Some("application/json")
    } else {
        None
    }
}

/// The content type of a static file with extension `ext`.
pub fn classify(ext: &str) -> (r: String)
    ensures
        r@ == classify_spec(ext@),
{
    match table_lookup(ext) {
        Some(t) => String::from_str(t),
        None => match guess_type(ext) {
            Some(t) => t,
            None => String::from_str("application/octet-stream"),
        },
    }
}

/// Classification depends on the extension alone: two calls on equal
/// extensions agree, and an extension of the table gets the table's type
/// whatever `mime_guess` would say.
pub proof fn lemma_classify_deterministic(a: Seq<char>, b: Seq<char>)
    requires
        a == b,
    ensures
        classify_spec(a) == classify_spec(b),
        table_type(a) is Some ==> classify_spec(a) == table_type(a)->0,
{
}

} // verus!
