//! Path decoding for download and file-open handling: percent-decoding
//! through the urlencoding crate, then stripping a `file://` scheme.

use vstd::prelude::*;
use crate::strutil::{spec_starts_with, starts_with_lit};

verus! {

/// What percent-decoding a text yields; `None` when the decoded bytes are
/// not valid UTF-8.
pub uninterp spec fn url_decoded(s: Seq<char>) -> Option<Seq<char>>;

/// Relies on urlencoding::decode: replaces each `%xx` pair by its byte and
/// re-validates the result as UTF-8. The result depends on the input alone.
#[verifier::external_body]
pub fn url_decode(s: &str) -> (r: Option<String>)
    ensures
        match r {
            Some(d) => url_decoded(s@) == Some(d@),
            None => url_decoded(s@) is None,
        },
{
    match urlencoding::decode(s) {
        Ok(cow) => Some(cow.into_owned()),
        Err(_) => None,
    }
}

/// Stripping a `file://` scheme from a decoded path: a `file:///C:`-style
/// form (a drive letter, recognized by the colon in the tenth place) loses
/// the whole `file:///` prefix; any other `file://` form keeps one leading
/// slash; a path without the scheme is kept whole.
pub open spec fn spec_strip_file_scheme(d: Seq<char>) -> Seq<char> {
    if spec_starts_with(d, "file://"@) {
        if d.len() >= 10 && d[9] == ':' {
            d.subrange(8, d.len() as int)
        } else {
            d.subrange(6, d.len() as int)
        }
    } else {
        d
    }
}

/// A download or file-open path as the native side reports it. Decoding
/// only tests for the `file://` scheme: a scheme-carrying path is decoded
/// and stripped, while any other path is kept verbatim, percent-escapes
/// and all (a download saved under a literal `%xx` name keeps that name).
pub open spec fn spec_decode_path(s: Seq<char>) -> Option<Seq<char>> {
    match url_decoded(s) {
        Some(d) => if spec_starts_with(d, "file://"@) {
            Some(spec_strip_file_scheme(d))
        } else {
            Some(s)
        },
        None => None,
    }
}

/// Resolves a reported path; `None` when it is not valid percent-encoded
/// UTF-8.
pub fn decode_path(path: &str) -> (r: Option<String>)
    ensures
        match r {
            Some(p) => spec_decode_path(path@) == Some(p@),
            None => spec_decode_path(path@) is None,
        },
{
    let decoded = match url_decode(path) {
        Some(d) => d,
        None => {
            return None;
        },
    };
    let ds = decoded.as_str();
    let len = ds.unicode_len();
    if starts_with_lit(ds, "file://") {
        proof {
            reveal_strlit("file://");
        }
        if len >= 10 && ds.get_char(9) == ':' {
            let tail = ds.substring_char(8, len);
            Some(String::from_str(tail))
        } else {
            let tail = ds.substring_char(6, len);
            Some(String::from_str(tail))
        }
    } else {
        Some(String::from_str(path))
    }
}

} // verus!
