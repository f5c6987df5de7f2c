//! Readers for what a user types on the command line: a session cookie, and the
//! identifiers of a work, a series and a user, either bare or inside a page URL.

use vstd::prelude::*;
use vstd::string::*;

use crate::text::{
    before_first, chars_of, parse_u64, parse_u64_spec, split, split_once, split_once_seq,
    split_seq, strip_prefix, strip_prefix_seq, take_before,
};

verus! {

/// Why a command-line value was refused.
#[derive(Debug, Clone, Copy, PartialEq, Eq, Structural)]
pub enum ArgError {
    NotACookie,
    UnrecognizedIllustId,
    UnrecognizedSeriesId,
    UnrecognizedUserId,
}

impl ArgError {
    /// A sentence that tells the user what was wrong.
    pub fn message(&self) -> (r: String)
        ensures
            r@ == match self {
                ArgError::NotACookie => "provided string does not look like a valid cookie"@,
                ArgError::UnrecognizedIllustId => "cannot recognize illust id"@,
                ArgError::UnrecognizedSeriesId => "cannot recognize series id"@,
                ArgError::UnrecognizedUserId => "cannot recognize user id"@,
            },
    {
        match self {
            ArgError::NotACookie => String::from_str(
                "provided string does not look like a valid cookie",
            ),
            ArgError::UnrecognizedIllustId => String::from_str("cannot recognize illust id"),
            ArgError::UnrecognizedSeriesId => String::from_str("cannot recognize series id"),
            ArgError::UnrecognizedUserId => String::from_str("cannot recognize user id"),
        }
    }
}

/// The header name that a cookie copied from a browser may carry.
pub open spec fn cookie_header() -> Seq<char> {
    "Cookie: "@
}

/// What separates the fields of a cookie.
pub open spec fn field_separator() -> Seq<char> {
    "; "@
}

/// A cookie without its header name.
pub open spec fn stripped_cookie(c: Seq<char>) -> Seq<char> {
    strip_prefix_seq(c, cookie_header())
}

/// A cookie is accepted when it has more than five fields.
pub open spec fn looks_like_cookie(c: Seq<char>) -> bool {
    split_seq(stripped_cookie(c), field_separator()).len() > 5
}

/// Strips the header name from a cookie and checks that it has more than five fields.
pub fn sanitize_cookie(cookie: &str) -> (r: Result<String, ArgError>)
    ensures
        match r {
            Ok(s) => looks_like_cookie(cookie@) && s@ == stripped_cookie(cookie@),
            Err(e) => !looks_like_cookie(cookie@) && e == ArgError::NotACookie,
        },
{
    let c = chars_of(cookie);
    let header = chars_of("Cookie: ");
    let sep = chars_of("; ");
    proof {
        reveal_strlit("; ");
    }
    let stripped = strip_prefix(&c, &header);
    let fields = split(&stripped, &sep);
    if fields.len() > 5 {
        let n = cookie.unicode_len();
        let from = n - stripped.len();
        assert(stripped@ =~= cookie@.subrange(from as int, n as int));
        Ok(String::from_str(cookie.substring_char(from, n)))
    } else {
        Err(ArgError::NotACookie)
    }
}

/// A bare number, or else the number that follows `marker` in `s` up to `end`.
pub open spec fn id_in(s: Seq<char>, marker: Seq<char>, end: Seq<char>) -> Option<u64> {
    match parse_u64_spec(s) {
        Some(v) => Some(v),
        None => match split_once_seq(s, marker) {
            Some(parts) => parse_u64_spec(before_first(parts.1, end)),
            None => None,
        },
    }
}

/// The work identifier in a bare number or a URL `.../artworks/{id}#...`.
pub open spec fn illust_id_of(s: Seq<char>) -> Option<u64> {
    id_in(s, "artworks/"@, "#"@)
}

/// The series identifier in a bare number or a URL `.../series/{id}`.
pub open spec fn series_id_of(s: Seq<char>) -> Option<u64> {
    match parse_u64_spec(s) {
        Some(v) => Some(v),
        None => match split_once_seq(s, "series/"@) {
            Some(parts) => parse_u64_spec(parts.1),
            None => None,
        },
    }
}

/// The user identifier in a bare number or a URL `.../users/{id}/...`.
pub open spec fn user_id_of(s: Seq<char>) -> Option<u64> {
    id_in(s, "users/"@, "/"@)
}

/// The number in `s`, bare or after `marker` and up to `end`.
fn read_id(s: &str, marker: &str, end: &str) -> (r: Option<u64>)
    ensures
        r == id_in(s@, marker@, end@),
{
    let c = chars_of(s);
    match parse_u64(&c) {
        Some(v) => Some(v),
        None => {
            let m = chars_of(marker);
            match split_once(&c, &m) {
                Some(parts) => {
                    let e = chars_of(end);
                    parse_u64(&take_before(&parts.1, &e))
                },
                None => None,
            }
        },
    }
}

/// Reads a work identifier, bare or from its page URL.
pub fn parse_illust_id(s: &str) -> (r: Result<u64, ArgError>)
    ensures
        match illust_id_of(s@) {
            Some(v) => r == Ok::<u64, ArgError>(v),
            None => r == Err::<u64, ArgError>(ArgError::UnrecognizedIllustId),
        },
{
    match read_id(s, "artworks/", "#") {
        Some(v) => Ok(v),
        None => Err(ArgError::UnrecognizedIllustId),
    }
}

/// Reads a series identifier, bare or from its page URL.
pub fn parse_series_id(s: &str) -> (r: Result<u64, ArgError>)
    ensures
        match series_id_of(s@) {
            Some(v) => r == Ok::<u64, ArgError>(v),
            None => r == Err::<u64, ArgError>(ArgError::UnrecognizedSeriesId),
        },
{
    let c = chars_of(s);
    if let Some(v) = parse_u64(&c) {
        return Ok(v);
    }
    let m = chars_of("series/");
    if let Some(parts) = split_once(&c, &m) {
        if let Some(v) = parse_u64(&parts.1) {
            return Ok(v);
        }
    }
    Err(ArgError::UnrecognizedSeriesId)
}

/// Reads a user identifier, bare or from their page URL.
pub fn parse_user_id(s: &str) -> (r: Result<u64, ArgError>)
    ensures
        match user_id_of(s@) {
            Some(v) => r == Ok::<u64, ArgError>(v),
            None => r == Err::<u64, ArgError>(ArgError::UnrecognizedUserId),
        },
{
    match read_id(s, "users/", "/") {
        Some(v) => Ok(v),
        None => Err(ArgError::UnrecognizedUserId),
    }
}

} // verus!
