//! Checks on one text value that are ready to call.

use vstd::prelude::*;
use crate::matcher::{pattern_compiles, pattern_matches, Matcher};

verus! {

/// The built-in pattern of an e-mail address: a name, an `@`, and a host of
/// two or more labels joined by dots, each made of letters, digits, `_` and `-`.
pub const EMAIL_PATTERN: &'static str = "^[\\da-zA-Z_-]+@([\\da-zA-Z_-]+\\.[\\da-zA-Z_-]+)+$";

/// Whether the text is an e-mail address by the built-in pattern. The
/// built-in pattern must be one that compiles; `try_email` asks that first.
#[inline]
pub fn email(v: &str) -> (ok: bool)
    requires
        pattern_compiles(EMAIL_PATTERN@),
    ensures
        ok == pattern_matches(EMAIL_PATTERN@, v@),
{
    match_regex(EMAIL_PATTERN, v)
}

/// Whether the text is an e-mail address by the built-in pattern, or `None`
/// where the built-in pattern does not compile.
pub fn try_email(v: &str) -> (ok: Option<bool>)
    ensures
        ok is Some <==> pattern_compiles(EMAIL_PATTERN@),
        ok matches Some(found) ==> found == pattern_matches(EMAIL_PATTERN@, v@),
{
    match Matcher::compile(EMAIL_PATTERN) {
        Ok(_) => Some(email(v)),
        Err(_) => None,
    }
}

/// Whether the pattern finds a match in the text. The pattern must be one
/// that compiles; `try_match_regex` asks that first.
#[inline]
pub fn match_regex(rx: &str, v: &str) -> (ok: bool)
    requires
        pattern_compiles(rx@),
    ensures
        ok == pattern_matches(rx@, v@),
{
    match Matcher::compile(rx) {
        Ok(matcher) => matcher.is_match(v),
        Err(_) => false,
    }
}

/// Whether the pattern finds a match in the text, or `None` where the
/// pattern does not compile.
pub fn try_match_regex(rx: &str, v: &str) -> (ok: Option<bool>)
    ensures
        ok is Some <==> pattern_compiles(rx@),
        ok matches Some(found) ==> found == pattern_matches(rx@, v@),
{
    match Matcher::compile(rx) {
        Ok(_) => Some(match_regex(rx, v)),
        Err(_) => None,
    }
}

} // verus!
