//! Searching text with regular expressions, which the `regex` crate compiles
//! and runs. What a search finds is taken from the crate on trust; the rules
//! that search are verified against that.

use regex::Regex;
use vstd::prelude::*;

verus! {

/// Whether `Regex::new` accepts `pattern`: it is a valid regular expression,
/// and compiles within the default size limit.
pub uninterp spec fn is_regex(pattern: Seq<char>) -> bool;

/// Whether the regular expression `pattern` matches anywhere in `text`, as
/// `Regex::is_match` decides it.
pub uninterp spec fn regex_matches(pattern: Seq<char>, text: Seq<char>) -> bool;

/// `Regex::new` on `pattern`, then `Regex::is_match` on `text`. The result is
/// `None` where `pattern` does not compile, and else tells whether the compiled
/// expression matches anywhere in `text`. Both are functions of the two texts
/// alone.
#[verifier::external_body]
fn search(pattern: &str, text: &str) -> (found: Option<bool>)
    ensures
        found is Some <==> is_regex(pattern@),
        found matches Some(b) ==> b == regex_matches(pattern@, text@),
{
    match Regex::new(pattern) {
        Ok(re) => Some(re.is_match(text)),
        Err(_) => None,
    }
}

/// Whether `pattern` is a regular expression that compiles.
pub fn compiles(pattern: &str) -> (ok: bool)
    ensures
        ok == is_regex(pattern@),
{
    search(pattern, "").is_some()
}

/// Whether `pattern` matches anywhere in `text`.
pub fn is_match(pattern: &str, text: &str) -> (found: bool)
    requires
        is_regex(pattern@),
    ensures
        found == regex_matches(pattern@, text@),
{
    match search(pattern, text) {
        Some(b) => b,
        None => false,
    }
}

/// Whether `pattern` matches anywhere in `text`; `None` where `pattern` is no
/// regular expression.
pub fn try_match(pattern: &str, text: &str) -> (found: Option<bool>)
    ensures
        found is Some <==> is_regex(pattern@),
        found matches Some(b) ==> b == regex_matches(pattern@, text@),
{
    if compiles(pattern) {
        Some(is_match(pattern, text))
    } else {
        None
    }
}

} // verus!
