//! Pattern matching on bytes, done by the `regex` crate.

use vstd::prelude::*;

verus! {

/// Outcome of searching `haystack` for the regular expression `pattern`:
/// `None` where the expression is not accepted, otherwise whether some part of
/// `haystack` matches it.
pub uninterp spec fn pattern_match(pattern: Seq<char>, haystack: Seq<u8>) -> Option<bool>;

/// Builds `regex::bytes::Regex::new(pattern)` and asks `Regex::is_match` whether
/// the expression matches anywhere in `haystack`. Nothing is proved of it: the
/// contract only names the outcome, which depends on the two arguments alone.
#[verifier::external_body]
pub(crate) fn search(pattern: &str, haystack: &[u8]) -> (r: Option<bool>)
    ensures
        r == pattern_match(pattern@, haystack@),
{
    match regex::bytes::Regex::new(pattern) {
        Ok(re) => Some(re.is_match(haystack)),
        Err(_) => None,
    }
}

} // verus!
