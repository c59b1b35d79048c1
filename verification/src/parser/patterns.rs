//! Compiled patterns and what the extraction engine asks of them.
//!
//! Matching is done by the `regex` crate. What a match returns is a function
//! of the pattern text and the text searched, and the contracts below give
//! those results names, so that the engine's own contracts can say exactly
//! which matches it combines and how.

use vstd::prelude::*;
use regex::Regex;

verus! {

/// A compiled pattern of the `regex` crate.
#[verifier::external_type_specification]
#[verifier::external_body]
pub struct ExRegex(regex::Regex);

/// The pattern text that a compiled pattern was built from.
pub uninterp spec fn pattern_of(re: Regex) -> Seq<char>;

/// Whether the pattern compiles.
pub uninterp spec fn compiles(pattern: Seq<char>) -> bool;

/// The leftmost match of a pattern in a text: the text of each capture
/// group, group 0 being the whole match, with `None` for a group that took
/// no part. `None` if the pattern matches nowhere.
pub uninterp spec fn first_match(pattern: Seq<char>, haystack: Seq<char>) -> Option<
    Seq<Option<Seq<char>>>,
>;

/// The text with every non-overlapping match of the pattern replaced.
pub uninterp spec fn replaced_all(
    pattern: Seq<char>,
    haystack: Seq<char>,
    replacement: Seq<char>,
) -> Seq<char>;

/// The capture groups of a match as plain data.
pub open spec fn groups_view(groups: Option<Vec<Option<String>>>) -> Option<
    Seq<Option<Seq<char>>>,
> {
    match groups {
        Some(v) => Some(
            Seq::new(
                v@.len(),
                |i: int|
                    match v@[i] {
                        Some(g) => Some(g@),
                        None => None,
                    },
            ),
        ),
        None => None,
    }
}

/// Compiles a pattern.
///
/// Wraps `Regex::new`. Whether a pattern compiles depends on its text alone,
/// and the contract gives that a name. The compiled pattern remembers the
/// text that it was built from.
#[verifier::external_body]
pub(crate) fn compile(pattern: &str) -> (result: Result<Regex, regex::Error>)
    ensures
        result is Ok == compiles(pattern@),
        result matches Ok(re) ==> pattern_of(re) == pattern@,
{
    Regex::new(pattern)
}

/// The capture groups of the leftmost match of `re` in `haystack`.
///
/// Wraps `Regex::captures` and copies each group's text out. What is found
/// depends on the pattern text and the text searched alone; the contract
/// gives it a name.
#[verifier::external_body]
pub(crate) fn captures(re: &Regex, haystack: &str) -> (groups: Option<Vec<Option<String>>>)
    ensures
        groups_view(groups) == first_match(pattern_of(*re), haystack@),
{
    re.captures(haystack).map(|c| c.iter().map(|m| m.map(|m| m.as_str().to_string())).collect())
}

/// `haystack` with every non-overlapping match of `re` replaced by
/// `replacement`.
///
/// Wraps `Regex::replace_all`. The result depends on the pattern text, the
/// text searched and the replacement alone; the contract gives it a name.
#[verifier::external_body]
pub(crate) fn replace_all(re: &Regex, haystack: &str, replacement: &str) -> (out: String)
    ensures
        out@ == replaced_all(pattern_of(*re), haystack@, replacement@),
{
    re.replace_all(haystack, replacement).into_owned()
}

} // verus!
