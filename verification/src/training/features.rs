//! Surface features of a token.
//!
//! The tagging model sees a token through nine yes-or-no features: how the
//! token is written, whether it looks like an episode or a quality marker,
//! and whether its neighbours open a bracket.

use vstd::prelude::*;
use crate::text::{
    byte_length,
    char_is_alphabetic,
    char_is_ascii_digit,
    char_is_uppercase,
    chars_are,
    chars_contain,
    chars_of,
    is_alphabetic,
    is_ascii_digit,
    is_uppercase,
    lowercase_of,
    occurs_in,
    to_lowercase,
    utf8_len,
};

verus! {

/// The features of one token in its context.
#[derive(Debug, Clone, Copy, PartialEq, Eq)]
pub struct TokenFeatures {
    /// Every letter of the token is an upper-case one.
    pub all_caps: bool,
    /// The token starts with an opening bracket or parenthesis.
    pub bracket_start: bool,
    /// The token ends with a closing bracket or parenthesis.
    pub bracket_end: bool,
    /// The token looks like an episode or season marker, or is a number.
    pub episode_like: bool,
    /// The token names a resolution or a source.
    pub quality_like: bool,
    /// The token holds a digit.
    pub has_digit: bool,
    /// The token is longer than three bytes.
    pub long_token: bool,
    /// The token before this one starts with an opening bracket.
    pub prev_bracket_start: bool,
    /// The token behind this one starts with an opening bracket.
    pub next_bracket_start: bool,
}

/// Whether a text starts with `[` or `(`.
pub open spec fn opens_bracket(s: Seq<char>) -> bool {
    s.len() > 0 && (s[0] == '[' || s[0] == '(')
}

/// Whether a text ends with `]` or `)`.
pub open spec fn closes_bracket(s: Seq<char>) -> bool {
    s.len() > 0 && (s.last() == ']' || s.last() == ')')
}

/// Whether every letter of a text is an upper-case one.
pub open spec fn all_caps(s: Seq<char>) -> bool {
    forall|i: int| 0 <= i < s.len() ==> !is_alphabetic(#[trigger] s[i]) || is_uppercase(s[i])
}

/// Whether every character of a text is an ASCII digit.
pub open spec fn only_digits(s: Seq<char>) -> bool {
    forall|i: int| 0 <= i < s.len() ==> is_ascii_digit(#[trigger] s[i])
}

/// Whether a text holds an ASCII digit.
pub open spec fn some_digit(s: Seq<char>) -> bool {
    exists|i: int| 0 <= i < s.len() && is_ascii_digit(#[trigger] s[i])
}

/// Whether an optional neighbour starts with an opening bracket.
pub open spec fn neighbour_opens(neighbour: Option<&str>) -> bool {
    match neighbour {
        Some(n) => opens_bracket(n@),
        None => false,
    }
}

/// The features of a token between its neighbours.
pub open spec fn spec_features(
    token: Seq<char>,
    prev_token: Option<&str>,
    next_token: Option<&str>,
) -> TokenFeatures {
    features_given(token, lowercase_of(token), prev_token, next_token)
}

/// The features of a token with a given lower-case form between its
/// neighbours.
pub open spec fn features_given(
    token: Seq<char>,
    lower: Seq<char>,
    prev_token: Option<&str>,
    next_token: Option<&str>,
) -> TokenFeatures {
    TokenFeatures {
        all_caps: all_caps(token),
        bracket_start: opens_bracket(token),
        bracket_end: closes_bracket(token),
        episode_like: occurs_in(lower, "e0"@) || occurs_in(lower, "s0"@) || only_digits(lower),
        quality_like: occurs_in(lower, "720p"@) || occurs_in(lower, "1080p"@) || occurs_in(
            lower,
            "480p"@,
        ) || lower == "bd"@ || lower == "web"@,
        has_digit: some_digit(token),
        long_token: utf8_len(token) > 3,
        prev_bracket_start: neighbour_opens(prev_token),
        next_bracket_start: neighbour_opens(next_token),
    }
}

/// Whether the characters start with `[` or `(`.
pub fn starts_bracket(chars: &Vec<char>) -> (b: bool)
    ensures
        b == opens_bracket(chars@),
{
    chars.len() > 0 && (chars[0] == '[' || chars[0] == '(')
}

/// Whether the characters end with `]` or `)`.
pub fn ends_bracket(chars: &Vec<char>) -> (b: bool)
    ensures
        b == closes_bracket(chars@),
{
    chars.len() > 0 && (chars[chars.len() - 1] == ']' || chars[chars.len() - 1] == ')')
}

/// Whether every letter among the characters is an upper-case one.
pub fn is_all_caps(chars: &Vec<char>) -> (b: bool)
    ensures
        b == all_caps(chars@),
{
    let mut i: usize = 0;
    while i < chars.len()
        invariant
            i <= chars@.len(),
            forall|k: int| 0 <= k < i ==> !is_alphabetic(#[trigger] chars@[k]) || is_uppercase(chars@[k]),
        decreases chars@.len() - i,
    {
        if char_is_alphabetic(chars[i]) && !char_is_uppercase(chars[i]) {
            return false;
        }
        i += 1;
    }
    true
}

/// How many of the characters are ASCII digits: all, some or none. The
/// first of the pair says whether all are, the second whether some is.
pub fn digit_census(chars: &Vec<char>) -> (census: (bool, bool))
    ensures
        census.0 == only_digits(chars@),
        census.1 == some_digit(chars@),
{
    let mut all = true;
    let mut some = false;
    let mut i: usize = 0;
    while i < chars.len()
        invariant
            i <= chars@.len(),
            all == (forall|k: int| 0 <= k < i ==> is_ascii_digit(#[trigger] chars@[k])),
            some == (exists|k: int| 0 <= k < i && is_ascii_digit(#[trigger] chars@[k])),
        decreases chars@.len() - i,
    {
        if char_is_ascii_digit(chars[i]) {
            some = true;
        } else {
            all = false;
        }
        i += 1;
    }
    (all, some)
}

/// Whether an optional neighbour starts with an opening bracket.
fn neighbour_starts_bracket(neighbour: Option<&str>) -> (b: bool)
    ensures
        b == neighbour_opens(neighbour),
{
    match neighbour {
        Some(n) => starts_bracket(&chars_of(n)),
        None => false,
    }
}

/// The features of a token between the token before it and the token
/// behind it, where there are such.
pub fn token_features(token: &str, prev_token: Option<&str>, next_token: Option<&str>) -> (features:
    TokenFeatures)
    ensures
        features == spec_features(token@, prev_token, next_token),
{
    features_from(token, to_lowercase(token).as_str(), prev_token, next_token)
}

/// The features of a token, given its lower-case form, between the token
/// before it and the token behind it.
pub fn features_from(
    token: &str,
    lower: &str,
    prev_token: Option<&str>,
    next_token: Option<&str>,
) -> (features: TokenFeatures)
    ensures
        features == features_given(token@, lower@, prev_token, next_token),
{
    let chars = chars_of(token);
    let lower = chars_of(lower);
    let lower_census = digit_census(&lower);
    let census = digit_census(&chars);
    TokenFeatures {
        all_caps: is_all_caps(&chars),
        bracket_start: starts_bracket(&chars),
        bracket_end: ends_bracket(&chars),
        episode_like: chars_contain(&lower, "e0") || chars_contain(&lower, "s0") || lower_census.0,
        quality_like: chars_contain(&lower, "720p") || chars_contain(&lower, "1080p")
            || chars_contain(&lower, "480p") || chars_are(&lower, "bd") || chars_are(
            &lower,
            "web",
        ),
        has_digit: census.1,
        long_token: byte_length(token) > 3,
        prev_bracket_start: neighbour_starts_bracket(prev_token),
        next_bracket_start: neighbour_starts_bracket(next_token),
    }
}

} // verus!
