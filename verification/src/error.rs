//! The failures that extraction and decoding can report.

use vstd::prelude::*;
use vstd::string::StringExecFns;
use crate::text::{debug_quoted, quoted};

verus! {

/// The error type of the `regex` crate, carried through unopened.
#[verifier::external_type_specification]
#[verifier::external_body]
pub struct ExRegexError(regex::Error);

/// Why an operation of this library failed.
#[derive(Debug)]
pub enum ZantetsuError {
    /// The input is empty or consists of whitespace only.
    EmptyInput,
    /// An engine found no usable signal in the input.
    ParseFailed {
        /// The input that could not be parsed.
        input: String,
    },
    /// A pattern could not be compiled.
    RegexError(regex::Error),
    /// Model weights could not be loaded.
    ModelLoadError(String),
    /// Model inference failed.
    InferenceError(String),
    /// A scoring context or profile is not usable.
    InvalidContext(String),
    /// The statistical engine could not run, or was handed scores whose shape
    /// does not fit the tag vocabulary.
    NeuralParser(String),
    /// The tensor backend reported a failure.
    CandleError(String),
}

/// Shorthand for results of this library.
pub type Result<T> = std::result::Result<T, ZantetsuError>;

/// The display text of a pattern-compilation error.
///
/// Wraps the `Display` implementation of `regex::Error`. Nothing is claimed
/// about the text.
#[verifier::external_body]
pub(crate) fn regex_error_text(e: &regex::Error) -> (text: String) {
    e.to_string()
}

impl ZantetsuError {
    /// The fixed lead-in of this error's message.
    pub open spec fn spec_prefix(&self) -> Seq<char> {
        match self {
            ZantetsuError::EmptyInput => "input is empty or whitespace-only"@,
            ZantetsuError::ParseFailed { .. } => "failed to extract metadata from input: "@,
            ZantetsuError::RegexError(_) => "regex compilation error: "@,
            ZantetsuError::ModelLoadError(_) => "failed to load model: "@,
            ZantetsuError::InferenceError(_) => "inference error: "@,
            ZantetsuError::InvalidContext(_) => "invalid scoring context: "@,
            ZantetsuError::NeuralParser(_) => "neural parser error: "@,
            ZantetsuError::CandleError(_) => "ML inference error: "@,
        }
    }

    /// The detail that follows the lead-in, where this library determines
    /// it: the text that the error carries, or the input in quoted form.
    pub open spec fn spec_detail(&self) -> Option<Seq<char>> {
        match self {
            ZantetsuError::EmptyInput => Some(Seq::empty()),
            ZantetsuError::ParseFailed { input } => Some(debug_quoted(input@)),
            ZantetsuError::ModelLoadError(m) => Some(m@),
            ZantetsuError::InferenceError(m) => Some(m@),
            ZantetsuError::InvalidContext(m) => Some(m@),
            ZantetsuError::NeuralParser(m) => Some(m@),
            ZantetsuError::CandleError(m) => Some(m@),
            _ => None,
        }
    }

    /// A human-readable message: a fixed lead-in for the kind of error,
    /// followed by the detail that the error carries. For a pattern that did
    /// not compile the detail is the text of the pattern library's error.
    pub fn to_string(&self) -> (message: String)
        ensures
            self.spec_prefix().is_prefix_of(message@),
            self.spec_detail() matches Some(detail) ==> message@ == self.spec_prefix() + detail,
    {
        match self {
            ZantetsuError::EmptyInput => {
                let message = "input is empty or whitespace-only".to_owned();
                assert(message@ + Seq::<char>::empty() =~= message@);
                message
            },
            ZantetsuError::ParseFailed { input } => {
                let detail = quoted(input.as_str());
                "failed to extract metadata from input: ".to_owned().concat(detail.as_str())
            },
            ZantetsuError::RegexError(e) => {
                let detail = regex_error_text(e);
                "regex compilation error: ".to_owned().concat(detail.as_str())
            },
            ZantetsuError::ModelLoadError(m) => "failed to load model: ".to_owned().concat(
                m.as_str(),
            ),
            ZantetsuError::InferenceError(m) => "inference error: ".to_owned().concat(m.as_str()),
            ZantetsuError::InvalidContext(m) => "invalid scoring context: ".to_owned().concat(
                m.as_str(),
            ),
            ZantetsuError::NeuralParser(m) => "neural parser error: ".to_owned().concat(
                m.as_str(),
            ),
            ZantetsuError::CandleError(m) => "ML inference error: ".to_owned().concat(m.as_str()),
        }
    }
}

} // verus!
