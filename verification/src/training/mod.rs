//! Preparation of training data for the tagging model.
//!
//! Labelled token sequences are read from a line-oriented text format,
//! tokens are encoded by character, described by a few surface features,
//! and release names are labelled automatically from what the heuristic
//! engine extracts.

pub mod align;
pub mod data;
pub mod features;

pub use align::{align_by_clues, align_tags, strip_prefix};
pub use data::{CharVocab, TrainingExample, parse_bio_dataset};
pub use features::{TokenFeatures, features_from, token_features};
