//! Metadata extraction for anime release names.
//!
//! A release name such as `[Group] Title - 12 (1080p) [ABCD1234].mkv` is
//! turned into a structured record, either by an ordered battery of pattern
//! matchers or by decoding per-token tag scores under a fixed tag grammar.
//! Candidate files can then be ranked by a weighted quality score.
//!
//! Real-valued quantities (confidence, quality scores, weights) are held as
//! integers in millionths, so that every result is exact and reproducible.

pub mod error;
pub mod fixed;
pub mod kitsu;
pub mod parser;
pub mod scoring;
pub mod text;
pub mod training;
pub mod types;

pub use error::{Result, ZantetsuError};
pub use parser::{
    BioTag,
    HeuristicParser,
    ModelOutput,
    NeuralParser,
    Parser,
    ParserConfig,
    Tokenizer,
    ViterbiDecoder,
};
pub use scoring::{ClientContext, DeviceType, NetworkQuality, QualityProfile, QualityScores};
pub use types::{
    AudioCodec,
    EpisodeSpec,
    MediaSource,
    ParseMode,
    ParseResult,
    Resolution,
    VideoCodec,
};
