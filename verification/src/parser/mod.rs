//! Tokenisation, tagging, decoding and the two extraction engines.

pub mod bio_tags;
pub mod heuristic;
pub mod neural;
pub mod patterns;
pub mod tokenizer;
pub mod unified;
pub mod viterbi;

pub use bio_tags::{BioTag, Entity, EntityType};
pub use tokenizer::{Token, Tokenizer};
pub use viterbi::ViterbiDecoder;
pub use heuristic::HeuristicParser;
pub use neural::{ModelOutput, NeuralParser};
pub use unified::{Parser, ParserConfig, parse, parse_with_mode};
