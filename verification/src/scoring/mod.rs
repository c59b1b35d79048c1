//! Ranking of candidate files by a weighted, context-aware quality score.

pub mod context;
pub mod profile;

pub use context::{ClientContext, DeviceType, NetworkQuality};
pub use profile::{QualityProfile, QualityScores};
