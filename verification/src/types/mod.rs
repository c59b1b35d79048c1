//! The data model: episode numbering, quality enumerations and the record
//! that both extraction engines produce.

pub mod episode;
pub mod quality;
pub mod result;

pub use episode::{EpisodeSpec, episode_to_string};
pub use quality::{AudioCodec, MediaSource, ParseMode, Resolution, VideoCodec};
pub use result::ParseResult;
