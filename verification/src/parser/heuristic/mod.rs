//! The heuristic engine: an ordered battery of pattern matchers.
//!
//! Each field of the record has its own pattern. The order of extraction
//! matters twice: an episode range or a versioned episode is a stronger
//! signal than a plain number and is tried first, and the title is whatever
//! is left in front once everything else has been struck out.

pub mod engine;
pub mod fields;
pub mod laws;
pub mod model;

pub use engine::HeuristicParser;
pub use fields::{
    audio_codec_from,
    audio_codec_named,
    crc32_from,
    cut_group_and_extension,
    dotted_extension_from,
    episode_from,
    extension_from,
    group_chars,
    group_from,
    group_value,
    opt_episode,
    resolution_from,
    season_from,
    source_from,
    source_spelled,
    strike_year,
    title_from,
    version_from,
    video_codec_from,
    video_codec_named,
    year_from,
};
pub use laws::{
    lemma_confidence_bounded,
    lemma_parse_well_formed,
    lemma_ranges_run_upwards,
    lemma_title_is_clean,
    lemma_trailing_extension_is_cut,
};
pub use model::{
    FIRST_YEAR,
    LAST_YEAR,
    PATTERN_AUDIO_CODEC,
    PATTERN_BRACKETS,
    PATTERN_CRC32,
    PATTERN_EPISODE,
    PATTERN_EPISODE_RANGE,
    PATTERN_EPISODE_VERSION,
    PATTERN_EXTENSION,
    PATTERN_GROUP,
    PATTERN_RESOLUTION,
    PATTERN_SEASON,
    PATTERN_SOURCE,
    PATTERN_VERSION,
    PATTERN_VIDEO_CODEC,
    PATTERN_YEAR,
    SENTINEL,
    SENTINEL_TEXT,
    all_patterns_compile,
    audio_codec_matched,
    audio_codec_of,
    crc32_matched,
    dotted_extension_matched,
    episode_matched,
    extension_matched,
    fields_present,
    fields_total,
    group_matched,
    group_number,
    group_text,
    heuristic_outcome,
    heuristic_record,
    present,
    resolution_matched,
    resolution_of,
    season_matched,
    single_matched,
    source_matched,
    source_named,
    source_of,
    spec_audio_codec,
    spec_confidence,
    spec_crc32,
    spec_dotted_extension,
    spec_episode,
    spec_extension,
    spec_group,
    spec_parse,
    spec_resolution,
    spec_season,
    spec_source,
    spec_title,
    spec_version,
    spec_video_codec,
    spec_year,
    strike,
    struck_out,
    title_blanked,
    title_of,
    title_region,
    title_source,
    version_matched,
    versioned_matched,
    video_codec_matched,
    video_codec_of,
    without_extension,
    without_group,
    without_year,
    year_matched,
};
