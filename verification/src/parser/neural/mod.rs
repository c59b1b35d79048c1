//! The statistical engine: from tag scores to a record.
//!
//! A model outside this library scores every tag for every model-input
//! token and tells where each token lies in the input. This module decodes
//! the scores into a tag sequence, joins the tagged tokens into entities,
//! and reads the entities into the same record that the heuristic engine
//! produces.

pub mod engine;
pub mod laws;
pub mod model;

pub use engine::{
    ModelOutput,
    NeuralParser,
    audio_codec_in,
    find_first_digit,
    resolution_in,
    source_in,
    tag_continues,
    video_codec_in,
};
pub use laws::{
    lemma_build_well_formed,
    lemma_extracted_count_bounded,
    lemma_span_end_bounds,
    lemma_with_entities_episode,
    lemma_with_entities_keep,
};
pub use model::{
    COUNTED_FIELDS,
    blank_record,
    continues,
    counted,
    entities_from,
    entity_models,
    extracted_count,
    first_digit,
    followed_by,
    lenient_audio_codec,
    lenient_resolution,
    lenient_source,
    lenient_video_codec,
    neural_entities,
    neural_outcome,
    neural_record,
    number_fields,
    quality_fields,
    span_end,
    spec_assemble,
    spec_build,
    tags_of,
    text_fields,
    with_entities,
    with_entity,
};
