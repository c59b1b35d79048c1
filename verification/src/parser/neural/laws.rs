//! What holds of every record that the statistical engine builds.

use vstd::prelude::*;
use crate::fixed::{ONE, lemma_ratio_bounded};
use crate::parser::bio_tags::{BioTag, EntityModel};
use crate::parser::neural::model::{
    COUNTED_FIELDS,
    blank_record,
    continues,
    extracted_count,
    number_fields,
    quality_fields,
    span_end,
    spec_build,
    text_fields,
    with_entities,
};
use crate::types::ParseMode;
use crate::types::result::ParseRecord;

verus! {

/// An entity's span ends behind its start and within the tags.
pub proof fn lemma_span_end_bounds(tags: Seq<BioTag>, start: int, i: int)
    requires
        0 <= start < i <= tags.len(),
    ensures
        i <= span_end(tags, start, i) <= tags.len(),
    decreases tags.len() - i,
{
    if i < tags.len() && continues(tags[start], tags[i]) {
        lemma_span_end_bounds(tags, start, i + 1);
    }
}

/// At most eleven fields are counted.
pub proof fn lemma_extracted_count_bounded(r: ParseRecord)
    ensures
        0 <= text_fields(r) <= 4,
        0 <= number_fields(r) <= 3,
        0 <= quality_fields(r) <= 4,
        0 <= extracted_count(r) <= COUNTED_FIELDS,
{
    reveal(text_fields);
    reveal(number_fields);
    reveal(quality_fields);
}

/// Reading an entity in never yields an episode range.
pub proof fn lemma_with_entities_episode(r: ParseRecord, entities: Seq<EntityModel>)
    requires
        r.episode is None || r.episode->0 is Single,
    ensures
        with_entities(r, entities).episode is None || with_entities(r, entities).episode->0
            is Single,
    decreases entities.len(),
{
    if entities.len() > 0 {
        lemma_with_entities_episode(r, entities.drop_last());
    }
}

/// The statistical engine's record is well formed: its confidence is at
/// most 1.0 and its episode, if any, is a single one.
pub proof fn lemma_build_well_formed(input: Seq<char>, entities: Seq<EntityModel>)
    ensures
        spec_build(input, entities).wf(),
        spec_build(input, entities).confidence <= ONE,
        spec_build(input, entities).parse_mode == ParseMode::Full,
        spec_build(input, entities).input == input,
{
    let fields = with_entities(blank_record(input), entities);
    lemma_with_entities_episode(blank_record(input), entities);
    lemma_extracted_count_bounded(fields);
    lemma_ratio_bounded(extracted_count(fields), COUNTED_FIELDS as int);
    lemma_with_entities_keep(blank_record(input), entities);
}

/// Reading entities in changes neither the input nor the mode.
pub proof fn lemma_with_entities_keep(r: ParseRecord, entities: Seq<EntityModel>)
    ensures
        with_entities(r, entities).input == r.input,
        with_entities(r, entities).parse_mode == r.parse_mode,
    decreases entities.len(),
{
    if entities.len() > 0 {
        lemma_with_entities_keep(r, entities.drop_last());
    }
}

} // verus!
