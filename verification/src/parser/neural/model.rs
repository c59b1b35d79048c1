//! What the statistical engine computes: entities from tags, and a record
//! from entities.

use vstd::prelude::*;
use crate::error::ZantetsuError;
use crate::fixed::spec_ratio;
use crate::parser::bio_tags::{BioTag, Entity, EntityModel, EntityType};
use crate::parser::neural::engine::{ModelOutput, NeuralParser};
use crate::parser::neural::laws::lemma_span_end_bounds;
use crate::parser::viterbi::{matrix, shapes_fit, viterbi_path};
use crate::text::{
    TrimSet,
    byte_slice,
    digit_value,
    is_ascii_digit,
    lowercase_of,
    occurs_in,
    parse_unsigned,
    trimmed,
    uppercase_of,
};
use crate::types::{AudioCodec, MediaSource, ParseMode, ParseResult, Resolution, VideoCodec};
use crate::types::episode::EpisodeModel;
use crate::types::result::ParseRecord;

verus! {

/// Whether a token tagged `next` continues an entity that began with a
/// token tagged `first`: it is the inside tag of the same family, or, for a
/// family with a single tag, the same tag again.
pub open spec fn continues(first: BioTag, next: BioTag) -> bool {
    ||| next.spec_is_inside() && next.spec_entity_type() == first.spec_entity_type()
    ||| next == first && !first.spec_is_begin() && !first.spec_is_inside()
}

/// Where the entity that starts at token `start` ends, reading on from
/// token `i`: at the first token that does not continue it.
pub open spec fn span_end(tags: Seq<BioTag>, start: int, i: int) -> int
    decreases tags.len() - i,
{
    if 0 <= start < i < tags.len() && continues(tags[start], tags[i]) {
        span_end(tags, start, i + 1)
    } else {
        i
    }
}

/// The tags at the given indices, if every index names a tag.
pub open spec fn tags_of(indices: Seq<int>) -> Option<Seq<BioTag>> {
    if forall|i: int| 0 <= i < indices.len() ==> 0 <= #[trigger] indices[i] < BioTag::NUM_TAGS {
        Some(Seq::new(indices.len(), |i: int| BioTag::spec_from_index(indices[i])->0))
    } else {
        None
    }
}

/// `done` followed by `rest`, where there is a rest.
pub open spec fn followed_by(done: Seq<EntityModel>, rest: Option<Seq<EntityModel>>) -> Option<
    Seq<EntityModel>,
> {
    match rest {
        Some(r) => Some(done + r),
        None => None,
    }
}

/// The entities from token `i` on.
///
/// An entity starts at every token whose tag names a family and runs as far
/// as the following tokens continue it. Its text is the input between the
/// start of its first and the end of its last token, without whitespace at
/// the ends. Spans that stand for no text and entities with empty text are
/// left out. The result is `None` if a span does not lie on character
/// boundaries of the input.
pub open spec fn entities_from(
    input: Seq<char>,
    offsets: Seq<(usize, usize)>,
    tags: Seq<BioTag>,
    i: int,
) -> Option<Seq<EntityModel>>
    decreases tags.len() - i,
{
    if i < 0 || i >= tags.len() {
        Some(Seq::empty())
    } else if tags[i].spec_entity_type() is None {
        entities_from(input, offsets, tags, i + 1)
    } else {
        proof {
            lemma_span_end_bounds(tags, i, i + 1);
        }
        let end = span_end(tags, i, i + 1);
        let start_offset = offsets[i].0;
        let end_offset = offsets[end - 1].1;
        if start_offset == 0 && end_offset == 0 {
            entities_from(input, offsets, tags, end)
        } else {
            match byte_slice(input, start_offset as int, end_offset as int) {
                Some(text) => {
                    let entity = EntityModel {
                        entity_type: tags[i].spec_entity_type()->0,
                        start_token: i,
                        end_token: end,
                        text: trimmed(text, TrimSet::Whitespace),
                    };
                    if entity.text.len() > 0 {
                        followed_by(seq![entity], entities_from(input, offsets, tags, end))
                    } else {
                        entities_from(input, offsets, tags, end)
                    }
                },
                None => None,
            }
        }
    }
}

/// The entities that a tag sequence describes, or `None` if an index names
/// no tag, a token has no offsets, or a span does not lie on character
/// boundaries.
pub open spec fn spec_assemble(
    input: Seq<char>,
    offsets: Seq<(usize, usize)>,
    tag_indices: Seq<int>,
) -> Option<Seq<EntityModel>> {
    if offsets.len() < tag_indices.len() {
        None
    } else {
        match tags_of(tag_indices) {
            Some(tags) => entities_from(input, offsets, tags, 0),
            None => None,
        }
    }
}

/// The resolution that an entity's text names, read leniently.
pub open spec fn lenient_resolution(lower: Seq<char>) -> Option<Resolution> {
    if occurs_in(lower, "2160"@) {
        Some(Resolution::UHD2160)
    } else if occurs_in(lower, "1080"@) {
        Some(Resolution::FHD1080)
    } else if occurs_in(lower, "720"@) {
        Some(Resolution::HD720)
    } else if occurs_in(lower, "480"@) {
        Some(Resolution::SD480)
    } else {
        None
    }
}

/// The video codec that an entity's text names, read leniently.
pub open spec fn lenient_video_codec(lower: Seq<char>) -> Option<VideoCodec> {
    if occurs_in(lower, "av1"@) {
        Some(VideoCodec::AV1)
    } else if occurs_in(lower, "265"@) || occurs_in(lower, "hevc"@) {
        Some(VideoCodec::HEVC)
    } else if occurs_in(lower, "264"@) || occurs_in(lower, "h264"@) || occurs_in(lower, "h.264"@) {
        Some(VideoCodec::H264)
    } else if occurs_in(lower, "vp9"@) {
        Some(VideoCodec::VP9)
    } else if occurs_in(lower, "mpeg4"@) || occurs_in(lower, "mp4"@) || occurs_in(lower, "xvid"@) {
        Some(VideoCodec::MPEG4)
    } else {
        None
    }
}

/// The audio codec that an entity's text names, read leniently.
pub open spec fn lenient_audio_codec(lower: Seq<char>) -> Option<AudioCodec> {
    if occurs_in(lower, "flac"@) {
        Some(AudioCodec::FLAC)
    } else if occurs_in(lower, "truehd"@) {
        Some(AudioCodec::TrueHD)
    } else if occurs_in(lower, "dts"@) {
        Some(AudioCodec::DTS)
    } else if occurs_in(lower, "opus"@) {
        Some(AudioCodec::Opus)
    } else if occurs_in(lower, "aac"@) {
        Some(AudioCodec::AAC)
    } else if occurs_in(lower, "ac3"@) || occurs_in(lower, "dolby"@) {
        Some(AudioCodec::AC3)
    } else if occurs_in(lower, "vorbis"@) || occurs_in(lower, "ogg"@) {
        Some(AudioCodec::Vorbis)
    } else if occurs_in(lower, "mp3"@) {
        Some(AudioCodec::MP3)
    } else {
        None
    }
}

/// The source that an entity's text names, read leniently.
pub open spec fn lenient_source(lower: Seq<char>) -> Option<MediaSource> {
    if occurs_in(lower, "remux"@) {
        Some(MediaSource::BluRayRemux)
    } else if occurs_in(lower, "webdl"@) || occurs_in(lower, "web-dl"@) || occurs_in(
        lower,
        "webrip"@,
    ) {
        Some(MediaSource::WebDL)
    } else if occurs_in(lower, "bluray"@) || occurs_in(lower, "blu-ray"@) || occurs_in(
        lower,
        "bd"@,
    ) {
        Some(MediaSource::BluRay)
    } else if occurs_in(lower, "hdtv"@) {
        Some(MediaSource::HDTV)
    } else if occurs_in(lower, "dvd"@) {
        Some(MediaSource::DVD)
    } else if occurs_in(lower, "vhs"@) {
        Some(MediaSource::VHS)
    } else {
        None
    }
}

/// The value of the first ASCII digit in a text.
pub open spec fn first_digit(text: Seq<char>) -> Option<u8>
    decreases text.len(),
{
    if text.len() == 0 {
        None
    } else if is_ascii_digit(text[0]) {
        Some(digit_value(text[0]) as u8)
    } else {
        first_digit(text.drop_first())
    }
}

/// The record after one more entity has been read into it.
///
/// Title and group are taken as they are, the checksum in upper case and
/// the extension in lower case. An episode or season is taken only if its
/// text is a number; the other parsed fields are set to whatever the text
/// yields, which may be nothing.
pub open spec fn with_entity(r: ParseRecord, e: EntityModel) -> ParseRecord {
    match e.entity_type {
        EntityType::Title => ParseRecord { title: Some(e.text), ..r },
        EntityType::Group => ParseRecord { group: Some(e.text), ..r },
        EntityType::Episode => match parse_unsigned(e.text, u32::MAX as nat) {
            Some(n) => ParseRecord { episode: Some(EpisodeModel::Single(n as u32)), ..r },
            None => r,
        },
        EntityType::Season => match parse_unsigned(e.text, u32::MAX as nat) {
            Some(n) => ParseRecord { season: Some(n as u32), ..r },
            None => r,
        },
        EntityType::Resolution => ParseRecord {
            resolution: lenient_resolution(lowercase_of(e.text)),
            ..r
        },
        EntityType::VCodec => ParseRecord {
            video_codec: lenient_video_codec(lowercase_of(e.text)),
            ..r
        },
        EntityType::ACodec => ParseRecord {
            audio_codec: lenient_audio_codec(lowercase_of(e.text)),
            ..r
        },
        EntityType::Source => ParseRecord { source: lenient_source(lowercase_of(e.text)), ..r },
        EntityType::Year => ParseRecord {
            year: match parse_unsigned(e.text, u16::MAX as nat) {
                Some(n) => Some(n as u16),
                None => None,
            },
            ..r
        },
        EntityType::Crc32 => ParseRecord { crc32: Some(uppercase_of(e.text)), ..r },
        EntityType::Extension => ParseRecord { extension: Some(lowercase_of(e.text)), ..r },
        EntityType::Version => ParseRecord { version: first_digit(e.text), ..r },
    }
}

/// The record after all entities have been read into it, in order.
pub open spec fn with_entities(r: ParseRecord, entities: Seq<EntityModel>) -> ParseRecord
    decreases entities.len(),
{
    if entities.len() == 0 {
        r
    } else {
        with_entity(with_entities(r, entities.drop_last()), entities.last())
    }
}

/// The empty record of the statistical engine for an input.
pub open spec fn blank_record(input: Seq<char>) -> ParseRecord {
    ParseRecord {
        input,
        title: None,
        group: None,
        episode: None,
        season: None,
        resolution: None,
        video_codec: None,
        audio_codec: None,
        source: None,
        year: None,
        crc32: None,
        extension: None,
        version: None,
        confidence: 0,
        parse_mode: ParseMode::Full,
    }
}

/// 1 if the field is present, 0 if not.
pub open spec fn counted(is_some: bool) -> int {
    if is_some {
        1
    } else {
        0
    }
}

/// How many of the four text fields that count are present: title, group,
/// checksum and extension.
#[verifier::opaque]
pub open spec fn text_fields(r: ParseRecord) -> int {
    counted(r.title is Some) + counted(r.group is Some) + counted(r.crc32 is Some) + counted(
        r.extension is Some,
    )
}

/// How many of the three number fields that count are present: episode,
/// season and year.
#[verifier::opaque]
pub open spec fn number_fields(r: ParseRecord) -> int {
    counted(r.episode is Some) + counted(r.season is Some) + counted(r.year is Some)
}

/// How many of the four quality fields are present: resolution, video
/// codec, audio codec and source.
#[verifier::opaque]
pub open spec fn quality_fields(r: ParseRecord) -> int {
    counted(r.resolution is Some) + counted(r.video_codec is Some) + counted(
        r.audio_codec is Some,
    ) + counted(r.source is Some)
}

/// How many of the eleven counted fields are present. The version is not
/// among them.
pub open spec fn extracted_count(r: ParseRecord) -> int {
    text_fields(r) + number_fields(r) + quality_fields(r)
}

/// The number of fields that the statistical confidence counts.
pub const COUNTED_FIELDS: u32 = 11;

/// The record that the entities give for an input: every entity read in,
/// and as confidence the share of the eleven counted fields that are
/// present.
pub open spec fn spec_build(input: Seq<char>, entities: Seq<EntityModel>) -> ParseRecord {
    let fields = with_entities(blank_record(input), entities);
    ParseRecord {
        confidence: spec_ratio(extracted_count(fields), COUNTED_FIELDS as int) as u32,
        ..fields
    }
}

/// The entities of a sequence as plain data.
pub open spec fn entity_models(entities: Seq<Entity>) -> Seq<EntityModel> {
    entities.map_values(|e: Entity| e@)
}

/// The entities that the statistical engine finds for an input and the
/// model's output on it, if the output fits the tag vocabulary and the
/// input.
pub open spec fn neural_entities(input: Seq<char>, out: &ModelOutput) -> Option<Seq<EntityModel>> {
    let em = matrix(out.emissions@);
    let tr = matrix(out.transitions@);
    if em.len() == 0 || !shapes_fit(em, tr, BioTag::NUM_TAGS as nat) {
        None
    } else {
        spec_assemble(input, out.offsets@, viterbi_path(em, tr, BioTag::NUM_TAGS as nat))
    }
}

/// The record that the statistical engine gives for an input and a model
/// run, if it gives one: the input is not blank, the model ran, and its
/// output fits.
pub open spec fn neural_record(
    input: Seq<char>,
    run: Result<&ModelOutput, ZantetsuError>,
) -> Option<ParseRecord> {
    if trimmed(input, TrimSet::Whitespace).len() == 0 {
        None
    } else {
        match run {
            Err(_) => None,
            Ok(out) => match neural_entities(input, out) {
                Some(entities) => Some(spec_build(input, entities)),
                None => None,
            },
        }
    }
}

/// What the statistical engine returns for an input and a model run.
///
/// Where it gives a record, that record. Otherwise an error: `EmptyInput`
/// for blank input; else the model run's own error; else `ParseFailed` for a
/// run without tokens; else `NeuralParser`, for scores that do not cover the
/// tag vocabulary or token offsets that do not fit the input or the tags.
pub open spec fn neural_outcome(
    input: Seq<char>,
    run: Result<&ModelOutput, ZantetsuError>,
    result: Result<ParseResult, ZantetsuError>,
) -> bool {
    match neural_record(input, run) {
        Some(record) => result matches Ok(r) && r@ == record && r.wf(),
        None => {
            &&& result is Err
            &&& if trimmed(input, TrimSet::Whitespace).len() == 0 {
                result->Err_0 is EmptyInput
            } else {
                match run {
                    Err(failure) => result->Err_0 == failure,
                    Ok(out) => if out.emissions@.len() == 0 {
                        result->Err_0 matches ZantetsuError::ParseFailed { input: text } && text@
                            == input
                    } else {
                        result->Err_0 is NeuralParser
                    },
                }
            }
        },
    }
}

} // verus!
