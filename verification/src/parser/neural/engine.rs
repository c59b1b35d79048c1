//! The statistical engine itself.

use vstd::prelude::*;
use crate::error::ZantetsuError;
use crate::fixed::ratio;
use crate::parser::bio_tags::{BioTag, Entity, EntityModel, EntityType};
use crate::parser::neural::model::{
    COUNTED_FIELDS,
    blank_record,
    continues,
    counted,
    entities_from,
    entity_models,
    extracted_count,
    first_digit,
    followed_by,
    lenient_audio_codec,
    lenient_resolution,
    lenient_source,
    lenient_video_codec,
    neural_outcome,
    number_fields,
    quality_fields,
    span_end,
    spec_assemble,
    spec_build,
    tags_of,
    text_fields,
    with_entities,
    with_entity,
};
use crate::parser::viterbi::{ViterbiDecoder, as_ints};
use crate::text::{
    TrimSet,
    char_is_ascii_digit,
    chars_contain,
    chars_of,
    lowercase_of,
    parse_number,
    push_decimal,
    slice_bytes,
    string_of,
    to_lowercase,
    to_uppercase,
    trim_chars,
};
use crate::types::{
    AudioCodec,
    EpisodeSpec,
    MediaSource,
    ParseMode,
    ParseResult,
    Resolution,
    VideoCodec,
};

verus! {

/// What the model returns for one input.
#[derive(Debug, Clone)]
pub struct ModelOutput {
    /// One row of tag scores per model-input token.
    pub emissions: Vec<Vec<i32>>,
    /// The score of each tag following each tag.
    pub transitions: Vec<Vec<i32>>,
    /// Where each model-input token lies in the input: the byte offsets of
    /// its start and of its end. A token that stands for no text, such as a
    /// sequence boundary, has both at 0.
    pub offsets: Vec<(usize, usize)>,
}

/// Whether a token tagged `next` continues an entity that began with a
/// token tagged `first`.
pub fn tag_continues(first: BioTag, next: BioTag) -> (b: bool)
    ensures
        b == continues(first, next),
{
    let same_family = match (first.entity_type(), next.entity_type()) {
        (Some(a), Some(b)) => a == b,
        (None, None) => true,
        _ => false,
    };
    (next.is_inside() && same_family) || (next == first && !first.is_begin() && !first.is_inside())
}

/// The error for token offsets that do not fit the input or the tags.
fn offsets_error() -> (e: ZantetsuError)
    ensures
        e is NeuralParser,
{
    ZantetsuError::NeuralParser("Token offsets do not fit the input".to_owned())
}

/// The error for a tag index outside the vocabulary.
fn tag_error(index: usize) -> (e: ZantetsuError)
    ensures
        e is NeuralParser,
{
    let mut m = "Invalid tag index: ".to_owned();
    push_decimal(&mut m, index as u64);
    ZantetsuError::NeuralParser(m)
}

/// The statistical engine.
pub struct NeuralParser {
    viterbi: ViterbiDecoder,
}

impl NeuralParser {
    /// The decoder covers exactly the tag vocabulary.
    #[verifier::type_invariant]
    spec fn wf(self) -> bool {
        self.viterbi.spec_num_tags() == BioTag::NUM_TAGS
    }

    /// An engine with a decoder over the tag vocabulary.
    pub fn new() -> (result: Result<Self, ZantetsuError>)
        ensures
            result is Ok,
    {
        Ok(Self { viterbi: ViterbiDecoder::new(BioTag::NUM_TAGS) })
    }

    /// Extracts a record from a release name and the model's run on it.
    pub fn parse(&self, input: &str, run: Result<&ModelOutput, ZantetsuError>) -> (result: Result<
        ParseResult,
        ZantetsuError,
    >)
        ensures
            neural_outcome(input@, run, result),
    {
        proof {
            use_type_invariant(self);
        }
        let input_chars = chars_of(input);
        if trim_chars(&input_chars, TrimSet::Whitespace).len() == 0 {
            return Err(ZantetsuError::EmptyInput);
        }
        let out = match run {
            Ok(out) => out,
            Err(e) => return Err(e),
        };
        if out.emissions.len() == 0 {
            return Err(ZantetsuError::ParseFailed { input: input.to_owned() });
        }
        let tag_indices = match self.viterbi.decode_constrained(
            out.emissions.as_slice(),
            out.transitions.as_slice(),
        ) {
            Ok(path) => path,
            Err(e) => return Err(e),
        };
        let entities = match self.assemble_entities(
            input,
            out.offsets.as_slice(),
            tag_indices.as_slice(),
        ) {
            Ok(entities) => entities,
            Err(e) => return Err(e),
        };
        self.build_parse_result(input, entities.as_slice())
    }

    /// Joins tagged tokens into entities.
    ///
    /// Fails with `NeuralParser` if an index names no tag, if there are fewer
    /// offsets than tags, or if an entity's span does not lie on character
    /// boundaries of the input.
    pub fn assemble_entities(
        &self,
        input: &str,
        offsets: &[(usize, usize)],
        tag_indices: &[usize],
    ) -> (result: Result<Vec<Entity>, ZantetsuError>)
        ensures
            match result {
                Ok(entities) => spec_assemble(input@, offsets@, as_ints(tag_indices@)) == Some(
                    entity_models(entities@),
                ),
                Err(e) => spec_assemble(input@, offsets@, as_ints(tag_indices@)) is None && e
                    is NeuralParser,
            },
    {
        let ghost indices = as_ints(tag_indices@);
        let count = tag_indices.len();
        if offsets.len() < count {
            return Err(offsets_error());
        }
        let mut tags: Vec<BioTag> = Vec::new();
        let mut k: usize = 0;
        while k < count
            invariant
                k <= count,
                count == tag_indices@.len(),
                indices == as_ints(tag_indices@),
                tags@.len() == k,
                forall|j: int| 0 <= j < k ==> 0 <= #[trigger] indices[j] < BioTag::NUM_TAGS,
                forall|j: int|
                    0 <= j < k ==> Some(#[trigger] tags@[j]) == BioTag::spec_from_index(indices[j]),
            decreases count - k,
        {
            match BioTag::from_index(tag_indices[k]) {
                Some(tag) => tags.push(tag),
                None => {
                    assert(!(0 <= indices[k as int] < BioTag::NUM_TAGS));
                    return Err(tag_error(tag_indices[k]));
                },
            }
            k += 1;
        }
        assert(tags_of(indices) == Some(tags@)) by {
            assert(tags_of(indices)->0 =~= tags@);
        }
        let chars = chars_of(input);
        let ghost goal = spec_assemble(input@, offsets@, indices);
        let mut entities: Vec<Entity> = Vec::new();
        let mut i: usize = 0;
        assert(Seq::<EntityModel>::empty() + entities_from(input@, offsets@, tags@, 0)->0
            =~= entities_from(input@, offsets@, tags@, 0)->0);
        while i < count
            invariant
                i <= count,
                count == tags@.len(),
                count <= offsets@.len(),
                chars@ == input@,
                goal == spec_assemble(input@, offsets@, as_ints(tag_indices@)),
                goal == followed_by(
                    entity_models(entities@),
                    entities_from(input@, offsets@, tags@, i as int),
                ),
            decreases count - i,
        {
            let tag = tags[i];
            let start_idx = i;
            let ghost before = entity_models(entities@);
            match tag.entity_type() {
                None => {
                    i += 1;
                },
                Some(entity_type) => {
                    let start_offset = offsets[start_idx].0;
                    let mut end_offset = offsets[start_idx].1;
                    i += 1;
                    while i < count && tag_continues(tag, tags[i])
                        invariant
                            start_idx < i <= count,
                            count == tags@.len(),
                            count <= offsets@.len(),
                            tag == tags@[start_idx as int],
                            end_offset == offsets@[i - 1].1,
                            span_end(tags@, start_idx as int, i as int) == span_end(
                                tags@,
                                start_idx as int,
                                start_idx + 1,
                            ),
                        decreases count - i,
                    {
                        end_offset = offsets[i].1;
                        i += 1;
                    }
                    assert(span_end(tags@, start_idx as int, start_idx + 1) == i);
                    if !(start_offset == 0 && end_offset == 0) {
                        match slice_bytes(&chars, start_offset, end_offset) {
                            Some(span) => {
                                let text = trim_chars(&span, TrimSet::Whitespace);
                                if text.len() > 0 {
                                    let entity = Entity {
                                        entity_type,
                                        start_token: start_idx,
                                        end_token: i,
                                        text: string_of(&text),
                                    };
                                    proof {
                                        let rest = entities_from(input@, offsets@, tags@, i as int);
                                        if rest is Some {
                                            assert(before + (seq![entity@] + rest->0)
                                                =~= before.push(entity@) + rest->0);
                                        }
                                        assert(entity_models(entities@.push(entity))
                                            =~= before.push(entity@));
                                    }
                                    entities.push(entity);
                                }
                            },
                            None => {
                                return Err(offsets_error());
                            },
                        }
                    }
                },
            }
        }
        proof {
            assert(entity_models(entities@) + Seq::<EntityModel>::empty() =~= entity_models(
                entities@,
            ));
        }
        Ok(entities)
    }

    /// Reads entities into a record.
    ///
    /// Never fails. Of several entities of one kind the last one counts.
    pub fn build_parse_result(&self, input: &str, entities: &[Entity]) -> (result: Result<
        ParseResult,
        ZantetsuError,
    >)
        ensures
            result matches Ok(r) && r@ == spec_build(input@, entity_models(entities@)) && r.wf(),
    {
        let mut record = self.read_entities(input, entities);
        let extracted = count_extracted(&record);
        record.confidence = ratio(extracted, COUNTED_FIELDS);
        Ok(record)
    }

    /// Reads entities into a record, one after the other.
    fn read_entities(&self, input: &str, entities: &[Entity]) -> (record: ParseResult)
        ensures
            record@ == with_entities(blank_record(input@), entity_models(entities@)),
            record.episode is None || record.episode->0 is Single,
    {
        let ghost models = entity_models(entities@);
        let mut record = ParseResult::new(input, ParseMode::Full);
        let mut k: usize = 0;
        assert(models.take(0) =~= Seq::<EntityModel>::empty());
        assert(record@ == blank_record(input@));
        while k < entities.len()
            invariant
                k <= entities@.len(),
                models == entity_models(entities@),
                record@ == with_entities(blank_record(input@), models.take(k as int)),
                record.episode is None || record.episode->0 is Single,
            decreases entities@.len() - k,
        {
            proof {
                assert(models.take(k + 1).drop_last() =~= models.take(k as int));
                assert(models.take(k + 1).last() == entities@[k as int]@);
            }
            record = self.read_entity(record, &entities[k]);
            k += 1;
        }
        assert(models.take(models.len() as int) =~= models);
        record
    }

    /// Reads one entity into a record.
    fn read_entity(&self, record: ParseResult, entity: &Entity) -> (updated: ParseResult)
        requires
            record.episode is None || record.episode->0 is Single,
        ensures
            updated@ == with_entity(record@, entity@),
            updated.episode is None || updated.episode->0 is Single,
    {
        let mut record = record;
        match entity.entity_type {
            EntityType::Title => {
                record.title = Some(entity.text.clone());
            },
            EntityType::Group => {
                record.group = Some(entity.text.clone());
            },
            EntityType::Episode => {
                let text = chars_of(entity.text.as_str());
                if let Some(num) = parse_number(&text, u32::MAX) {
                    record.episode = Some(EpisodeSpec::Single(num));
                }
            },
            EntityType::Season => {
                let text = chars_of(entity.text.as_str());
                if let Some(num) = parse_number(&text, u32::MAX) {
                    record.season = Some(num);
                }
            },
            EntityType::Resolution => {
                record.resolution = self.parse_resolution(entity.text.as_str());
            },
            EntityType::VCodec => {
                record.video_codec = self.parse_video_codec(entity.text.as_str());
            },
            EntityType::ACodec => {
                record.audio_codec = self.parse_audio_codec(entity.text.as_str());
            },
            EntityType::Source => {
                record.source = self.parse_source(entity.text.as_str());
            },
            EntityType::Year => {
                let text = chars_of(entity.text.as_str());
                record.year = match parse_number(&text, 0xffff) {
                    Some(y) => Some(y as u16),
                    None => None,
                };
            },
            EntityType::Crc32 => {
                record.crc32 = Some(to_uppercase(entity.text.as_str()));
            },
            EntityType::Extension => {
                record.extension = Some(to_lowercase(entity.text.as_str()));
            },
            EntityType::Version => {
                let text = chars_of(entity.text.as_str());
                record.version = find_first_digit(&text);
            },
        }
        record
    }

    /// The resolution that an entity's text names, read leniently.
    fn parse_resolution(&self, text: &str) -> (resolution: Option<Resolution>)
        ensures
            resolution == lenient_resolution(lowercase_of(text@)),
    {
        resolution_in(to_lowercase(text).as_str())
    }

    /// The video codec that an entity's text names, read leniently.
    fn parse_video_codec(&self, text: &str) -> (codec: Option<VideoCodec>)
        ensures
            codec == lenient_video_codec(lowercase_of(text@)),
    {
        video_codec_in(to_lowercase(text).as_str())
    }

    /// The audio codec that an entity's text names, read leniently.
    fn parse_audio_codec(&self, text: &str) -> (codec: Option<AudioCodec>)
        ensures
            codec == lenient_audio_codec(lowercase_of(text@)),
    {
        audio_codec_in(to_lowercase(text).as_str())
    }

    /// The source that an entity's text names, read leniently.
    fn parse_source(&self, text: &str) -> (source: Option<MediaSource>)
        ensures
            source == lenient_source(lowercase_of(text@)),
    {
        source_in(to_lowercase(text).as_str())
    }
}

/// The resolution that a lower-case text names: the first of the known
/// heights that occurs in it.
pub fn resolution_in(lower: &str) -> (resolution: Option<Resolution>)
    ensures
        resolution == lenient_resolution(lower@),
{
    let t = chars_of(lower);
    if chars_contain(&t, "2160") {
        Some(Resolution::UHD2160)
    } else if chars_contain(&t, "1080") {
        Some(Resolution::FHD1080)
    } else if chars_contain(&t, "720") {
        Some(Resolution::HD720)
    } else if chars_contain(&t, "480") {
        Some(Resolution::SD480)
    } else {
        None
    }
}

/// The video codec that a lower-case text names.
pub fn video_codec_in(lower: &str) -> (codec: Option<VideoCodec>)
    ensures
        codec == lenient_video_codec(lower@),
{
    let t = chars_of(lower);
    if chars_contain(&t, "av1") {
        Some(VideoCodec::AV1)
    } else if chars_contain(&t, "265") || chars_contain(&t, "hevc") {
        Some(VideoCodec::HEVC)
    } else if chars_contain(&t, "264") || chars_contain(&t, "h264") || chars_contain(&t, "h.264") {
        Some(VideoCodec::H264)
    } else if chars_contain(&t, "vp9") {
        Some(VideoCodec::VP9)
    } else if chars_contain(&t, "mpeg4") || chars_contain(&t, "mp4") || chars_contain(&t, "xvid") {
        Some(VideoCodec::MPEG4)
    } else {
        None
    }
}

/// The audio codec that a lower-case text names.
pub fn audio_codec_in(lower: &str) -> (codec: Option<AudioCodec>)
    ensures
        codec == lenient_audio_codec(lower@),
{
    let t = chars_of(lower);
    if chars_contain(&t, "flac") {
        Some(AudioCodec::FLAC)
    } else if chars_contain(&t, "truehd") {
        Some(AudioCodec::TrueHD)
    } else if chars_contain(&t, "dts") {
        Some(AudioCodec::DTS)
    } else if chars_contain(&t, "opus") {
        Some(AudioCodec::Opus)
    } else if chars_contain(&t, "aac") {
        Some(AudioCodec::AAC)
    } else if chars_contain(&t, "ac3") || chars_contain(&t, "dolby") {
        Some(AudioCodec::AC3)
    } else if chars_contain(&t, "vorbis") || chars_contain(&t, "ogg") {
        Some(AudioCodec::Vorbis)
    } else if chars_contain(&t, "mp3") {
        Some(AudioCodec::MP3)
    } else {
        None
    }
}

/// The source that a lower-case text names.
pub fn source_in(lower: &str) -> (source: Option<MediaSource>)
    ensures
        source == lenient_source(lower@),
{
    let t = chars_of(lower);
    if chars_contain(&t, "remux") {
        Some(MediaSource::BluRayRemux)
    } else if chars_contain(&t, "webdl") || chars_contain(&t, "web-dl") || chars_contain(
        &t,
        "webrip",
    ) {
        Some(MediaSource::WebDL)
    } else if chars_contain(&t, "bluray") || chars_contain(&t, "blu-ray") || chars_contain(
        &t,
        "bd",
    ) {
        Some(MediaSource::BluRay)
    } else if chars_contain(&t, "hdtv") {
        Some(MediaSource::HDTV)
    } else if chars_contain(&t, "dvd") {
        Some(MediaSource::DVD)
    } else if chars_contain(&t, "vhs") {
        Some(MediaSource::VHS)
    } else {
        None
    }
}

impl Default for NeuralParser {
    fn default() -> (parser: Self) {
        Self { viterbi: ViterbiDecoder::new(BioTag::NUM_TAGS) }
    }
}

/// 1 if the field is present, 0 if not.
fn count_one(is_some: bool) -> (n: u32)
    ensures
        n == counted(is_some),
{
    if is_some {
        1
    } else {
        0
    }
}

/// How many of the text fields that count are present.
fn count_texts(record: &ParseResult) -> (n: u32)
    ensures
        n == text_fields(record@),
        n <= 4,
{
    reveal(text_fields);
    count_one(record.title.is_some()) + count_one(record.group.is_some()) + count_one(
        record.crc32.is_some(),
    ) + count_one(record.extension.is_some())
}

/// How many of the number fields that count are present.
fn count_numbers(record: &ParseResult) -> (n: u32)
    ensures
        n == number_fields(record@),
        n <= 3,
{
    reveal(number_fields);
    count_one(record.episode.is_some()) + count_one(record.season.is_some()) + count_one(
        record.year.is_some(),
    )
}

/// How many of the quality fields are present.
fn count_quality(record: &ParseResult) -> (n: u32)
    ensures
        n == quality_fields(record@),
        n <= 4,
{
    reveal(quality_fields);
    count_one(record.resolution.is_some()) + count_one(record.video_codec.is_some()) + count_one(
        record.audio_codec.is_some(),
    ) + count_one(record.source.is_some())
}

/// How many of the eleven counted fields are present.
fn count_extracted(record: &ParseResult) -> (extracted: u32)
    ensures
        extracted == extracted_count(record@),
        extracted <= COUNTED_FIELDS,
{
    count_texts(record) + count_numbers(record) + count_quality(record)
}

/// The value of the first ASCII digit among the characters.
pub fn find_first_digit(chars: &Vec<char>) -> (digit: Option<u8>)
    ensures
        digit == first_digit(chars@),
{
    let mut i: usize = 0;
    assert(chars@.skip(0) =~= chars@);
    while i < chars.len()
        invariant
            i <= chars@.len(),
            first_digit(chars@) == first_digit(chars@.skip(i as int)),
        decreases chars@.len() - i,
    {
        let c = chars[i];
        if char_is_ascii_digit(c) {
            return Some((c as u32 - '0' as u32) as u8);
        }
        assert(chars@.skip(i as int).drop_first() =~= chars@.skip(i + 1));
        i += 1;
    }
    None
}

} // verus!
