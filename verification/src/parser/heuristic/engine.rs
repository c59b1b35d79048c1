//! The heuristic engine itself.

use vstd::prelude::*;
use regex::Regex;
use crate::error::ZantetsuError;
use crate::fixed::{ONE, ratio};
use crate::parser::heuristic::fields::{
    audio_codec_from,
    crc32_from,
    cut_group_and_extension,
    dotted_extension_from,
    episode_from,
    extension_from,
    group_from,
    opt_episode,
    resolution_from,
    season_from,
    source_from,
    strike_year,
    title_from,
    version_from,
    video_codec_from,
    year_from,
};
use crate::parser::heuristic::laws::{lemma_confidence_bounded, lemma_parse_well_formed};
use crate::parser::heuristic::model::{
    PATTERN_AUDIO_CODEC,
    PATTERN_BRACKETS,
    PATTERN_CRC32,
    PATTERN_EPISODE,
    PATTERN_EPISODE_RANGE,
    PATTERN_EPISODE_VERSION,
    PATTERN_EXTENSION,
    PATTERN_GROUP,
    PATTERN_RESOLUTION,
    PATTERN_SEASON,
    PATTERN_SOURCE,
    PATTERN_VERSION,
    PATTERN_VIDEO_CODEC,
    PATTERN_YEAR,
    SENTINEL_TEXT,
    all_patterns_compile,
    heuristic_outcome,
    spec_audio_codec,
    spec_confidence,
    spec_crc32,
    spec_dotted_extension,
    spec_episode,
    spec_extension,
    spec_group,
    spec_parse,
    spec_resolution,
    spec_season,
    spec_source,
    spec_title,
    spec_version,
    spec_video_codec,
    spec_year,
    struck_out,
};
use crate::parser::patterns::{captures, compile, compiles, pattern_of, replace_all};
use crate::text::{TrimSet, chars_of, opt_text, string_of, trim_chars, trimmed};
use crate::types::{
    AudioCodec,
    EpisodeSpec,
    MediaSource,
    ParseMode,
    ParseResult,
    Resolution,
    VideoCodec,
};

verus! {

/// Compiles a pattern of the engine.
fn compiled(pattern: &str) -> (result: Result<Regex, ZantetsuError>)
    ensures
        result is Ok == compiles(pattern@),
        result matches Ok(re) ==> pattern_of(re) == pattern@,
        result matches Err(e) ==> e is RegexError,
{
    match compile(pattern) {
        Ok(re) => Ok(re),
        Err(e) => Err(ZantetsuError::RegexError(e)),
    }
}

/// The heuristic engine with its compiled patterns.
pub struct HeuristicParser {
    re_resolution: Regex,
    re_vcodec: Regex,
    re_acodec: Regex,
    re_source: Regex,
    re_crc32: Regex,
    re_episode_range: Regex,
    re_episode_version: Regex,
    re_episode: Regex,
    re_season: Regex,
    re_version: Regex,
    re_year: Regex,
    re_extension: Regex,
    re_group: Regex,
}

impl HeuristicParser {
    /// Every field holds the pattern that it is named after.
    #[verifier::type_invariant]
    spec fn wf(self) -> bool {
        &&& pattern_of(self.re_resolution) == PATTERN_RESOLUTION@
        &&& pattern_of(self.re_vcodec) == PATTERN_VIDEO_CODEC@
        &&& pattern_of(self.re_acodec) == PATTERN_AUDIO_CODEC@
        &&& pattern_of(self.re_source) == PATTERN_SOURCE@
        &&& pattern_of(self.re_crc32) == PATTERN_CRC32@
        &&& pattern_of(self.re_episode_range) == PATTERN_EPISODE_RANGE@
        &&& pattern_of(self.re_episode_version) == PATTERN_EPISODE_VERSION@
        &&& pattern_of(self.re_episode) == PATTERN_EPISODE@
        &&& pattern_of(self.re_season) == PATTERN_SEASON@
        &&& pattern_of(self.re_version) == PATTERN_VERSION@
        &&& pattern_of(self.re_year) == PATTERN_YEAR@
        &&& pattern_of(self.re_extension) == PATTERN_EXTENSION@
        &&& pattern_of(self.re_group) == PATTERN_GROUP@
    }

    /// An engine with all patterns compiled.
    ///
    /// Fails with `RegexError` if a pattern does not compile.
    pub fn new() -> (result: Result<Self, ZantetsuError>)
        ensures
            result is Ok <==> all_patterns_compile(),
            result matches Err(e) ==> e is RegexError,
    {
        let re_resolution = match compiled(PATTERN_RESOLUTION) {
            Ok(re) => re,
            Err(e) => return Err(e),
        };
        let re_vcodec = match compiled(PATTERN_VIDEO_CODEC) {
            Ok(re) => re,
            Err(e) => return Err(e),
        };
        let re_acodec = match compiled(PATTERN_AUDIO_CODEC) {
            Ok(re) => re,
            Err(e) => return Err(e),
        };
        let re_source = match compiled(PATTERN_SOURCE) {
            Ok(re) => re,
            Err(e) => return Err(e),
        };
        let re_crc32 = match compiled(PATTERN_CRC32) {
            Ok(re) => re,
            Err(e) => return Err(e),
        };
        let re_episode_range = match compiled(PATTERN_EPISODE_RANGE) {
            Ok(re) => re,
            Err(e) => return Err(e),
        };
        let re_episode_version = match compiled(PATTERN_EPISODE_VERSION) {
            Ok(re) => re,
            Err(e) => return Err(e),
        };
        let re_episode = match compiled(PATTERN_EPISODE) {
            Ok(re) => re,
            Err(e) => return Err(e),
        };
        let re_season = match compiled(PATTERN_SEASON) {
            Ok(re) => re,
            Err(e) => return Err(e),
        };
        let re_version = match compiled(PATTERN_VERSION) {
            Ok(re) => re,
            Err(e) => return Err(e),
        };
        let re_year = match compiled(PATTERN_YEAR) {
            Ok(re) => re,
            Err(e) => return Err(e),
        };
        let re_extension = match compiled(PATTERN_EXTENSION) {
            Ok(re) => re,
            Err(e) => return Err(e),
        };
        let re_group = match compiled(PATTERN_GROUP) {
            Ok(re) => re,
            Err(e) => return Err(e),
        };
        Ok(
            Self {
                re_resolution,
                re_vcodec,
                re_acodec,
                re_source,
                re_crc32,
                re_episode_range,
                re_episode_version,
                re_episode,
                re_season,
                re_version,
                re_year,
                re_extension,
                re_group,
            },
        )
    }

    /// Extracts a record from a release name.
    ///
    /// Fails with `EmptyInput` exactly if the input is empty or whitespace.
    /// Otherwise every field is extracted from the trimmed input on its own,
    /// the title last, and the confidence says how many fields were found.
    pub fn parse(&self, input: &str) -> (result: Result<ParseResult, ZantetsuError>)
        ensures
            heuristic_outcome(input@, result),
            result is Err <==> trimmed(input@, TrimSet::Whitespace).len() == 0,
    {
        let input_chars = chars_of(input);
        let trimmed_chars = trim_chars(&input_chars, TrimSet::Whitespace);
        if trimmed_chars.len() == 0 {
            return Err(ZantetsuError::EmptyInput);
        }
        let text = string_of(&trimmed_chars);
        let trimmed_input = text.as_str();

        let mut result = ParseResult::new(trimmed_input, ParseMode::Light);
        result.group = self.extract_group(trimmed_input);
        result.extension = self.extract_extension(trimmed_input);
        result.crc32 = self.extract_crc32(trimmed_input);
        result.resolution = self.extract_resolution(trimmed_input);
        result.video_codec = self.extract_video_codec(trimmed_input);
        result.audio_codec = self.extract_audio_codec(trimmed_input);
        result.source = self.extract_source(trimmed_input);
        result.season = self.extract_season(trimmed_input);
        result.year = self.extract_year(trimmed_input);
        result.episode = self.extract_episode(trimmed_input);
        result.version = self.extract_version(trimmed_input, &result.episode);
        result.title = self.extract_title(trimmed_input, &result);
        result.confidence = self.compute_confidence(&result);
        proof {
            lemma_parse_well_formed(trimmed_input@);
            assert(result@ == spec_parse(trimmed_input@));
        }
        Ok(result)
    }

    /// The release group: the bracketed text at the start, trimmed.
    fn extract_group(&self, input: &str) -> (group: Option<String>)
        ensures
            opt_text(group) == spec_group(input@),
    {
        proof {
            use_type_invariant(self);
        }
        group_from(&captures(&self.re_group, input))
    }

    /// The file extension, in lower case.
    fn extract_extension(&self, input: &str) -> (extension: Option<String>)
        ensures
            opt_text(extension) == spec_extension(input@),
    {
        proof {
            use_type_invariant(self);
        }
        extension_from(&captures(&self.re_extension, input))
    }

    /// The checksum, in upper case.
    fn extract_crc32(&self, input: &str) -> (crc32: Option<String>)
        ensures
            opt_text(crc32) == spec_crc32(input@),
    {
        proof {
            use_type_invariant(self);
        }
        crc32_from(&captures(&self.re_crc32, input))
    }

    /// The resolution named in the input.
    fn extract_resolution(&self, input: &str) -> (resolution: Option<Resolution>)
        ensures
            resolution == spec_resolution(input@),
    {
        proof {
            use_type_invariant(self);
        }
        resolution_from(&captures(&self.re_resolution, input))
    }

    /// The video codec named in the input.
    fn extract_video_codec(&self, input: &str) -> (codec: Option<VideoCodec>)
        ensures
            codec == spec_video_codec(input@),
    {
        proof {
            use_type_invariant(self);
        }
        video_codec_from(&captures(&self.re_vcodec, input))
    }

    /// The audio codec named in the input.
    fn extract_audio_codec(&self, input: &str) -> (codec: Option<AudioCodec>)
        ensures
            codec == spec_audio_codec(input@),
    {
        proof {
            use_type_invariant(self);
        }
        audio_codec_from(&captures(&self.re_acodec, input))
    }

    /// The source named in the input.
    fn extract_source(&self, input: &str) -> (source: Option<MediaSource>)
        ensures
            source == spec_source(input@),
    {
        proof {
            use_type_invariant(self);
        }
        source_from(&captures(&self.re_source, input))
    }

    /// The season number named in the input.
    fn extract_season(&self, input: &str) -> (season: Option<u32>)
        ensures
            season == spec_season(input@),
    {
        proof {
            use_type_invariant(self);
        }
        season_from(&captures(&self.re_season, input))
    }

    /// The release year named in the input, if it is a plausible one.
    fn extract_year(&self, input: &str) -> (year: Option<u16>)
        ensures
            year == spec_year(input@),
    {
        proof {
            use_type_invariant(self);
        }
        year_from(&captures(&self.re_year, input))
    }

    /// The episode specification named in the input: a range before a
    /// versioned episode before a plain number. A range is only ever
    /// returned if it runs from a lower to a strictly higher episode.
    pub fn extract_episode(&self, input: &str) -> (episode: Option<EpisodeSpec>)
        ensures
            opt_episode(episode) == spec_episode(input@),
            episode matches Some(EpisodeSpec::Range(start, end)) ==> start < end,
    {
        proof {
            use_type_invariant(self);
        }
        let range = captures(&self.re_episode_range, input);
        let versioned = captures(&self.re_episode_version, input);
        let single = captures(&self.re_episode, input);
        episode_from(&range, &versioned, &single)
    }

    /// The release version, unless the episode already carries one.
    fn extract_version(&self, input: &str, episode: &Option<EpisodeSpec>) -> (version: Option<u8>)
        ensures
            version == spec_version(input@, opt_episode(*episode)),
    {
        proof {
            use_type_invariant(self);
        }
        version_from(&captures(&self.re_version, input), episode)
    }

    /// The text with every piece of metadata struck out.
    fn strike_out(&self, text: &str) -> (out: String)
        ensures
            out@ == struck_out(text@),
    {
        proof {
            use_type_invariant(self);
        }
        let work = replace_all(&self.re_resolution, text, SENTINEL_TEXT);
        let work = replace_all(&self.re_vcodec, work.as_str(), SENTINEL_TEXT);
        let work = replace_all(&self.re_acodec, work.as_str(), SENTINEL_TEXT);
        let work = replace_all(&self.re_source, work.as_str(), SENTINEL_TEXT);
        let work = replace_all(&self.re_crc32, work.as_str(), SENTINEL_TEXT);
        let work = replace_all(&self.re_episode_range, work.as_str(), SENTINEL_TEXT);
        let work = replace_all(&self.re_episode_version, work.as_str(), SENTINEL_TEXT);
        let work = replace_all(&self.re_season, work.as_str(), SENTINEL_TEXT);
        let work = replace_all(&self.re_version, work.as_str(), SENTINEL_TEXT);
        replace_all(&self.re_episode, work.as_str(), SENTINEL_TEXT)
    }

    /// The title: what is left in front once group and extension are cut
    /// off and everything else is struck out.
    fn extract_title(&self, input: &str, result: &ParseResult) -> (title: Option<String>)
        ensures
            opt_text(title) == spec_title(
                input@,
                result.group is Some,
                spec_dotted_extension(input@),
                result.year,
            ),
    {
        proof {
            use_type_invariant(self);
        }
        let dotted = dotted_extension_from(&captures(&self.re_extension, input));
        let work = cut_group_and_extension(input, result.group.is_some(), &dotted);
        let struck = self.strike_out(work.as_str());
        let struck = strike_year(struck.as_str(), result.year);
        let re_brackets = match compile(PATTERN_BRACKETS) {
            Ok(re) => re,
            Err(_) => return None,
        };
        let blanked = replace_all(&re_brackets, struck.as_str(), " ");
        title_from(blanked.as_str())
    }

    /// The share of counted fields that are present.
    fn compute_confidence(&self, result: &ParseResult) -> (confidence: u32)
        ensures
            confidence == spec_confidence(result@),
            confidence <= ONE,
    {
        let mut fields_present: u32 = 0;
        let mut fields_total: u32 = 7;
        if result.title.is_some() {
            fields_present += 2;
            fields_total += 1;
        }
        if result.group.is_some() {
            fields_present += 1;
        }
        if result.episode.is_some() {
            fields_present += 1;
        }
        if result.resolution.is_some() {
            fields_present += 1;
        }
        if result.video_codec.is_some() {
            fields_present += 1;
        }
        if result.audio_codec.is_some() {
            fields_present += 1;
        }
        if result.source.is_some() {
            fields_present += 1;
        }
        proof {
            lemma_confidence_bounded(result@);
        }
        ratio(fields_present, fields_total)
    }
}

} // verus!
