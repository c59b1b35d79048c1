//! The patterns of the heuristic engine and what it extracts with them.

use vstd::prelude::*;
use crate::error::ZantetsuError;
use crate::fixed::spec_ratio;
use crate::parser::patterns::{compiles, first_match, replaced_all};
use crate::text::{
    TrimSet,
    before_first,
    decimal,
    first_index_of,
    last_match,
    lowercase_of,
    occurs_in,
    parse_unsigned,
    replace_text,
    separators_to_spaces,
    trimmed,
    uppercase_of,
    without_spaces_and_hyphens,
    words_joined,
};
use crate::types::{AudioCodec, MediaSource, ParseMode, ParseResult, Resolution, VideoCodec};
use crate::types::episode::EpisodeModel;
use crate::types::result::ParseRecord;

verus! {

/// A resolution: a known height followed by `p` or `i`.
pub const PATTERN_RESOLUTION: &'static str = r"(?i)\b(2160|1080|720|480)[pi]\b";

/// A video codec by one of its usual spellings.
pub const PATTERN_VIDEO_CODEC: &'static str =
    r"(?i)\b(x\.?264|x\.?265|h\.?264|h\.?265|hevc|av1|vp9|mpeg4|xvid)\b";

/// An audio codec by one of its usual spellings.
pub const PATTERN_AUDIO_CODEC: &'static str =
    r"(?i)\b(flac|aac|opus|ac3|dts(?:-?hd)?|truehd|true\shd|mp3|vorbis|ogg|e-?aac\+?)\b";

/// A source by one of its usual spellings.
pub const PATTERN_SOURCE: &'static str =
    r"(?i)\b(blu-?ray\s*remux|bdremux|bd-?remux|blu-?ray|web-?dl|webrip|web-?rip|hdtv|dvd(?:rip)?|laserdisc|ld|vhs)\b";

/// A checksum: eight hexadecimal digits in square brackets.
pub const PATTERN_CRC32: &'static str = r"\[([0-9A-Fa-f]{8})\]";

/// An episode range such as `01-12`.
pub const PATTERN_EPISODE_RANGE: &'static str =
    r"(?i)(?:[\s\-_\.]|(?:^|[\s\-_\.\[\(])ep?\.?\s*)(\d{1,4})\s*[-~]\s*(\d{1,4})\b";

/// A versioned episode such as `12v2`.
pub const PATTERN_EPISODE_VERSION: &'static str =
    r"(?i)(?:[\s\-_\.]|(?:^|[\s\-_\.\[\(])ep?\.?\s*)(\d{1,4})v(\d)\b";

/// A plain episode number.
pub const PATTERN_EPISODE: &'static str =
    r"(?i)(?:[\s\-_\.]|(?:^|[\s\-_\.\[\(])(?:ep?\.?|episode)\s*)(\d{1,4})(?:\b|[^0-9v\-~])";

/// A season such as `S3` or `season 3`.
pub const PATTERN_SEASON: &'static str = r"(?i)(?:\bS|season\s*)(\d{1,2})\b";

/// A release version, in brackets or bare.
pub const PATTERN_VERSION: &'static str = r"(?i)\[v(\d)\]|\bv(\d)\b";

/// A year of the twentieth or twenty-first century.
pub const PATTERN_YEAR: &'static str = r"\b((?:19|20)\d{2})\b";

/// A file extension: two to four word characters after the last dot.
pub const PATTERN_EXTENSION: &'static str = r"\.(\w{2,4})$";

/// A release group: a bracket pair at the very start.
pub const PATTERN_GROUP: &'static str = r"^\[([^\]]+)\]";

/// Anything in square brackets or parentheses.
pub const PATTERN_BRACKETS: &'static str = r"\[[^\]]*\]|\([^\)]*\)";

/// The text that marks a struck-out stretch of the input.
pub const SENTINEL_TEXT: &'static str = "\x00";

/// The character that ends the title region.
pub const SENTINEL: char = '\x00';

/// The first year that counts as a release year.
pub const FIRST_YEAR: u16 = 1980;

/// The last year that counts as a release year.
pub const LAST_YEAR: u16 = 2030;

/// The text of capture group `idx` of a match, if the pattern matched and
/// the group took part.
pub open spec fn group_text(found: Option<Seq<Option<Seq<char>>>>, idx: int) -> Option<Seq<char>> {
    match found {
        Some(groups) => if 0 <= idx < groups.len() {
            groups[idx]
        } else {
            None
        },
        None => None,
    }
}

/// The number that capture group `idx` of a match denotes, if there is such
/// a group and it is a numeral of at most `max`.
pub open spec fn group_number(found: Option<Seq<Option<Seq<char>>>>, idx: int, max: nat) -> Option<
    nat,
> {
    match group_text(found, idx) {
        Some(text) => parse_unsigned(text, max),
        None => None,
    }
}

/// The release group of a match of the group pattern: the bracketed text,
/// without whitespace at its ends.
pub open spec fn group_matched(found: Option<Seq<Option<Seq<char>>>>) -> Option<Seq<char>> {
    match group_text(found, 1) {
        Some(g) => Some(trimmed(g, TrimSet::Whitespace)),
        None => None,
    }
}

/// The file extension of a match of the extension pattern, in lower case.
pub open spec fn extension_matched(found: Option<Seq<Option<Seq<char>>>>) -> Option<Seq<char>> {
    match group_text(found, 1) {
        Some(g) => Some(lowercase_of(g)),
        None => None,
    }
}

/// The extension as it stands in the input, dot included: all that the
/// extension pattern matched, where it found an extension.
pub open spec fn dotted_extension_matched(found: Option<Seq<Option<Seq<char>>>>) -> Option<
    Seq<char>,
> {
    match group_text(found, 1) {
        Some(_) => group_text(found, 0),
        None => None,
    }
}

/// The checksum of a match of the checksum pattern, in upper case.
pub open spec fn crc32_matched(found: Option<Seq<Option<Seq<char>>>>) -> Option<Seq<char>> {
    match group_text(found, 1) {
        Some(g) => Some(uppercase_of(g)),
        None => None,
    }
}

/// The release group: the bracketed text at the start, without whitespace
/// at its ends.
pub open spec fn spec_group(t: Seq<char>) -> Option<Seq<char>> {
    group_matched(first_match(PATTERN_GROUP@, t))
}

/// The file extension, in lower case.
pub open spec fn spec_extension(t: Seq<char>) -> Option<Seq<char>> {
    extension_matched(first_match(PATTERN_EXTENSION@, t))
}

/// The extension as it stands at the end of the input, dot included.
pub open spec fn spec_dotted_extension(t: Seq<char>) -> Option<Seq<char>> {
    dotted_extension_matched(first_match(PATTERN_EXTENSION@, t))
}

/// The checksum, in upper case.
pub open spec fn spec_crc32(t: Seq<char>) -> Option<Seq<char>> {
    crc32_matched(first_match(PATTERN_CRC32@, t))
}

/// The resolution that a height stands for.
pub open spec fn resolution_of(height: Seq<char>) -> Option<Resolution> {
    if height == "2160"@ {
        Some(Resolution::UHD2160)
    } else if height == "1080"@ {
        Some(Resolution::FHD1080)
    } else if height == "720"@ {
        Some(Resolution::HD720)
    } else if height == "480"@ {
        Some(Resolution::SD480)
    } else {
        None
    }
}

/// The video codec that a lower-case spelling stands for.
pub open spec fn video_codec_of(name: Seq<char>) -> Option<VideoCodec> {
    if name == "x264"@ || name == "x.264"@ || name == "h264"@ || name == "h.264"@ {
        Some(VideoCodec::H264)
    } else if name == "x265"@ || name == "x.265"@ || name == "h265"@ || name == "h.265"@ || name
        == "hevc"@ {
        Some(VideoCodec::HEVC)
    } else if name == "av1"@ {
        Some(VideoCodec::AV1)
    } else if name == "vp9"@ {
        Some(VideoCodec::VP9)
    } else if name == "mpeg4"@ || name == "xvid"@ {
        Some(VideoCodec::MPEG4)
    } else {
        None
    }
}

/// The audio codec that a lower-case spelling stands for.
pub open spec fn audio_codec_of(name: Seq<char>) -> Option<AudioCodec> {
    if name == "flac"@ {
        Some(AudioCodec::FLAC)
    } else if name == "aac"@ {
        Some(AudioCodec::AAC)
    } else if name == "opus"@ {
        Some(AudioCodec::Opus)
    } else if name == "ac3"@ {
        Some(AudioCodec::AC3)
    } else if "dts"@.is_prefix_of(name) {
        Some(AudioCodec::DTS)
    } else if occurs_in(name, "truehd"@) || occurs_in(name, "true hd"@) {
        Some(AudioCodec::TrueHD)
    } else if name == "mp3"@ {
        Some(AudioCodec::MP3)
    } else if name == "vorbis"@ || name == "ogg"@ {
        Some(AudioCodec::Vorbis)
    } else if "e-aac"@.is_prefix_of(name) || "eaac"@.is_prefix_of(name) {
        Some(AudioCodec::EAAC)
    } else {
        None
    }
}

/// The source that a lower-case spelling without spaces and hyphens stands
/// for.
pub open spec fn source_of(name: Seq<char>) -> Option<MediaSource> {
    if occurs_in(name, "remux"@) {
        Some(MediaSource::BluRayRemux)
    } else if occurs_in(name, "blu"@) || name == "bd"@ {
        Some(MediaSource::BluRay)
    } else if name == "webdl"@ {
        Some(MediaSource::WebDL)
    } else if name == "webrip"@ {
        Some(MediaSource::WebRip)
    } else if name == "hdtv"@ {
        Some(MediaSource::HDTV)
    } else if "dvd"@.is_prefix_of(name) {
        Some(MediaSource::DVD)
    } else if name == "laserdisc"@ || name == "ld"@ {
        Some(MediaSource::LaserDisc)
    } else if name == "vhs"@ {
        Some(MediaSource::VHS)
    } else {
        None
    }
}

/// The resolution of a match of the resolution pattern.
pub open spec fn resolution_matched(found: Option<Seq<Option<Seq<char>>>>) -> Option<Resolution> {
    match group_text(found, 1) {
        Some(g) => resolution_of(g),
        None => None,
    }
}

/// The video codec of a match of the video-codec pattern.
pub open spec fn video_codec_matched(found: Option<Seq<Option<Seq<char>>>>) -> Option<VideoCodec> {
    match group_text(found, 1) {
        Some(g) => video_codec_of(lowercase_of(g)),
        None => None,
    }
}

/// The audio codec of a match of the audio-codec pattern.
pub open spec fn audio_codec_matched(found: Option<Seq<Option<Seq<char>>>>) -> Option<AudioCodec> {
    match group_text(found, 1) {
        Some(g) => audio_codec_of(lowercase_of(g)),
        None => None,
    }
}

/// The source that a lower-case spelling stands for, spaces and hyphens
/// aside.
pub open spec fn source_named(lower: Seq<char>) -> Option<MediaSource> {
    source_of(without_spaces_and_hyphens(lower))
}

/// The source of a match of the source pattern.
pub open spec fn source_matched(found: Option<Seq<Option<Seq<char>>>>) -> Option<MediaSource> {
    match group_text(found, 1) {
        Some(g) => source_named(lowercase_of(g)),
        None => None,
    }
}

/// The season number of a match of the season pattern.
pub open spec fn season_matched(found: Option<Seq<Option<Seq<char>>>>) -> Option<u32> {
    match group_number(found, 1, u32::MAX as nat) {
        Some(n) => Some(n as u32),
        None => None,
    }
}

/// The release year of a match of the year pattern, if it lies in the band
/// of plausible release years.
pub open spec fn year_matched(found: Option<Seq<Option<Seq<char>>>>) -> Option<u16> {
    match group_number(found, 1, u16::MAX as nat) {
        Some(n) => if FIRST_YEAR <= n <= LAST_YEAR {
            Some(n as u16)
        } else {
            None
        },
        None => None,
    }
}

/// The plain episode of a match of the episode pattern.
pub open spec fn single_matched(single: Option<Seq<Option<Seq<char>>>>) -> Option<EpisodeModel> {
    if single is Some {
        match group_number(single, 1, u32::MAX as nat) {
            Some(ep) => Some(EpisodeModel::Single(ep as u32)),
            None => None,
        }
    } else {
        None
    }
}

/// The versioned episode of a match of the versioned pattern, or else the
/// plain one.
pub open spec fn versioned_matched(
    versioned: Option<Seq<Option<Seq<char>>>>,
    single: Option<Seq<Option<Seq<char>>>>,
) -> Option<EpisodeModel> {
    if versioned is Some {
        match (
            group_number(versioned, 1, u32::MAX as nat),
            group_number(versioned, 2, u8::MAX as nat),
        ) {
            (Some(ep), Some(v)) => Some(
                EpisodeModel::Version { episode: ep as u32, version: v as u8 },
            ),
            _ => None,
        }
    } else {
        single_matched(single)
    }
}

/// The episode specification of the matches of the three episode patterns.
///
/// A range counts first and is taken if it runs upwards; then a versioned
/// episode; then a plain number. A pattern that matched something that is
/// not a number ends the search.
pub open spec fn episode_matched(
    range: Option<Seq<Option<Seq<char>>>>,
    versioned: Option<Seq<Option<Seq<char>>>>,
    single: Option<Seq<Option<Seq<char>>>>,
) -> Option<EpisodeModel> {
    if range is Some {
        match (group_number(range, 1, u32::MAX as nat), group_number(range, 2, u32::MAX as nat)) {
            (Some(start), Some(end)) => if start < end {
                Some(EpisodeModel::Range(start as u32, end as u32))
            } else {
                versioned_matched(versioned, single)
            },
            _ => None,
        }
    } else {
        versioned_matched(versioned, single)
    }
}

/// The release version of a match of the version pattern, unless the
/// episode already carries one. The bracketed form counts before the bare
/// form.
pub open spec fn version_matched(
    found: Option<Seq<Option<Seq<char>>>>,
    episode: Option<EpisodeModel>,
) -> Option<u8> {
    if episode matches Some(EpisodeModel::Version { .. }) {
        None
    } else {
        let text = match group_text(found, 1) {
            Some(g) => Some(g),
            None => group_text(found, 2),
        };
        match text {
            Some(g) => match parse_unsigned(g, u8::MAX as nat) {
                Some(v) => Some(v as u8),
                None => None,
            },
            None => None,
        }
    }
}

/// The resolution named in the text.
pub open spec fn spec_resolution(t: Seq<char>) -> Option<Resolution> {
    resolution_matched(first_match(PATTERN_RESOLUTION@, t))
}

/// The video codec named in the text.
pub open spec fn spec_video_codec(t: Seq<char>) -> Option<VideoCodec> {
    video_codec_matched(first_match(PATTERN_VIDEO_CODEC@, t))
}

/// The audio codec named in the text.
pub open spec fn spec_audio_codec(t: Seq<char>) -> Option<AudioCodec> {
    audio_codec_matched(first_match(PATTERN_AUDIO_CODEC@, t))
}

/// The source named in the text.
pub open spec fn spec_source(t: Seq<char>) -> Option<MediaSource> {
    source_matched(first_match(PATTERN_SOURCE@, t))
}

/// The season number named in the text.
pub open spec fn spec_season(t: Seq<char>) -> Option<u32> {
    season_matched(first_match(PATTERN_SEASON@, t))
}

/// The release year named in the text: the first year-like number, if it
/// lies in the band of plausible release years.
pub open spec fn spec_year(t: Seq<char>) -> Option<u16> {
    year_matched(first_match(PATTERN_YEAR@, t))
}

/// The episode specification named in the text: a range before a versioned
/// episode before a plain number.
pub open spec fn spec_episode(t: Seq<char>) -> Option<EpisodeModel> {
    episode_matched(
        first_match(PATTERN_EPISODE_RANGE@, t),
        first_match(PATTERN_EPISODE_VERSION@, t),
        first_match(PATTERN_EPISODE@, t),
    )
}

/// The release version named in the text, unless the episode already
/// carries one.
pub open spec fn spec_version(t: Seq<char>, episode: Option<EpisodeModel>) -> Option<u8> {
    version_matched(first_match(PATTERN_VERSION@, t), episode)
}

/// The text with every match of the pattern struck out.
pub open spec fn strike(pattern: Seq<char>, text: Seq<char>) -> Seq<char> {
    replaced_all(pattern, text, SENTINEL_TEXT@)
}

/// The text with every piece of metadata struck out, pattern by pattern.
pub open spec fn struck_out(text: Seq<char>) -> Seq<char> {
    strike(
        PATTERN_EPISODE@,
        strike(
            PATTERN_VERSION@,
            strike(
                PATTERN_SEASON@,
                strike(
                    PATTERN_EPISODE_VERSION@,
                    strike(
                        PATTERN_EPISODE_RANGE@,
                        strike(
                            PATTERN_CRC32@,
                            strike(
                                PATTERN_SOURCE@,
                                strike(
                                    PATTERN_AUDIO_CODEC@,
                                    strike(
                                        PATTERN_VIDEO_CODEC@,
                                        strike(PATTERN_RESOLUTION@, text),
                                    ),
                                ),
                            ),
                        ),
                    ),
                ),
            ),
        ),
    )
}

/// The text behind the first closing square bracket, where a group was
/// found; all of it otherwise.
pub open spec fn without_group(t: Seq<char>, has_group: bool) -> Seq<char> {
    if has_group {
        match first_index_of(t, ']') {
            Some(i) => t.skip(i + 1),
            None => t,
        }
    } else {
        t
    }
}

/// The text up to the last occurrence of the extension as it stands in the
/// input, dot included, where an extension was found; all of it otherwise.
pub open spec fn without_extension(t: Seq<char>, dotted: Option<Seq<char>>) -> Seq<char> {
    match dotted {
        Some(d) => match last_match(t, d) {
            Some(at) => t.take(at),
            None => t,
        },
        None => t,
    }
}

/// The input without the group at its start and the extension at its end.
pub open spec fn title_source(t: Seq<char>, has_group: bool, dotted: Option<Seq<char>>) -> Seq<
    char,
> {
    without_extension(without_group(t, has_group), dotted)
}

/// The text with the year struck out where it stands in parentheses or in
/// square brackets.
pub open spec fn without_year(t: Seq<char>, year: Option<u16>) -> Seq<char> {
    match year {
        Some(y) => replace_text(
            replace_text(t, seq!['('] + decimal(y as nat) + seq![')'], SENTINEL_TEXT@),
            seq!['['] + decimal(y as nat) + seq![']'],
            SENTINEL_TEXT@,
        ),
        None => t,
    }
}

/// The input with group and extension cut off, metadata and the bracketed
/// year struck out, and all other bracketed text blanked.
pub open spec fn title_blanked(
    t: Seq<char>,
    has_group: bool,
    dotted: Option<Seq<char>>,
    year: Option<u16>,
) -> Seq<char> {
    replaced_all(
        PATTERN_BRACKETS@,
        without_year(struck_out(title_source(t, has_group, dotted)), year),
        " "@,
    )
}

/// What is left of the input in front of the first struck-out stretch.
pub open spec fn title_region(
    t: Seq<char>,
    has_group: bool,
    dotted: Option<Seq<char>>,
    year: Option<u16>,
) -> Seq<char> {
    before_first(title_blanked(t, has_group, dotted, year), SENTINEL)
}

/// The title in a text whose metadata is struck out: what stands in front
/// of the first struck-out stretch, with dots and underscores as spaces,
/// whitespace collapsed, and stray hyphens and spaces at the ends removed.
/// An empty result means that there is no title.
pub open spec fn title_of(blanked: Seq<char>) -> Option<Seq<char>> {
    let cleaned = trimmed(
        words_joined(separators_to_spaces(before_first(blanked, SENTINEL))),
        TrimSet::HyphenOrSpace,
    );
    if cleaned.len() == 0 {
        None
    } else {
        Some(cleaned)
    }
}

/// The title: what is left in front once group and extension are cut off
/// and everything else is struck out.
pub open spec fn spec_title(
    t: Seq<char>,
    has_group: bool,
    dotted: Option<Seq<char>>,
    year: Option<u16>,
) -> Option<Seq<char>> {
    if !compiles(PATTERN_BRACKETS@) {
        None
    } else {
        title_of(title_blanked(t, has_group, dotted, year))
    }
}

/// 1 if the field is present, 0 if not.
pub open spec fn present(is_some: bool) -> int {
    if is_some {
        1
    } else {
        0
    }
}

/// How many of the counted fields are present, the title counting twice.
pub open spec fn fields_present(r: ParseRecord) -> int {
    2 * present(r.title is Some) + present(r.group is Some) + present(r.episode is Some) + present(
        r.resolution is Some,
    ) + present(r.video_codec is Some) + present(r.audio_codec is Some) + present(
        r.source is Some,
    )
}

/// How many fields could be present at most: seven, and one more where the
/// title counts twice.
pub open spec fn fields_total(r: ParseRecord) -> int {
    7 + present(r.title is Some)
}

/// The confidence of a record: the share of counted fields that are
/// present.
pub open spec fn spec_confidence(r: ParseRecord) -> u32 {
    spec_ratio(fields_present(r), fields_total(r)) as u32
}

/// The record that the engine extracts from a trimmed, non-empty input.
pub open spec fn spec_parse(t: Seq<char>) -> ParseRecord {
    let fields = ParseRecord {
        input: t,
        title: spec_title(t, spec_group(t) is Some, spec_dotted_extension(t), spec_year(t)),
        group: spec_group(t),
        episode: spec_episode(t),
        season: spec_season(t),
        resolution: spec_resolution(t),
        video_codec: spec_video_codec(t),
        audio_codec: spec_audio_codec(t),
        source: spec_source(t),
        year: spec_year(t),
        crc32: spec_crc32(t),
        extension: spec_extension(t),
        version: spec_version(t, spec_episode(t)),
        confidence: 0,
        parse_mode: ParseMode::Light,
    };
    ParseRecord { confidence: spec_confidence(fields), ..fields }
}

/// The record that the engine extracts from an input, if the input is not
/// blank.
pub open spec fn heuristic_record(input: Seq<char>) -> Option<ParseRecord> {
    let t = trimmed(input, TrimSet::Whitespace);
    if t.len() > 0 {
        Some(spec_parse(t))
    } else {
        None
    }
}

/// What the heuristic engine returns for an input: the record extracted
/// from the trimmed input, or `EmptyInput` if nothing is left of it.
pub open spec fn heuristic_outcome(
    input: Seq<char>,
    result: Result<ParseResult, ZantetsuError>,
) -> bool {
    match heuristic_record(input) {
        Some(record) => result matches Ok(r) && r@ == record && r.wf(),
        None => result matches Err(e) && e is EmptyInput,
    }
}

/// Whether every pattern of the engine compiles.
pub open spec fn all_patterns_compile() -> bool {
    &&& compiles(PATTERN_RESOLUTION@)
    &&& compiles(PATTERN_VIDEO_CODEC@)
    &&& compiles(PATTERN_AUDIO_CODEC@)
    &&& compiles(PATTERN_SOURCE@)
    &&& compiles(PATTERN_CRC32@)
    &&& compiles(PATTERN_EPISODE_RANGE@)
    &&& compiles(PATTERN_EPISODE_VERSION@)
    &&& compiles(PATTERN_EPISODE@)
    &&& compiles(PATTERN_SEASON@)
    &&& compiles(PATTERN_VERSION@)
    &&& compiles(PATTERN_YEAR@)
    &&& compiles(PATTERN_EXTENSION@)
    &&& compiles(PATTERN_GROUP@)
}

} // verus!
