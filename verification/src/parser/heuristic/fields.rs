//! From what the patterns matched to the fields of the record.
//!
//! Every function here takes the capture groups of a match, or a text that
//! a pattern has already rewritten, and says exactly what the engine makes
//! of it.

use vstd::prelude::*;
use crate::parser::heuristic::model::{
    FIRST_YEAR,
    LAST_YEAR,
    SENTINEL,
    SENTINEL_TEXT,
    audio_codec_matched,
    audio_codec_of,
    crc32_matched,
    dotted_extension_matched,
    episode_matched,
    extension_matched,
    group_matched,
    group_number,
    group_text,
    resolution_matched,
    season_matched,
    source_matched,
    source_named,
    title_of,
    title_source,
    version_matched,
    video_codec_matched,
    video_codec_of,
    without_year,
    year_matched,
};
use crate::parser::patterns::groups_view;
use crate::text::{
    TrimSet,
    chars_are,
    chars_contain,
    chars_of,
    chars_start_with,
    decimal,
    drop_spaces_and_hyphens,
    extend_chars,
    find_char,
    join_words,
    opt_chars,
    opt_text,
    parse_number,
    push_decimal,
    replace_chars,
    rfind_chars,
    slice_chars,
    spaces_for_separators,
    string_of,
    to_lowercase,
    to_uppercase,
    trim_chars,
};
use crate::types::{AudioCodec, EpisodeSpec, MediaSource, Resolution, VideoCodec};
use crate::types::episode::EpisodeModel;

verus! {

/// An episode specification as plain data, where there is one.
pub open spec fn opt_episode(episode: Option<EpisodeSpec>) -> Option<EpisodeModel> {
    match episode {
        Some(ep) => Some(ep@),
        None => None,
    }
}

/// The characters of capture group `idx`, if the pattern matched and the
/// group took part.
pub fn group_chars(groups: &Option<Vec<Option<String>>>, idx: usize) -> (text: Option<Vec<char>>)
    ensures
        opt_chars(text) == group_text(groups_view(*groups), idx as int),
{
    match groups {
        Some(v) => {
            if idx < v.len() {
                match &v[idx] {
                    Some(g) => Some(chars_of(g.as_str())),
                    None => None,
                }
            } else {
                None
            }
        },
        None => None,
    }
}

/// The number that capture group `idx` denotes, if it is a numeral of at
/// most `max`.
pub fn group_value(groups: &Option<Vec<Option<String>>>, idx: usize, max: u32) -> (value: Option<
    u32,
>)
    ensures
        match value {
            Some(v) => group_number(groups_view(*groups), idx as int, max as nat) == Some(v as nat),
            None => group_number(groups_view(*groups), idx as int, max as nat) is None,
        },
{
    match group_chars(groups, idx) {
        Some(text) => parse_number(&text, max),
        None => None,
    }
}

/// The release group of a match of the group pattern: the bracketed text,
/// trimmed.
pub fn group_from(found: &Option<Vec<Option<String>>>) -> (group: Option<String>)
    ensures
        opt_text(group) == group_matched(groups_view(*found)),
{
    match group_chars(found, 1) {
        Some(g) => Some(string_of(&trim_chars(&g, TrimSet::Whitespace))),
        None => None,
    }
}

/// The file extension of a match of the extension pattern, in lower case.
pub fn extension_from(found: &Option<Vec<Option<String>>>) -> (extension: Option<String>)
    ensures
        opt_text(extension) == extension_matched(groups_view(*found)),
{
    match group_chars(found, 1) {
        Some(g) => Some(to_lowercase(string_of(&g).as_str())),
        None => None,
    }
}

/// The extension as it stands in the input, dot included, where the
/// extension pattern found one.
pub fn dotted_extension_from(found: &Option<Vec<Option<String>>>) -> (dotted: Option<Vec<char>>)
    ensures
        opt_chars(dotted) == dotted_extension_matched(groups_view(*found)),
{
    match group_chars(found, 1) {
        Some(_) => group_chars(found, 0),
        None => None,
    }
}

/// The checksum of a match of the checksum pattern, in upper case.
pub fn crc32_from(found: &Option<Vec<Option<String>>>) -> (crc32: Option<String>)
    ensures
        opt_text(crc32) == crc32_matched(groups_view(*found)),
{
    match group_chars(found, 1) {
        Some(g) => Some(to_uppercase(string_of(&g).as_str())),
        None => None,
    }
}

/// The resolution of a match of the resolution pattern.
pub fn resolution_from(found: &Option<Vec<Option<String>>>) -> (resolution: Option<Resolution>)
    ensures
        resolution == resolution_matched(groups_view(*found)),
{
    match group_chars(found, 1) {
        Some(g) => {
            if chars_are(&g, "2160") {
                Some(Resolution::UHD2160)
            } else if chars_are(&g, "1080") {
                Some(Resolution::FHD1080)
            } else if chars_are(&g, "720") {
                Some(Resolution::HD720)
            } else if chars_are(&g, "480") {
                Some(Resolution::SD480)
            } else {
                None
            }
        },
        None => None,
    }
}

/// The video codec that a lower-case spelling stands for.
pub fn video_codec_named(lower: &str) -> (codec: Option<VideoCodec>)
    ensures
        codec == video_codec_of(lower@),
{
    let name = chars_of(lower);
    if chars_are(&name, "x264") || chars_are(&name, "x.264") || chars_are(&name, "h264")
        || chars_are(&name, "h.264") {
        Some(VideoCodec::H264)
    } else if chars_are(&name, "x265") || chars_are(&name, "x.265") || chars_are(&name, "h265")
        || chars_are(&name, "h.265") || chars_are(&name, "hevc") {
        Some(VideoCodec::HEVC)
    } else if chars_are(&name, "av1") {
        Some(VideoCodec::AV1)
    } else if chars_are(&name, "vp9") {
        Some(VideoCodec::VP9)
    } else if chars_are(&name, "mpeg4") || chars_are(&name, "xvid") {
        Some(VideoCodec::MPEG4)
    } else {
        None
    }
}

/// The video codec of a match of the video-codec pattern.
pub fn video_codec_from(found: &Option<Vec<Option<String>>>) -> (codec: Option<VideoCodec>)
    ensures
        codec == video_codec_matched(groups_view(*found)),
{
    match group_chars(found, 1) {
        Some(g) => video_codec_named(to_lowercase(string_of(&g).as_str()).as_str()),
        None => None,
    }
}

/// The audio codec that a lower-case spelling stands for.
pub fn audio_codec_named(lower: &str) -> (codec: Option<AudioCodec>)
    ensures
        codec == audio_codec_of(lower@),
{
    let name = chars_of(lower);
    if chars_are(&name, "flac") {
        Some(AudioCodec::FLAC)
    } else if chars_are(&name, "aac") {
        Some(AudioCodec::AAC)
    } else if chars_are(&name, "opus") {
        Some(AudioCodec::Opus)
    } else if chars_are(&name, "ac3") {
        Some(AudioCodec::AC3)
    } else if chars_start_with(&name, "dts") {
        Some(AudioCodec::DTS)
    } else if chars_contain(&name, "truehd") || chars_contain(&name, "true hd") {
        Some(AudioCodec::TrueHD)
    } else if chars_are(&name, "mp3") {
        Some(AudioCodec::MP3)
    } else if chars_are(&name, "vorbis") || chars_are(&name, "ogg") {
        Some(AudioCodec::Vorbis)
    } else if chars_start_with(&name, "e-aac") || chars_start_with(&name, "eaac") {
        Some(AudioCodec::EAAC)
    } else {
        None
    }
}

/// The audio codec of a match of the audio-codec pattern.
pub fn audio_codec_from(found: &Option<Vec<Option<String>>>) -> (codec: Option<AudioCodec>)
    ensures
        codec == audio_codec_matched(groups_view(*found)),
{
    match group_chars(found, 1) {
        Some(g) => audio_codec_named(to_lowercase(string_of(&g).as_str()).as_str()),
        None => None,
    }
}

/// The source that a lower-case spelling stands for, spaces and hyphens
/// aside.
pub fn source_spelled(lower: &str) -> (source: Option<MediaSource>)
    ensures
        source == source_named(lower@),
{
    let name = drop_spaces_and_hyphens(&chars_of(lower));
    if chars_contain(&name, "remux") {
        Some(MediaSource::BluRayRemux)
    } else if chars_contain(&name, "blu") || chars_are(&name, "bd") {
        Some(MediaSource::BluRay)
    } else if chars_are(&name, "webdl") {
        Some(MediaSource::WebDL)
    } else if chars_are(&name, "webrip") {
        Some(MediaSource::WebRip)
    } else if chars_are(&name, "hdtv") {
        Some(MediaSource::HDTV)
    } else if chars_start_with(&name, "dvd") {
        Some(MediaSource::DVD)
    } else if chars_are(&name, "laserdisc") || chars_are(&name, "ld") {
        Some(MediaSource::LaserDisc)
    } else if chars_are(&name, "vhs") {
        Some(MediaSource::VHS)
    } else {
        None
    }
}

/// The source of a match of the source pattern.
pub fn source_from(found: &Option<Vec<Option<String>>>) -> (source: Option<MediaSource>)
    ensures
        source == source_matched(groups_view(*found)),
{
    match group_chars(found, 1) {
        Some(g) => source_spelled(to_lowercase(string_of(&g).as_str()).as_str()),
        None => None,
    }
}

/// The season number of a match of the season pattern.
pub fn season_from(found: &Option<Vec<Option<String>>>) -> (season: Option<u32>)
    ensures
        season == season_matched(groups_view(*found)),
{
    group_value(found, 1, u32::MAX)
}

/// The release year of a match of the year pattern, if it is a plausible
/// one.
pub fn year_from(found: &Option<Vec<Option<String>>>) -> (year: Option<u16>)
    ensures
        year == year_matched(groups_view(*found)),
{
    match group_value(found, 1, 0xffff) {
        Some(y) => {
            if FIRST_YEAR as u32 <= y && y <= LAST_YEAR as u32 {
                Some(y as u16)
            } else {
                None
            }
        },
        None => None,
    }
}

/// The episode specification of the matches of the three episode patterns:
/// a range before a versioned episode before a plain number. A range is
/// only ever returned if it runs upwards.
pub fn episode_from(
    range: &Option<Vec<Option<String>>>,
    versioned: &Option<Vec<Option<String>>>,
    single: &Option<Vec<Option<String>>>,
) -> (episode: Option<EpisodeSpec>)
    ensures
        opt_episode(episode) == episode_matched(
            groups_view(*range),
            groups_view(*versioned),
            groups_view(*single),
        ),
        episode matches Some(EpisodeSpec::Range(start, end)) ==> start < end,
{
    if range.is_some() {
        let start = match group_value(range, 1, u32::MAX) {
            Some(n) => n,
            None => return None,
        };
        let end = match group_value(range, 2, u32::MAX) {
            Some(n) => n,
            None => return None,
        };
        if start < end {
            return Some(EpisodeSpec::Range(start, end));
        }
    }
    if versioned.is_some() {
        let episode = match group_value(versioned, 1, u32::MAX) {
            Some(n) => n,
            None => return None,
        };
        let version = match group_value(versioned, 2, 0xff) {
            Some(n) => n,
            None => return None,
        };
        return Some(EpisodeSpec::Version { episode, version: version as u8 });
    }
    if single.is_some() {
        let ep = match group_value(single, 1, u32::MAX) {
            Some(n) => n,
            None => return None,
        };
        return Some(EpisodeSpec::Single(ep));
    }
    None
}

/// The release version of a match of the version pattern, unless the
/// episode already carries one.
pub fn version_from(found: &Option<Vec<Option<String>>>, episode: &Option<EpisodeSpec>) -> (version:
    Option<u8>)
    ensures
        version == version_matched(groups_view(*found), opt_episode(*episode)),
{
    if let Some(EpisodeSpec::Version { .. }) = episode {
        return None;
    }
    let text = match group_chars(found, 1) {
        Some(g) => Some(g),
        None => group_chars(found, 2),
    };
    match text {
        Some(g) => match parse_number(&g, 0xff) {
            Some(v) => Some(v as u8),
            None => None,
        },
        None => None,
    }
}

/// The input without the group at its start and without the extension at
/// its end. The extension is cut as it stands in the input, whatever its
/// case.
pub fn cut_group_and_extension(input: &str, has_group: bool, dotted: &Option<Vec<char>>) -> (work:
    String)
    ensures
        work@ == title_source(input@, has_group, opt_chars(*dotted)),
{
    let chars = chars_of(input);
    let len = chars.len();
    let work = if has_group {
        match find_char(&chars, ']') {
            Some(end) => {
                let rest = slice_chars(&chars, end + 1, len);
                assert(chars@.subrange(end + 1, chars@.len() as int) =~= chars@.skip(end + 1));
                rest
            },
            None => chars,
        }
    } else {
        chars
    };
    let work = match dotted {
        Some(d) => {
            match rfind_chars(&work, d) {
                Some(pos) => {
                    let head = slice_chars(&work, 0, pos);
                    assert(work@.subrange(0, pos as int) =~= work@.take(pos as int));
                    head
                },
                None => work,
            }
        },
        None => work,
    };
    string_of(&work)
}

/// The text with the year struck out where it stands in parentheses or in
/// square brackets.
pub fn strike_year(text: &str, year: Option<u16>) -> (out: String)
    ensures
        out@ == without_year(text@, year),
{
    let work = chars_of(text);
    let work = match year {
        Some(year) => {
            let sentinel = chars_of(SENTINEL_TEXT);
            let mut digits = String::new();
            push_decimal(&mut digits, year as u64);
            let digits = chars_of(digits.as_str());
            assert(digits@ =~= decimal(year as nat));
            let mut round: Vec<char> = Vec::new();
            round.push('(');
            extend_chars(&mut round, &digits);
            round.push(')');
            assert(round@ =~= seq!['('] + decimal(year as nat) + seq![')']);
            let mut square: Vec<char> = Vec::new();
            square.push('[');
            extend_chars(&mut square, &digits);
            square.push(']');
            assert(square@ =~= seq!['['] + decimal(year as nat) + seq![']']);
            let work = replace_chars(&work, &round, &sentinel);
            replace_chars(&work, &square, &sentinel)
        },
        None => work,
    };
    string_of(&work)
}

/// The title in a text whose metadata is struck out: what stands in front
/// of the first struck-out stretch, cleaned up. `None` if nothing is left.
pub fn title_from(blanked: &str) -> (title: Option<String>)
    ensures
        opt_text(title) == title_of(blanked@),
{
    let work = chars_of(blanked);
    let region = match find_char(&work, SENTINEL) {
        Some(end) => {
            let head = slice_chars(&work, 0, end);
            assert(work@.subrange(0, end as int) =~= work@.take(end as int));
            head
        },
        None => work,
    };
    let cleaned = trim_chars(&join_words(&spaces_for_separators(&region)), TrimSet::HyphenOrSpace);
    if cleaned.len() == 0 {
        None
    } else {
        Some(string_of(&cleaned))
    }
}

} // verus!
