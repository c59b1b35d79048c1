//! The record that extraction produces.

use vstd::prelude::*;
use vstd::string::StringExecFns;
use crate::fixed::ONE;
use crate::text::{
    debug_quoted,
    decimal,
    digit_char,
    digit_to_char,
    opt_text,
    push_char,
    push_decimal,
    quoted,
};
use crate::types::episode::{EpisodeModel, EpisodeSpec};
use crate::types::quality::{AudioCodec, MediaSource, ParseMode, Resolution, VideoCodec};

verus! {

/// Everything that was extracted from one release name.
///
/// Every field but the input, the confidence and the mode may be absent.
#[derive(Debug, Clone, PartialEq)]
pub struct ParseResult {
    /// The input that was parsed.
    pub input: String,
    /// The title of the work.
    pub title: Option<String>,
    /// The release group.
    pub group: Option<String>,
    /// The episode or episodes covered.
    pub episode: Option<EpisodeSpec>,
    /// The season number.
    pub season: Option<u32>,
    /// The video resolution.
    pub resolution: Option<Resolution>,
    /// The video codec.
    pub video_codec: Option<VideoCodec>,
    /// The audio codec.
    pub audio_codec: Option<AudioCodec>,
    /// Where the release was taken from.
    pub source: Option<MediaSource>,
    /// The release year.
    pub year: Option<u16>,
    /// The checksum: eight hexadecimal digits.
    pub crc32: Option<String>,
    /// The file extension, without the dot.
    pub extension: Option<String>,
    /// The revision of the release.
    pub version: Option<u8>,
    /// How complete the extraction is, between 0.0 and 1.0, in millionths.
    pub confidence: u32,
    /// The engine that produced the record.
    pub parse_mode: ParseMode,
}

/// A record as plain data.
pub ghost struct ParseRecord {
    pub input: Seq<char>,
    pub title: Option<Seq<char>>,
    pub group: Option<Seq<char>>,
    pub episode: Option<EpisodeModel>,
    pub season: Option<u32>,
    pub resolution: Option<Resolution>,
    pub video_codec: Option<VideoCodec>,
    pub audio_codec: Option<AudioCodec>,
    pub source: Option<MediaSource>,
    pub year: Option<u16>,
    pub crc32: Option<Seq<char>>,
    pub extension: Option<Seq<char>>,
    pub version: Option<u8>,
    pub confidence: u32,
    pub parse_mode: ParseMode,
}

impl View for ParseResult {
    type V = ParseRecord;

    open spec fn view(&self) -> ParseRecord {
        ParseRecord {
            input: self.input@,
            title: opt_text(self.title),
            group: opt_text(self.group),
            episode: match self.episode {
                Some(ep) => Some(ep@),
                None => None,
            },
            season: self.season,
            resolution: self.resolution,
            video_codec: self.video_codec,
            audio_codec: self.audio_codec,
            source: self.source,
            year: self.year,
            crc32: opt_text(self.crc32),
            extension: opt_text(self.extension),
            version: self.version,
            confidence: self.confidence,
            parse_mode: self.parse_mode,
        }
    }
}

impl ParseRecord {
    /// Whether the record is one that an engine may produce: the confidence
    /// is at most 1.0 and an episode range runs upwards.
    pub open spec fn wf(&self) -> bool {
        &&& self.confidence <= ONE
        &&& self.episode matches Some(EpisodeModel::Range(start, end)) ==> start < end
    }
}

/// The title part of a summary.
pub open spec fn title_part(title: Option<Seq<char>>) -> Seq<char> {
    match title {
        Some(t) => "title="@ + debug_quoted(t),
        None => Seq::empty(),
    }
}

/// The episode part of a summary.
pub open spec fn episode_part(episode: Option<EpisodeSpec>) -> Seq<char> {
    match episode {
        Some(ep) => ", ep="@ + ep.spec_text(),
        None => Seq::empty(),
    }
}

/// The resolution part of a summary.
pub open spec fn resolution_part(resolution: Option<Resolution>) -> Seq<char> {
    match resolution {
        Some(res) => ", res="@ + res.spec_text(),
        None => Seq::empty(),
    }
}

/// A confidence as text with two decimals, rounded half up.
pub open spec fn confidence_text(confidence: u32) -> Seq<char> {
    let hundredths = (confidence as int + 5_000) / 10_000;
    decimal((hundredths / 100) as nat) + seq![
        '.',
        digit_char(hundredths / 10 % 10),
        digit_char(hundredths % 10),
    ]
}

impl ParseResult {
    /// Whether the record is one that an engine may produce: the confidence
    /// is at most 1.0 and an episode range runs upwards.
    pub open spec fn wf(&self) -> bool {
        &&& self.confidence <= ONE
        &&& self.episode matches Some(ep) ==> ep.wf()
    }

    /// Whether anything beyond title and group was extracted.
    pub open spec fn spec_has_metadata(&self) -> bool {
        self.episode is Some || self.season is Some || self.resolution is Some
            || self.video_codec is Some || self.audio_codec is Some || self.source is Some
    }

    /// An empty record for the given input and mode.
    pub fn new(input: &str, parse_mode: ParseMode) -> (record: Self)
        ensures
            record.input@ == input@,
            record.title is None,
            record.group is None,
            record.episode is None,
            record.season is None,
            record.resolution is None,
            record.video_codec is None,
            record.audio_codec is None,
            record.source is None,
            record.year is None,
            record.crc32 is None,
            record.extension is None,
            record.version is None,
            record.confidence == 0,
            record.parse_mode == parse_mode,
            record.wf(),
    {
        Self {
            input: input.to_owned(),
            title: None,
            group: None,
            episode: None,
            season: None,
            resolution: None,
            video_codec: None,
            audio_codec: None,
            source: None,
            year: None,
            crc32: None,
            extension: None,
            version: None,
            confidence: 0,
            parse_mode,
        }
    }

    /// Whether a title was extracted.
    pub fn has_title(&self) -> (b: bool)
        ensures
            b == self.title is Some,
    {
        self.title.is_some()
    }

    /// Whether anything beyond title and group was extracted: an episode, a
    /// season, a resolution, a codec or a source.
    pub fn has_metadata(&self) -> (b: bool)
        ensures
            b == self.spec_has_metadata(),
    {
        self.episode.is_some() || self.season.is_some() || self.resolution.is_some()
            || self.video_codec.is_some() || self.audio_codec.is_some() || self.source.is_some()
    }

    /// Whether the record is one that an engine may produce.
    pub fn is_well_formed(&self) -> (ok: bool)
        ensures
            ok == self.wf(),
    {
        self.confidence <= ONE && match &self.episode {
            Some(ep) => ep.is_well_formed(),
            None => true,
        }
    }

    /// The one-line summary of the record.
    pub open spec fn spec_text(&self) -> Seq<char> {
        "ParseResult("@ + title_part(opt_text(self.title)) + episode_part(self.episode)
            + resolution_part(self.resolution) + ", conf="@ + confidence_text(self.confidence)
            + ", mode="@ + self.parse_mode.spec_text() + ")"@
    }

    /// A one-line summary: title, episode and resolution where present, then
    /// the confidence with two decimals and the mode.
    pub fn to_string(&self) -> (text: String)
        ensures
            text@ == self.spec_text(),
    {
        let mut out = "ParseResult(".to_owned();
        out.append(title_text(&self.title).as_str());
        out.append(episode_text(&self.episode).as_str());
        out.append(resolution_text(&self.resolution).as_str());
        out.append(", conf=");
        out.append(confidence_string(self.confidence).as_str());
        out.append(", mode=");
        out.append(self.parse_mode.to_string().as_str());
        out.append(")");
        out
    }
}

/// The title part of a summary.
fn title_text(title: &Option<String>) -> (text: String)
    ensures
        text@ == title_part(opt_text(*title)),
{
    match title {
        Some(t) => "title=".to_owned().concat(quoted(t.as_str()).as_str()),
        None => String::new(),
    }
}

/// The episode part of a summary.
fn episode_text(episode: &Option<EpisodeSpec>) -> (text: String)
    ensures
        text@ == episode_part(*episode),
{
    match episode {
        Some(ep) => ", ep=".to_owned().concat(ep.to_string().as_str()),
        None => String::new(),
    }
}

/// The resolution part of a summary.
fn resolution_text(resolution: &Option<Resolution>) -> (text: String)
    ensures
        text@ == resolution_part(*resolution),
{
    match resolution {
        Some(res) => ", res=".to_owned().concat(res.to_string().as_str()),
        None => String::new(),
    }
}

/// A confidence as text with two decimals, rounded half up.
pub fn confidence_string(confidence: u32) -> (text: String)
    ensures
        text@ == confidence_text(confidence),
{
    let hundredths: u32 = (confidence / 10_000) + (if confidence % 10_000 >= 5_000 {
        1u32
    } else {
        0u32
    });
    assert(hundredths as int == (confidence as int + 5_000) / 10_000);
    let mut out = String::new();
    push_decimal(&mut out, (hundredths / 100) as u64);
    push_char(&mut out, '.');
    push_char(&mut out, digit_to_char((hundredths / 10 % 10) as u8));
    push_char(&mut out, digit_to_char((hundredths % 10) as u8));
    assert(out@ =~= confidence_text(confidence));
    out
}

} // verus!
