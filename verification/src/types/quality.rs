//! The quality dimensions of a release and their desirability scores.
//!
//! Each member of a dimension carries a fixed score between 0.0 and 1.0, held
//! in millionths, and a canonical display text.

use vstd::prelude::*;

verus! {

/// Video resolution.
#[derive(Debug, Clone, Copy, PartialEq, Eq, Hash, PartialOrd, Ord, Structural)]
pub enum Resolution {
    /// 480p, standard definition.
    SD480,
    /// 720p, high definition.
    HD720,
    /// 1080p, full high definition.
    FHD1080,
    /// 2160p, ultra high definition.
    UHD2160,
}

impl Resolution {
    /// The name of this member as it is written in code.
    pub open spec fn spec_name(self) -> Seq<char> {
        match self {
            Resolution::SD480 => "SD480"@,
            Resolution::HD720 => "HD720"@,
            Resolution::FHD1080 => "FHD1080"@,
            Resolution::UHD2160 => "UHD2160"@,
        }
    }

    /// The name of this member as it is written in code, such as `SD480`.
    pub fn name(&self) -> (name: String)
        ensures
            name@ == self.spec_name(),
    {
        let text: &str = match self {
            Resolution::SD480 => "SD480",
            Resolution::HD720 => "HD720",
            Resolution::FHD1080 => "FHD1080",
            Resolution::UHD2160 => "UHD2160",
        };
        text.to_owned()
    }

    /// The desirability of this resolution, in millionths.
    pub open spec fn spec_score(self) -> u32 {
        match self {
            Resolution::SD480 => 250_000,
            Resolution::HD720 => 500_000,
            Resolution::FHD1080 => 850_000,
            Resolution::UHD2160 => 1_000_000,
        }
    }

    /// The display text of this resolution.
    pub open spec fn spec_text(self) -> Seq<char> {
        match self {
            Resolution::SD480 => "480p"@,
            Resolution::HD720 => "720p"@,
            Resolution::FHD1080 => "1080p"@,
            Resolution::UHD2160 => "2160p"@,
        }
    }

    /// The desirability of this resolution, in millionths.
    pub fn score(self) -> (s: u32)
        ensures
            s == self.spec_score(),
            s <= 1_000_000,
    {
        match self {
            Resolution::SD480 => 250_000,
            Resolution::HD720 => 500_000,
            Resolution::FHD1080 => 850_000,
            Resolution::UHD2160 => 1_000_000,
        }
    }

    /// The display text, such as `1080p`.
    pub fn to_string(&self) -> (text: String)
        ensures
            text@ == self.spec_text(),
    {
        let text: &str = match self {
            Resolution::SD480 => "480p",
            Resolution::HD720 => "720p",
            Resolution::FHD1080 => "1080p",
            Resolution::UHD2160 => "2160p",
        };
        text.to_owned()
    }
}

/// Video codec.
#[derive(Debug, Clone, Copy, PartialEq, Eq, Hash, Structural)]
pub enum VideoCodec {
    H264,
    HEVC,
    AV1,
    VP9,
    MPEG4,
}

impl VideoCodec {
    /// The name of this member as it is written in code.
    pub open spec fn spec_name(self) -> Seq<char> {
        match self {
            VideoCodec::H264 => "H264"@,
            VideoCodec::HEVC => "HEVC"@,
            VideoCodec::AV1 => "AV1"@,
            VideoCodec::VP9 => "VP9"@,
            VideoCodec::MPEG4 => "MPEG4"@,
        }
    }

    /// The name of this member as it is written in code, such as `H264`.
    pub fn name(&self) -> (name: String)
        ensures
            name@ == self.spec_name(),
    {
        let text: &str = match self {
            VideoCodec::H264 => "H264",
            VideoCodec::HEVC => "HEVC",
            VideoCodec::AV1 => "AV1",
            VideoCodec::VP9 => "VP9",
            VideoCodec::MPEG4 => "MPEG4",
        };
        text.to_owned()
    }

    /// The desirability of this codec, in millionths.
    pub open spec fn spec_score(self) -> u32 {
        match self {
            VideoCodec::AV1 => 1_000_000,
            VideoCodec::HEVC => 850_000,
            VideoCodec::VP9 => 700_000,
            VideoCodec::H264 => 600_000,
            VideoCodec::MPEG4 => 200_000,
        }
    }

    /// The display text of this codec.
    pub open spec fn spec_text(self) -> Seq<char> {
        match self {
            VideoCodec::H264 => "H.264"@,
            VideoCodec::HEVC => "HEVC"@,
            VideoCodec::AV1 => "AV1"@,
            VideoCodec::VP9 => "VP9"@,
            VideoCodec::MPEG4 => "MPEG-4"@,
        }
    }

    /// The desirability of this codec, in millionths.
    pub fn score(self) -> (s: u32)
        ensures
            s == self.spec_score(),
            s <= 1_000_000,
    {
        match self {
            VideoCodec::AV1 => 1_000_000,
            VideoCodec::HEVC => 850_000,
            VideoCodec::VP9 => 700_000,
            VideoCodec::H264 => 600_000,
            VideoCodec::MPEG4 => 200_000,
        }
    }

    /// The display text, such as `H.264`.
    pub fn to_string(&self) -> (text: String)
        ensures
            text@ == self.spec_text(),
    {
        let text: &str = match self {
            VideoCodec::H264 => "H.264",
            VideoCodec::HEVC => "HEVC",
            VideoCodec::AV1 => "AV1",
            VideoCodec::VP9 => "VP9",
            VideoCodec::MPEG4 => "MPEG-4",
        };
        text.to_owned()
    }
}

/// Audio codec.
#[derive(Debug, Clone, Copy, PartialEq, Eq, Hash, Structural)]
pub enum AudioCodec {
    FLAC,
    AAC,
    Opus,
    AC3,
    DTS,
    MP3,
    Vorbis,
    TrueHD,
    EAAC,
}

impl AudioCodec {
    /// The name of this member as it is written in code.
    pub open spec fn spec_name(self) -> Seq<char> {
        match self {
            AudioCodec::FLAC => "FLAC"@,
            AudioCodec::AAC => "AAC"@,
            AudioCodec::Opus => "Opus"@,
            AudioCodec::AC3 => "AC3"@,
            AudioCodec::DTS => "DTS"@,
            AudioCodec::MP3 => "MP3"@,
            AudioCodec::Vorbis => "Vorbis"@,
            AudioCodec::TrueHD => "TrueHD"@,
            AudioCodec::EAAC => "EAAC"@,
        }
    }

    /// The name of this member as it is written in code, such as `FLAC`.
    pub fn name(&self) -> (name: String)
        ensures
            name@ == self.spec_name(),
    {
        let text: &str = match self {
            AudioCodec::FLAC => "FLAC",
            AudioCodec::AAC => "AAC",
            AudioCodec::Opus => "Opus",
            AudioCodec::AC3 => "AC3",
            AudioCodec::DTS => "DTS",
            AudioCodec::MP3 => "MP3",
            AudioCodec::Vorbis => "Vorbis",
            AudioCodec::TrueHD => "TrueHD",
            AudioCodec::EAAC => "EAAC",
        };
        text.to_owned()
    }

    /// The desirability of this codec, in millionths.
    pub open spec fn spec_score(self) -> u32 {
        match self {
            AudioCodec::TrueHD => 1_000_000,
            AudioCodec::FLAC => 950_000,
            AudioCodec::DTS => 750_000,
            AudioCodec::Opus => 700_000,
            AudioCodec::AAC => 600_000,
            AudioCodec::EAAC => 550_000,
            AudioCodec::AC3 => 500_000,
            AudioCodec::Vorbis => 450_000,
            AudioCodec::MP3 => 300_000,
        }
    }

    /// The display text of this codec.
    pub open spec fn spec_text(self) -> Seq<char> {
        match self {
            AudioCodec::FLAC => "FLAC"@,
            AudioCodec::AAC => "AAC"@,
            AudioCodec::Opus => "Opus"@,
            AudioCodec::AC3 => "AC3"@,
            AudioCodec::DTS => "DTS"@,
            AudioCodec::MP3 => "MP3"@,
            AudioCodec::Vorbis => "Vorbis"@,
            AudioCodec::TrueHD => "TrueHD"@,
            AudioCodec::EAAC => "E-AAC+"@,
        }
    }

    /// The desirability of this codec, in millionths.
    pub fn score(self) -> (s: u32)
        ensures
            s == self.spec_score(),
            s <= 1_000_000,
    {
        match self {
            AudioCodec::TrueHD => 1_000_000,
            AudioCodec::FLAC => 950_000,
            AudioCodec::DTS => 750_000,
            AudioCodec::Opus => 700_000,
            AudioCodec::AAC => 600_000,
            AudioCodec::EAAC => 550_000,
            AudioCodec::AC3 => 500_000,
            AudioCodec::Vorbis => 450_000,
            AudioCodec::MP3 => 300_000,
        }
    }

    /// The display text, such as `FLAC`.
    pub fn to_string(&self) -> (text: String)
        ensures
            text@ == self.spec_text(),
    {
        let text: &str = match self {
            AudioCodec::FLAC => "FLAC",
            AudioCodec::AAC => "AAC",
            AudioCodec::Opus => "Opus",
            AudioCodec::AC3 => "AC3",
            AudioCodec::DTS => "DTS",
            AudioCodec::MP3 => "MP3",
            AudioCodec::Vorbis => "Vorbis",
            AudioCodec::TrueHD => "TrueHD",
            AudioCodec::EAAC => "E-AAC+",
        };
        text.to_owned()
    }
}

/// Where a release was taken from.
#[derive(Debug, Clone, Copy, PartialEq, Eq, Hash, Structural)]
pub enum MediaSource {
    BluRayRemux,
    BluRay,
    WebDL,
    WebRip,
    HDTV,
    DVD,
    LaserDisc,
    VHS,
}

impl MediaSource {
    /// The name of this member as it is written in code.
    pub open spec fn spec_name(self) -> Seq<char> {
        match self {
            MediaSource::BluRayRemux => "BluRayRemux"@,
            MediaSource::BluRay => "BluRay"@,
            MediaSource::WebDL => "WebDL"@,
            MediaSource::WebRip => "WebRip"@,
            MediaSource::HDTV => "HDTV"@,
            MediaSource::DVD => "DVD"@,
            MediaSource::LaserDisc => "LaserDisc"@,
            MediaSource::VHS => "VHS"@,
        }
    }

    /// The name of this member as it is written in code, such as `BluRayRemux`.
    pub fn name(&self) -> (name: String)
        ensures
            name@ == self.spec_name(),
    {
        let text: &str = match self {
            MediaSource::BluRayRemux => "BluRayRemux",
            MediaSource::BluRay => "BluRay",
            MediaSource::WebDL => "WebDL",
            MediaSource::WebRip => "WebRip",
            MediaSource::HDTV => "HDTV",
            MediaSource::DVD => "DVD",
            MediaSource::LaserDisc => "LaserDisc",
            MediaSource::VHS => "VHS",
        };
        text.to_owned()
    }

    /// The desirability of this source, in millionths.
    pub open spec fn spec_score(self) -> u32 {
        match self {
            MediaSource::BluRayRemux => 1_000_000,
            MediaSource::BluRay => 900_000,
            MediaSource::WebDL => 750_000,
            MediaSource::WebRip => 650_000,
            MediaSource::HDTV => 500_000,
            MediaSource::DVD => 400_000,
            MediaSource::LaserDisc => 300_000,
            MediaSource::VHS => 150_000,
        }
    }

    /// The display text of this source.
    pub open spec fn spec_text(self) -> Seq<char> {
        match self {
            MediaSource::BluRayRemux => "Blu-ray Remux"@,
            MediaSource::BluRay => "Blu-ray"@,
            MediaSource::WebDL => "WEB-DL"@,
            MediaSource::WebRip => "WEBRip"@,
            MediaSource::HDTV => "HDTV"@,
            MediaSource::DVD => "DVD"@,
            MediaSource::LaserDisc => "LaserDisc"@,
            MediaSource::VHS => "VHS"@,
        }
    }

    /// The desirability of this source, in millionths.
    pub fn score(self) -> (s: u32)
        ensures
            s == self.spec_score(),
            s <= 1_000_000,
    {
        match self {
            MediaSource::BluRayRemux => 1_000_000,
            MediaSource::BluRay => 900_000,
            MediaSource::WebDL => 750_000,
            MediaSource::WebRip => 650_000,
            MediaSource::HDTV => 500_000,
            MediaSource::DVD => 400_000,
            MediaSource::LaserDisc => 300_000,
            MediaSource::VHS => 150_000,
        }
    }

    /// The display text, such as `Blu-ray`.
    pub fn to_string(&self) -> (text: String)
        ensures
            text@ == self.spec_text(),
    {
        let text: &str = match self {
            MediaSource::BluRayRemux => "Blu-ray Remux",
            MediaSource::BluRay => "Blu-ray",
            MediaSource::WebDL => "WEB-DL",
            MediaSource::WebRip => "WEBRip",
            MediaSource::HDTV => "HDTV",
            MediaSource::DVD => "DVD",
            MediaSource::LaserDisc => "LaserDisc",
            MediaSource::VHS => "VHS",
        };
        text.to_owned()
    }
}

/// Which engine to use, and which engine produced a record.
#[derive(Debug, Clone, Copy, PartialEq, Eq, Hash, Structural)]
pub enum ParseMode {
    /// The statistical engine: decoded tag scores.
    Full,
    /// The heuristic engine: pattern matching.
    Light,
    /// The statistical engine where it is confident, the heuristic one
    /// otherwise.
    Auto,
}

impl Default for ParseMode {
    fn default() -> (mode: Self)
        ensures
            mode == ParseMode::Auto,
    {
        ParseMode::Auto
    }
}

impl ParseMode {
    /// The name of this member as it is written in code.
    pub open spec fn spec_name(self) -> Seq<char> {
        match self {
            ParseMode::Full => "Full"@,
            ParseMode::Light => "Light"@,
            ParseMode::Auto => "Auto"@,
        }
    }

    /// The name of this member as it is written in code, such as `Full`.
    pub fn name(&self) -> (name: String)
        ensures
            name@ == self.spec_name(),
    {
        let text: &str = match self {
            ParseMode::Full => "Full",
            ParseMode::Light => "Light",
            ParseMode::Auto => "Auto",
        };
        text.to_owned()
    }

    /// The display text of this mode.
    pub open spec fn spec_text(self) -> Seq<char> {
        match self {
            ParseMode::Full => "Full (Neural CRF)"@,
            ParseMode::Light => "Light (Heuristic)"@,
            ParseMode::Auto => "Auto"@,
        }
    }

    /// The display text, such as `Light (Heuristic)`.
    pub fn to_string(&self) -> (text: String)
        ensures
            text@ == self.spec_text(),
    {
        let text: &str = match self {
            ParseMode::Full => "Full (Neural CRF)",
            ParseMode::Light => "Light (Heuristic)",
            ParseMode::Auto => "Auto",
        };
        text.to_owned()
    }
}

} // verus!
