use zantetsu_core::types::{
    AudioCodec, EpisodeSpec, MediaSource, ParseMode, ParseResult, Resolution, VideoCodec,
};

#[test]
fn episode_spec_single_display() {
    assert_eq!(EpisodeSpec::Single(1).to_string(), "01");
    assert_eq!(EpisodeSpec::Single(24).to_string(), "24");
    assert_eq!(EpisodeSpec::Single(1084).to_string(), "1084");
}

#[test]
fn episode_spec_range_display() {
    assert_eq!(EpisodeSpec::Range(1, 12).to_string(), "01-12");
    assert_eq!(EpisodeSpec::Range(13, 24).to_string(), "13-24");
}

#[test]
fn episode_spec_multi_display() {
    assert_eq!(EpisodeSpec::Multi(vec![1, 3, 5]).to_string(), "01, 03, 05");
}

#[test]
fn episode_spec_version_display() {
    assert_eq!(
        EpisodeSpec::Version {
            episode: 12,
            version: 2
        }
        .to_string(),
        "12v2"
    );
}

#[test]
fn episode_spec_display_edge_cases() {
    assert_eq!(EpisodeSpec::Single(0).to_string(), "00");
    assert_eq!(EpisodeSpec::Single(9).to_string(), "09");
    assert_eq!(EpisodeSpec::Single(10).to_string(), "10");
    assert_eq!(EpisodeSpec::Single(u32::MAX).to_string(), "4294967295");
    assert_eq!(EpisodeSpec::Multi(vec![]).to_string(), "");
    assert_eq!(EpisodeSpec::Multi(vec![7]).to_string(), "07");
    assert_eq!(EpisodeSpec::Multi(vec![100, 2]).to_string(), "100, 02");
    assert_eq!(EpisodeSpec::Version { episode: 3, version: 255 }.to_string(), "03v255");
    assert!(EpisodeSpec::Range(1, 2).is_well_formed());
    assert!(!EpisodeSpec::Range(2, 2).is_well_formed());
    assert!(!EpisodeSpec::Range(3, 2).is_well_formed());
    assert!(EpisodeSpec::Single(3).is_well_formed());
}

#[test]
fn resolution_score_ordering() {
    assert!(Resolution::UHD2160.score() > Resolution::FHD1080.score());
    assert!(Resolution::FHD1080.score() > Resolution::HD720.score());
    assert!(Resolution::HD720.score() > Resolution::SD480.score());
}

#[test]
fn resolution_display() {
    assert_eq!(Resolution::FHD1080.to_string(), "1080p");
    assert_eq!(Resolution::UHD2160.to_string(), "2160p");
}

#[test]
fn video_codec_score_ordering() {
    assert!(VideoCodec::AV1.score() > VideoCodec::HEVC.score());
    assert!(VideoCodec::HEVC.score() > VideoCodec::VP9.score());
    assert!(VideoCodec::VP9.score() > VideoCodec::H264.score());
    assert!(VideoCodec::H264.score() > VideoCodec::MPEG4.score());
}

#[test]
fn audio_codec_score_ordering() {
    assert!(AudioCodec::TrueHD.score() > AudioCodec::FLAC.score());
    assert!(AudioCodec::FLAC.score() > AudioCodec::DTS.score());
    assert!(AudioCodec::DTS.score() > AudioCodec::Opus.score());
    assert!(AudioCodec::Opus.score() > AudioCodec::AAC.score());
    assert!(AudioCodec::AAC.score() > AudioCodec::MP3.score());
}

#[test]
fn media_source_score_ordering() {
    assert!(MediaSource::BluRayRemux.score() > MediaSource::BluRay.score());
    assert!(MediaSource::BluRay.score() > MediaSource::WebDL.score());
    assert!(MediaSource::WebDL.score() > MediaSource::WebRip.score());
    assert!(MediaSource::WebRip.score() > MediaSource::HDTV.score());
}

#[test]
fn score_tables_in_millionths() {
    assert_eq!(Resolution::SD480.score(), 250_000);
    assert_eq!(Resolution::HD720.score(), 500_000);
    assert_eq!(Resolution::FHD1080.score(), 850_000);
    assert_eq!(Resolution::UHD2160.score(), 1_000_000);
    assert_eq!(VideoCodec::AV1.score(), 1_000_000);
    assert_eq!(VideoCodec::HEVC.score(), 850_000);
    assert_eq!(VideoCodec::VP9.score(), 700_000);
    assert_eq!(VideoCodec::H264.score(), 600_000);
    assert_eq!(VideoCodec::MPEG4.score(), 200_000);
    assert_eq!(AudioCodec::TrueHD.score(), 1_000_000);
    assert_eq!(AudioCodec::FLAC.score(), 950_000);
    assert_eq!(AudioCodec::DTS.score(), 750_000);
    assert_eq!(AudioCodec::Opus.score(), 700_000);
    assert_eq!(AudioCodec::AAC.score(), 600_000);
    assert_eq!(AudioCodec::EAAC.score(), 550_000);
    assert_eq!(AudioCodec::AC3.score(), 500_000);
    assert_eq!(AudioCodec::Vorbis.score(), 450_000);
    assert_eq!(AudioCodec::MP3.score(), 300_000);
    assert_eq!(MediaSource::BluRayRemux.score(), 1_000_000);
    assert_eq!(MediaSource::BluRay.score(), 900_000);
    assert_eq!(MediaSource::WebDL.score(), 750_000);
    assert_eq!(MediaSource::WebRip.score(), 650_000);
    assert_eq!(MediaSource::HDTV.score(), 500_000);
    assert_eq!(MediaSource::DVD.score(), 400_000);
    assert_eq!(MediaSource::LaserDisc.score(), 300_000);
    assert_eq!(MediaSource::VHS.score(), 150_000);
}

#[test]
fn quality_display_texts() {
    assert_eq!(Resolution::SD480.to_string(), "480p");
    assert_eq!(Resolution::HD720.to_string(), "720p");
    assert_eq!(VideoCodec::H264.to_string(), "H.264");
    assert_eq!(VideoCodec::MPEG4.to_string(), "MPEG-4");
    assert_eq!(AudioCodec::EAAC.to_string(), "E-AAC+");
    assert_eq!(AudioCodec::TrueHD.to_string(), "TrueHD");
    assert_eq!(MediaSource::BluRayRemux.to_string(), "Blu-ray Remux");
    assert_eq!(MediaSource::WebDL.to_string(), "WEB-DL");
    assert_eq!(MediaSource::WebRip.to_string(), "WEBRip");
    assert_eq!(ParseMode::Full.to_string(), "Full (Neural CRF)");
    assert_eq!(ParseMode::Light.to_string(), "Light (Heuristic)");
    assert_eq!(ParseMode::Auto.to_string(), "Auto");
}

#[test]
fn parse_mode_default_is_auto() {
    assert_eq!(ParseMode::default(), ParseMode::Auto);
}

#[test]
fn new_parse_result_is_empty() {
    let result = ParseResult::new("test input", ParseMode::Light);
    assert_eq!(result.input, "test input");
    assert!(!result.has_title());
    assert!(!result.has_metadata());
    assert_eq!(result.confidence, 0);
    assert_eq!(result.parse_mode, ParseMode::Light);
}

#[test]
fn parse_result_has_title() {
    let mut result = ParseResult::new("test", ParseMode::Light);
    assert!(!result.has_title());
    result.title = Some("Jujutsu Kaisen".into());
    assert!(result.has_title());
}

#[test]
fn parse_result_has_metadata() {
    let mut result = ParseResult::new("test", ParseMode::Light);
    assert!(!result.has_metadata());
    result.resolution = Some(Resolution::FHD1080);
    assert!(result.has_metadata());
}

#[test]
fn parse_result_display() {
    let mut result = ParseResult::new("test", ParseMode::Light);
    result.title = Some("Jujutsu Kaisen".into());
    result.episode = Some(EpisodeSpec::Single(24));
    result.resolution = Some(Resolution::FHD1080);
    result.confidence = 950_000;
    let display = result.to_string();
    assert!(display.contains("Jujutsu Kaisen"));
    assert!(display.contains("1080p"));
    assert!(display.contains("0.95"));
}

#[test]
fn parse_result_display_exact() {
    let mut result = ParseResult::new("test", ParseMode::Light);
    assert_eq!(result.to_string(), "ParseResult(, conf=0.00, mode=Light (Heuristic))");
    result.title = Some("Jujutsu \"Kaisen\"".into());
    result.episode = Some(EpisodeSpec::Range(1, 12));
    result.resolution = Some(Resolution::FHD1080);
    result.confidence = 1_000_000;
    result.parse_mode = ParseMode::Full;
    assert_eq!(
        result.to_string(),
        "ParseResult(title=\"Jujutsu \\\"Kaisen\\\"\", ep=01-12, res=1080p, conf=1.00, mode=Full (Neural CRF))"
    );
    result.confidence = 374_999;
    assert!(result.to_string().contains("conf=0.37,"));
    result.confidence = 375_000;
    assert!(result.to_string().contains("conf=0.38,"));
    result.confidence = 995_000;
    assert!(result.to_string().contains("conf=1.00,"));
}

#[test]
fn parse_result_well_formedness() {
    let mut result = ParseResult::new("x", ParseMode::Auto);
    assert!(result.is_well_formed());
    result.confidence = 1_000_001;
    assert!(!result.is_well_formed());
    result.confidence = 1_000_000;
    result.episode = Some(EpisodeSpec::Range(5, 5));
    assert!(!result.is_well_formed());
    result.episode = Some(EpisodeSpec::Range(5, 6));
    assert!(result.is_well_formed());
    result.has_metadata();
    for (field, expected) in [
        (0, true),
        (1, true),
        (2, true),
        (3, true),
        (4, true),
        (5, true),
        (6, false),
    ] {
        let mut r = ParseResult::new("x", ParseMode::Light);
        match field {
            0 => r.episode = Some(EpisodeSpec::Single(1)),
            1 => r.season = Some(1),
            2 => r.resolution = Some(Resolution::HD720),
            3 => r.video_codec = Some(VideoCodec::AV1),
            4 => r.audio_codec = Some(AudioCodec::AAC),
            5 => r.source = Some(MediaSource::DVD),
            _ => {
                r.title = Some("t".into());
                r.group = Some("g".into());
                r.year = Some(2000);
                r.crc32 = Some("ABCD1234".into());
                r.extension = Some("mkv".into());
                r.version = Some(2);
            }
        }
        assert_eq!(r.has_metadata(), expected);
    }
}
