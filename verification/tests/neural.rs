use zantetsu_core::parser::bio_tags::{BioTag, Entity, EntityType};
use zantetsu_core::parser::neural::{
    audio_codec_in, find_first_digit, resolution_in, source_in, tag_continues, video_codec_in,
    ModelOutput, NeuralParser,
};
use zantetsu_core::types::{
    AudioCodec, EpisodeSpec, MediaSource, ParseMode, Resolution, VideoCodec,
};
use zantetsu_core::ZantetsuError;

fn engine() -> NeuralParser {
    NeuralParser::new().unwrap()
}

fn one_hot(tag: BioTag) -> Vec<i32> {
    let mut r = vec![0; BioTag::NUM_TAGS];
    r[tag.index()] = 10_000;
    r
}

fn output(tagged: &[(BioTag, (usize, usize))]) -> ModelOutput {
    ModelOutput {
        emissions: tagged.iter().map(|(t, _)| one_hot(*t)).collect(),
        transitions: vec![vec![0; BioTag::NUM_TAGS]; BioTag::NUM_TAGS],
        offsets: tagged.iter().map(|(_, o)| *o).collect(),
    }
}

fn entity(kind: EntityType, start: usize, end: usize, text: &str) -> Entity {
    Entity { entity_type: kind, start_token: start, end_token: end, text: text.to_string() }
}

fn indices(tags: &[BioTag]) -> Vec<usize> {
    tags.iter().map(|t| t.index()).collect()
}

const INPUT: &str = "[SubsPlease] Jujutsu Kaisen - 24 (1080p) [A1B2C3D4].mkv";

fn tagged_input() -> Vec<(BioTag, (usize, usize))> {
    vec![
        (BioTag::Outside, (0, 0)),
        (BioTag::Outside, (0, 1)),
        (BioTag::BeginGroup, (1, 5)),
        (BioTag::InsideGroup, (5, 11)),
        (BioTag::Outside, (11, 12)),
        (BioTag::BeginTitle, (13, 20)),
        (BioTag::InsideTitle, (21, 27)),
        (BioTag::Outside, (28, 29)),
        (BioTag::BeginEpisode, (30, 32)),
        (BioTag::Outside, (33, 34)),
        (BioTag::Resolution, (34, 38)),
        (BioTag::Resolution, (38, 39)),
        (BioTag::Outside, (39, 40)),
        (BioTag::Outside, (41, 42)),
        (BioTag::Crc32, (42, 50)),
        (BioTag::Outside, (50, 52)),
        (BioTag::Extension, (52, 55)),
        (BioTag::Outside, (0, 0)),
    ]
}

#[test]
fn statistical_engine_end_to_end() {
    let out = output(&tagged_input());
    let r = engine().parse(INPUT, Ok(&out)).unwrap();
    assert_eq!(r.input, INPUT);
    assert_eq!(r.title.as_deref(), Some("Jujutsu Kaisen"));
    assert_eq!(r.group.as_deref(), Some("SubsPlease"));
    assert_eq!(r.episode, Some(EpisodeSpec::Single(24)));
    assert_eq!(r.season, None);
    assert_eq!(r.resolution, Some(Resolution::FHD1080));
    assert_eq!(r.video_codec, None);
    assert_eq!(r.audio_codec, None);
    assert_eq!(r.source, None);
    assert_eq!(r.year, None);
    assert_eq!(r.crc32.as_deref(), Some("A1B2C3D4"));
    assert_eq!(r.extension.as_deref(), Some("mkv"));
    assert_eq!(r.version, None);
    // Six of the eleven counted fields.
    assert_eq!(r.confidence, 545_454);
    assert_eq!(r.parse_mode, ParseMode::Full);
    assert!(r.is_well_formed());
}

#[test]
fn statistical_engine_failures() {
    let e = engine();
    let out = output(&tagged_input());
    assert!(matches!(e.parse("", Ok(&out)), Err(ZantetsuError::EmptyInput)));
    assert!(matches!(e.parse(" \t ", Ok(&out)), Err(ZantetsuError::EmptyInput)));
    // Blank input is reported before a failed model run.
    assert!(matches!(
        e.parse("  ", Err(ZantetsuError::InferenceError("x".into()))),
        Err(ZantetsuError::EmptyInput)
    ));
    // A failed run comes back as it is.
    match e.parse(INPUT, Err(ZantetsuError::NeuralParser("Tokenizer is not initialized".into()))) {
        Err(ZantetsuError::NeuralParser(m)) => assert_eq!(m, "Tokenizer is not initialized"),
        other => panic!("unexpected: {:?}", other),
    }
    // No tokens at all.
    let empty = ModelOutput { emissions: vec![], transitions: vec![], offsets: vec![] };
    match e.parse(INPUT, Ok(&empty)) {
        Err(ZantetsuError::ParseFailed { input }) => assert_eq!(input, INPUT),
        other => panic!("unexpected: {:?}", other),
    }
    // Scores that do not cover the vocabulary.
    let mut narrow = output(&tagged_input());
    narrow.emissions[3].pop();
    assert!(matches!(e.parse(INPUT, Ok(&narrow)), Err(ZantetsuError::NeuralParser(_))));
    let mut small = output(&tagged_input());
    small.transitions.pop();
    assert!(matches!(e.parse(INPUT, Ok(&small)), Err(ZantetsuError::NeuralParser(_))));
    // Fewer offsets than tokens.
    let mut short = output(&tagged_input());
    short.offsets.pop();
    assert!(matches!(e.parse(INPUT, Ok(&short)), Err(ZantetsuError::NeuralParser(_))));
    // An offset beyond the input.
    let mut beyond = output(&tagged_input());
    beyond.offsets[16] = (52, 56);
    assert!(matches!(e.parse(INPUT, Ok(&beyond)), Err(ZantetsuError::NeuralParser(_))));
}

#[test]
fn statistical_engine_ignores_forbidden_transition_scores() {
    let mut out = output(&tagged_input());
    let plain = engine().parse(INPUT, Ok(&out)).unwrap();
    for p in 0..BioTag::NUM_TAGS {
        for c in 0..BioTag::NUM_TAGS {
            let from = BioTag::from_index(p).unwrap();
            let to = BioTag::from_index(c).unwrap();
            if !BioTag::is_valid_transition(from, to) {
                out.transitions[p][c] = i32::MAX;
            }
        }
    }
    assert_eq!(engine().parse(INPUT, Ok(&out)).unwrap(), plain);
}

#[test]
fn assemble_joins_begin_and_inside() {
    let e = engine();
    let input = "Golden Kamuy S3 Blu ray remux";
    let tags = indices(&[
        BioTag::BeginTitle,
        BioTag::InsideTitle,
        BioTag::BeginSeason,
        BioTag::Source,
        BioTag::Source,
        BioTag::Source,
    ]);
    let offsets = [(0, 6), (7, 12), (14, 15), (16, 19), (20, 23), (24, 29)];
    let entities = e.assemble_entities(input, &offsets, &tags).unwrap();
    assert_eq!(
        entities,
        vec![
            entity(EntityType::Title, 0, 2, "Golden Kamuy"),
            entity(EntityType::Season, 2, 3, "3"),
            entity(EntityType::Source, 3, 6, "Blu ray remux"),
        ]
    );
}

#[test]
fn assemble_edge_cases() {
    let e = engine();
    let input = "ab cd  ef";
    // An inside tag without a begin tag still starts an entity, and takes
    // the inside tags of its family with it.
    let tags = indices(&[BioTag::InsideTitle, BioTag::InsideTitle, BioTag::InsideGroup]);
    let offsets = [(0, 2), (3, 5), (7, 9)];
    assert_eq!(
        e.assemble_entities(input, &offsets, &tags).unwrap(),
        vec![entity(EntityType::Title, 0, 2, "ab cd"), entity(EntityType::Group, 2, 3, "ef")]
    );
    // Two begin tags in a row are two entities; a repeated begin tag does
    // not continue.
    let tags = indices(&[BioTag::BeginTitle, BioTag::BeginTitle, BioTag::Outside]);
    assert_eq!(
        e.assemble_entities(input, &offsets, &tags).unwrap(),
        vec![entity(EntityType::Title, 0, 1, "ab"), entity(EntityType::Title, 1, 2, "cd")]
    );
    // Placeholder spans and spans of whitespace yield nothing.
    let tags = indices(&[BioTag::Year, BioTag::Version, BioTag::Outside]);
    let offsets = [(0, 0), (5, 7), (7, 9)];
    assert_eq!(e.assemble_entities(input, &offsets, &tags).unwrap(), vec![]);
    // The text is trimmed.
    let tags = indices(&[BioTag::Year]);
    assert_eq!(
        e.assemble_entities(input, &[(2, 7)], &tags).unwrap(),
        vec![entity(EntityType::Year, 0, 1, "cd")]
    );
    // More offsets than tags are fine; no tags, no entities.
    assert_eq!(e.assemble_entities(input, &[(0, 2), (3, 5)], &[]).unwrap(), vec![]);
    // Outside only.
    let tags = indices(&[BioTag::Outside, BioTag::Outside]);
    assert_eq!(e.assemble_entities(input, &[(0, 2), (3, 5)], &tags).unwrap(), vec![]);
}

#[test]
fn assemble_rejects_what_does_not_fit() {
    let e = engine();
    let input = "é1 x";
    let title = indices(&[BioTag::BeginTitle]);
    // Inside a character.
    assert!(matches!(
        e.assemble_entities(input, &[(1, 3)], &title),
        Err(ZantetsuError::NeuralParser(_))
    ));
    // Behind the end.
    assert!(matches!(
        e.assemble_entities(input, &[(0, 6)], &title),
        Err(ZantetsuError::NeuralParser(_))
    ));
    // Backwards.
    assert!(matches!(
        e.assemble_entities(input, &[(3, 2)], &title),
        Err(ZantetsuError::NeuralParser(_))
    ));
    // On boundaries.
    assert_eq!(
        e.assemble_entities(input, &[(0, 3)], &title).unwrap(),
        vec![entity(EntityType::Title, 0, 1, "é1")]
    );
    assert_eq!(
        e.assemble_entities(input, &[(2, 5)], &title).unwrap(),
        vec![entity(EntityType::Title, 0, 1, "1 x")]
    );
    // No tag at that index.
    assert!(matches!(
        e.assemble_entities(input, &[(0, 3)], &[17]),
        Err(ZantetsuError::NeuralParser(_))
    ));
    // Fewer offsets than tags.
    assert!(matches!(
        e.assemble_entities(input, &[], &title),
        Err(ZantetsuError::NeuralParser(_))
    ));
}

#[test]
fn build_reads_every_kind() {
    let e = engine();
    let entities = vec![
        entity(EntityType::Title, 0, 1, "One Piece"),
        entity(EntityType::Group, 1, 2, "Group"),
        entity(EntityType::Episode, 2, 3, "1084"),
        entity(EntityType::Season, 3, 4, "2"),
        entity(EntityType::Resolution, 4, 5, "[2160P]"),
        entity(EntityType::VCodec, 5, 6, "x265-10bit"),
        entity(EntityType::ACodec, 6, 7, "Dolby Digital"),
        entity(EntityType::Source, 7, 8, "Blu-Ray"),
        entity(EntityType::Year, 8, 9, "1999"),
        entity(EntityType::Crc32, 9, 10, "deadbeef"),
        entity(EntityType::Extension, 10, 11, "MKV"),
        entity(EntityType::Version, 11, 12, "v2"),
    ];
    let r = e.build_parse_result("input", &entities).unwrap();
    assert_eq!(r.input, "input");
    assert_eq!(r.title.as_deref(), Some("One Piece"));
    assert_eq!(r.group.as_deref(), Some("Group"));
    assert_eq!(r.episode, Some(EpisodeSpec::Single(1084)));
    assert_eq!(r.season, Some(2));
    assert_eq!(r.resolution, Some(Resolution::UHD2160));
    assert_eq!(r.video_codec, Some(VideoCodec::HEVC));
    assert_eq!(r.audio_codec, Some(AudioCodec::AC3));
    assert_eq!(r.source, Some(MediaSource::BluRay));
    assert_eq!(r.year, Some(1999));
    // As in every record, the checksum is in upper and the extension in
    // lower case.
    assert_eq!(r.crc32.as_deref(), Some("DEADBEEF"));
    assert_eq!(r.extension.as_deref(), Some("mkv"));
    assert_eq!(r.version, Some(2));
    assert_eq!(r.confidence, 1_000_000);
    assert_eq!(r.parse_mode, ParseMode::Full);
}

#[test]
fn build_confidence_counts_eleven_fields() {
    let e = engine();
    let r = e.build_parse_result("x", &[]).unwrap();
    assert_eq!(r.confidence, 0);
    assert!(!r.has_title() && !r.has_metadata());
    // The version is not among the counted fields.
    let r = e.build_parse_result("x", &[entity(EntityType::Version, 0, 1, "v3")]).unwrap();
    assert_eq!(r.version, Some(3));
    assert_eq!(r.confidence, 0);
    let r = e.build_parse_result("x", &[entity(EntityType::Title, 0, 1, "T")]).unwrap();
    assert_eq!(r.confidence, 90_909);
    let r = e
        .build_parse_result(
            "x",
            &[entity(EntityType::Title, 0, 1, "T"), entity(EntityType::Year, 1, 2, "2020")],
        )
        .unwrap();
    assert_eq!(r.confidence, 181_818);
}

#[test]
fn build_keeps_or_overwrites() {
    let e = engine();
    // An episode that is no number leaves the earlier one in place.
    let r = e
        .build_parse_result(
            "x",
            &[entity(EntityType::Episode, 0, 1, "12"), entity(EntityType::Episode, 1, 2, "12v2")],
        )
        .unwrap();
    assert_eq!(r.episode, Some(EpisodeSpec::Single(12)));
    // A resolution that names none wipes the earlier one.
    let r = e
        .build_parse_result(
            "x",
            &[
                entity(EntityType::Resolution, 0, 1, "720p"),
                entity(EntityType::Resolution, 1, 2, "HD"),
            ],
        )
        .unwrap();
    assert_eq!(r.resolution, None);
    // So does a year that is no number, or too large.
    let r = e
        .build_parse_result(
            "x",
            &[entity(EntityType::Year, 0, 1, "2020"), entity(EntityType::Year, 1, 2, "70000")],
        )
        .unwrap();
    assert_eq!(r.year, None);
    // The last title counts.
    let r = e
        .build_parse_result(
            "x",
            &[entity(EntityType::Title, 0, 1, "A"), entity(EntityType::Title, 1, 2, "B")],
        )
        .unwrap();
    assert_eq!(r.title.as_deref(), Some("B"));
    // Numbers may carry a plus sign, and nothing else.
    let r = e
        .build_parse_result(
            "x",
            &[entity(EntityType::Season, 0, 1, "+4"), entity(EntityType::Episode, 1, 2, "-4")],
        )
        .unwrap();
    assert_eq!(r.season, Some(4));
    assert_eq!(r.episode, None);
    let r = e
        .build_parse_result("x", &[entity(EntityType::Episode, 0, 1, "4294967296")])
        .unwrap();
    assert_eq!(r.episode, None);
    let r = e
        .build_parse_result("x", &[entity(EntityType::Episode, 0, 1, "4294967295")])
        .unwrap();
    assert_eq!(r.episode, Some(EpisodeSpec::Single(u32::MAX)));
}

#[test]
fn lenient_readings() {
    let e = engine();
    let read = |kind: EntityType, text: &str| {
        e.build_parse_result("x", &[entity(kind, 0, 1, text)]).unwrap()
    };
    for (text, expected) in [
        ("2160p", Some(Resolution::UHD2160)),
        ("1080i", Some(Resolution::FHD1080)),
        ("x720x", Some(Resolution::HD720)),
        ("480", Some(Resolution::SD480)),
        ("576p", None),
    ] {
        assert_eq!(read(EntityType::Resolution, text).resolution, expected, "{text}");
    }
    for (text, expected) in [
        ("AV1", Some(VideoCodec::AV1)),
        ("H.265", Some(VideoCodec::HEVC)),
        ("HEVC", Some(VideoCodec::HEVC)),
        ("x264", Some(VideoCodec::H264)),
        ("VP9", Some(VideoCodec::VP9)),
        ("mp4", Some(VideoCodec::MPEG4)),
        ("XviD", Some(VideoCodec::MPEG4)),
        ("theora", None),
    ] {
        assert_eq!(read(EntityType::VCodec, text).video_codec, expected, "{text}");
    }
    for (text, expected) in [
        ("FLAC", Some(AudioCodec::FLAC)),
        ("TrueHD", Some(AudioCodec::TrueHD)),
        ("DTS-HD", Some(AudioCodec::DTS)),
        ("Opus", Some(AudioCodec::Opus)),
        ("E-AAC", Some(AudioCodec::AAC)),
        ("AC3", Some(AudioCodec::AC3)),
        ("ogg", Some(AudioCodec::Vorbis)),
        ("MP3", Some(AudioCodec::MP3)),
        ("pcm", None),
    ] {
        assert_eq!(read(EntityType::ACodec, text).audio_codec, expected, "{text}");
    }
    for (text, expected) in [
        ("BD Remux", Some(MediaSource::BluRayRemux)),
        ("WEB-DL", Some(MediaSource::WebDL)),
        ("WEBRip", Some(MediaSource::WebDL)),
        ("BluRay", Some(MediaSource::BluRay)),
        ("BD", Some(MediaSource::BluRay)),
        ("HDTV", Some(MediaSource::HDTV)),
        ("DVDRip", Some(MediaSource::DVD)),
        ("VHS", Some(MediaSource::VHS)),
        ("LaserDisc", None),
    ] {
        assert_eq!(read(EntityType::Source, text).source, expected, "{text}");
    }
}

#[test]
fn small_helpers() {
    assert_eq!(find_first_digit(&"v2".chars().collect()), Some(2));
    assert_eq!(find_first_digit(&"ver.07".chars().collect()), Some(0));
    assert_eq!(find_first_digit(&"none".chars().collect()), None);
    assert_eq!(find_first_digit(&"\u{0663}9".chars().collect()), Some(9));
    assert_eq!(find_first_digit(&Vec::new()), None);
    assert!(tag_continues(BioTag::BeginTitle, BioTag::InsideTitle));
    assert!(tag_continues(BioTag::InsideTitle, BioTag::InsideTitle));
    assert!(!tag_continues(BioTag::BeginTitle, BioTag::InsideGroup));
    assert!(!tag_continues(BioTag::BeginTitle, BioTag::BeginTitle));
    assert!(tag_continues(BioTag::Source, BioTag::Source));
    assert!(!tag_continues(BioTag::Source, BioTag::Year));
    assert!(!tag_continues(BioTag::InsideGroup, BioTag::BeginGroup));
}

#[test]
fn build_normalises_checksum_and_extension() {
    let e = engine();
    let entities = vec![
        entity(EntityType::Crc32, 0, 1, "a1b2c3d4"),
        entity(EntityType::Extension, 1, 2, "MKV"),
    ];
    let r = e.build_parse_result("x", &entities).unwrap();
    assert_eq!(r.crc32.as_deref(), Some("A1B2C3D4"));
    assert_eq!(r.extension.as_deref(), Some("mkv"));
    // Title and group keep their case.
    let entities =
        vec![entity(EntityType::Title, 0, 1, "One Piece"), entity(EntityType::Group, 1, 2, "SubsPlease")];
    let r = e.build_parse_result("x", &entities).unwrap();
    assert_eq!(r.title.as_deref(), Some("One Piece"));
    assert_eq!(r.group.as_deref(), Some("SubsPlease"));
}

#[test]
fn statistical_engine_reports_rows_of_the_wrong_width() {
    let e = engine();
    // A first row that is too wide.
    let mut wide = output(&tagged_input());
    wide.emissions[0].push(0);
    assert!(matches!(e.parse(INPUT, Ok(&wide)), Err(ZantetsuError::NeuralParser(_))));
    // A later row that is too wide.
    let mut wide = output(&tagged_input());
    wide.emissions[5].push(0);
    assert!(matches!(e.parse(INPUT, Ok(&wide)), Err(ZantetsuError::NeuralParser(_))));
    // Every row too wide by one.
    let mut wide = output(&tagged_input());
    for row in &mut wide.emissions {
        row.push(0);
    }
    match e.parse(INPUT, Ok(&wide)) {
        Err(ZantetsuError::NeuralParser(m)) => {
            assert_eq!(m, "Emission score dimension mismatch: expected 17, got 18")
        }
        other => panic!("unexpected: {:?}", other),
    }
}

#[test]
fn readers_of_lower_case_text() {
    assert_eq!(resolution_in("[2160p]"), Some(Resolution::UHD2160));
    assert_eq!(resolution_in("1080"), Some(Resolution::FHD1080));
    assert_eq!(resolution_in("hd"), None);
    // The text is read as it is: upper case names nothing.
    assert_eq!(video_codec_in("HEVC"), None);
    assert_eq!(video_codec_in("hevc"), Some(VideoCodec::HEVC));
    assert_eq!(video_codec_in("x264"), Some(VideoCodec::H264));
    assert_eq!(audio_codec_in("dolby digital"), Some(AudioCodec::AC3));
    assert_eq!(audio_codec_in("e-aac"), Some(AudioCodec::AAC));
    assert_eq!(source_in("bd remux"), Some(MediaSource::BluRayRemux));
    assert_eq!(source_in("laserdisc"), None);
}
