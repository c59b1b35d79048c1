use zantetsu_core::kitsu::DatabaseConfig;
use zantetsu_core::parser::heuristic::HeuristicParser;
use zantetsu_core::text::char_is_whitespace;
use zantetsu_core::training::align::strip_prefix;
use zantetsu_core::types::{episode_to_string, EpisodeSpec};
use zantetsu_core::types::{AudioCodec, MediaSource, ParseMode, Resolution, VideoCodec};
use zantetsu_core::ZantetsuError;

#[test]
fn test_database_config() {
    let config = DatabaseConfig {
        host: "localhost".to_string(),
        port: 5432,
        database: "kitsu".to_string(),
        user: "postgres".to_string(),
        password: Some("postgres".to_string()),
    };

    let conn_str = config.connection_string();
    assert!(conn_str.contains("localhost"));
    assert!(conn_str.contains("5432"));
    assert!(conn_str.contains("kitsu"));
}

#[test]
fn connection_string_in_full() {
    let config = DatabaseConfig {
        host: "db.example.org".to_string(),
        port: 0,
        database: "kitsu_development".to_string(),
        user: "reader".to_string(),
        password: None,
    };
    assert_eq!(config.connection_string(), "postgresql://reader@db.example.org:0/kitsu_development");
    let config = DatabaseConfig { port: 65535, password: Some("secret".into()), ..config };
    assert_eq!(
        config.connection_string(),
        "postgresql://reader@db.example.org:65535/kitsu_development"
    );
}

#[test]
fn episodes_in_report_notation() {
    assert_eq!(episode_to_string(&EpisodeSpec::Single(24)), "Single(24)");
    assert_eq!(episode_to_string(&EpisodeSpec::Single(0)), "Single(0)");
    assert_eq!(episode_to_string(&EpisodeSpec::Range(1, 12)), "Range(1,12)");
    assert_eq!(episode_to_string(&EpisodeSpec::Multi(vec![1, 3, 5])), "Multi(1,3,5)");
    assert_eq!(episode_to_string(&EpisodeSpec::Multi(vec![])), "Multi()");
    assert_eq!(episode_to_string(&EpisodeSpec::Multi(vec![7])), "Multi(7)");
    assert_eq!(
        episode_to_string(&EpisodeSpec::Version { episode: 12, version: 2 }),
        "Version(12,v2)"
    );
}

#[test]
fn member_names() {
    assert_eq!(Resolution::SD480.name(), "SD480");
    assert_eq!(Resolution::FHD1080.name(), "FHD1080");
    assert_eq!(VideoCodec::H264.name(), "H264");
    assert_eq!(VideoCodec::MPEG4.name(), "MPEG4");
    assert_eq!(AudioCodec::EAAC.name(), "EAAC");
    assert_eq!(AudioCodec::TrueHD.name(), "TrueHD");
    assert_eq!(MediaSource::BluRayRemux.name(), "BluRayRemux");
    assert_eq!(MediaSource::WebDL.name(), "WebDL");
    assert_eq!(ParseMode::Full.name(), "Full");
    assert_eq!(ParseMode::Light.name(), "Light");
    assert_eq!(ParseMode::Auto.name(), "Auto");
    // Every name is the one that the debug form shows.
    for r in [Resolution::SD480, Resolution::HD720, Resolution::FHD1080, Resolution::UHD2160] {
        assert_eq!(r.name(), format!("{:?}", r));
    }
}

#[test]
fn error_display_messages() {
    let err = ZantetsuError::EmptyInput;
    assert_eq!(err.to_string(), "input is empty or whitespace-only");

    let err = ZantetsuError::ParseFailed {
        input: "bad input".into(),
    };
    assert!(err.to_string().contains("bad input"));
}

#[test]
fn error_messages_in_full() {
    assert_eq!(
        ZantetsuError::ParseFailed { input: "bad \"input\"".into() }.to_string(),
        "failed to extract metadata from input: \"bad \\\"input\\\"\""
    );
    assert_eq!(
        ZantetsuError::ModelLoadError("missing".into()).to_string(),
        "failed to load model: missing"
    );
    assert_eq!(ZantetsuError::InferenceError("nan".into()).to_string(), "inference error: nan");
    assert_eq!(
        ZantetsuError::InvalidContext("weights".into()).to_string(),
        "invalid scoring context: weights"
    );
    assert_eq!(
        ZantetsuError::NeuralParser("no model".into()).to_string(),
        "neural parser error: no model"
    );
    assert_eq!(ZantetsuError::CandleError("shape".into()).to_string(), "ML inference error: shape");
}

#[test]
fn error_is_send_sync() {
    fn assert_send_sync<T: Send + Sync>() {}
    assert_send_sync::<ZantetsuError>();
}

#[test]
fn whitespace_is_what_the_standard_library_calls_whitespace() {
    let mut count = 0;
    for code in 0..=0x10FFFFu32 {
        if let Some(c) = char::from_u32(code) {
            assert_eq!(char_is_whitespace(c), c.is_whitespace(), "U+{:04X}", code);
            if char_is_whitespace(c) {
                count += 1;
            }
        }
    }
    assert_eq!(count, 25);
}

#[test]
fn trimming_agrees_with_the_standard_library() {
    let parser = HeuristicParser::new().unwrap();
    for blank in ["", " ", "   ", "\t\n", "\u{A0}\u{3000}", "\u{2028}\u{85}"] {
        assert!(blank.trim().is_empty());
        assert!(matches!(parser.parse(blank), Err(ZantetsuError::EmptyInput)), "{blank:?}");
    }
    for text in [" a ", "\u{A0}a\u{2003}", "\u{200B}a", "a\u{FEFF}", "\u{180E}a"] {
        assert_eq!(strip_prefix(text), text.trim());
        assert_eq!(parser.parse(text).unwrap().input, text.trim());
    }
}
