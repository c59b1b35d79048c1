use zantetsu_core::parser::bio_tags::BioTag;
use zantetsu_core::parser::neural::ModelOutput;
use zantetsu_core::parser::unified::{arbitrate, parse, parse_with_mode, Parser, ParserConfig};
use zantetsu_core::types::{ParseMode, ParseResult, Resolution};
use zantetsu_core::ZantetsuError;

fn no_model() -> Result<&'static ModelOutput, ZantetsuError> {
    Err(ZantetsuError::NeuralParser("Tokenizer is not initialized".into()))
}

fn one_hot(tag: BioTag) -> Vec<i32> {
    let mut r = vec![0; BioTag::NUM_TAGS];
    r[tag.index()] = 10_000;
    r
}

fn output(tagged: &[(BioTag, (usize, usize))]) -> ModelOutput {
    ModelOutput {
        emissions: tagged.iter().map(|(t, _)| one_hot(*t)).collect(),
        transitions: vec![vec![0; BioTag::NUM_TAGS]; BioTag::NUM_TAGS],
        offsets: tagged.iter().map(|(_, o)| *o).collect(),
    }
}

fn record(confidence: u32, mode: ParseMode, title: &str) -> ParseResult {
    let mut r = ParseResult::new("input", mode);
    r.title = Some(title.to_string());
    r.confidence = confidence;
    r
}

#[test]
fn test_parser_creation() {
    let parser = Parser::default();
    assert!(parser.is_ok());
}

#[test]
fn test_parser_config() {
    let config = ParserConfig::new()
        .with_mode(ParseMode::Light)
        .with_confidence_threshold(700_000)
        .with_neural(false);

    assert_eq!(config.mode, ParseMode::Light);
    assert_eq!(config.confidence_threshold, 700_000);
    assert!(!config.enable_neural);
}

#[test]
fn test_parse_light_mode() {
    let config = ParserConfig::new().with_mode(ParseMode::Light);
    let parser = Parser::new(config).unwrap();

    let result = parser
        .parse("[SubsPlease] Jujutsu Kaisen - 24 (1080p) [A1B2C3D4].mkv", no_model())
        .unwrap();

    assert_eq!(result.group.as_deref(), Some("SubsPlease"));
    assert_eq!(result.title.as_deref(), Some("Jujutsu Kaisen"));
    assert_eq!(result.parse_mode, ParseMode::Light);
}

#[test]
fn test_parse_auto_mode() {
    let config = ParserConfig::new().with_mode(ParseMode::Auto);
    let parser = Parser::new(config).unwrap();

    let result = parser
        .parse("[SubsPlease] Jujutsu Kaisen - 24 (1080p).mkv", no_model())
        .unwrap();

    assert!(result.group.is_some());
    assert!(result.resolution.is_some());
}

#[test]
fn test_parse_empty() {
    let parser = Parser::default().unwrap();
    let result = parser.parse("", no_model());
    assert!(result.is_err());
}

#[test]
fn test_parse_convenience_function() {
    let result = parse("[Erai-raws] Test Anime - 01 (720p).mp4", no_model());
    assert!(result.is_ok());

    let parsed = result.unwrap();
    assert_eq!(parsed.group.as_deref(), Some("Erai-raws"));
    assert_eq!(parsed.extension.as_deref(), Some("mp4"));
}

#[test]
fn test_parse_with_mode() {
    let result = parse_with_mode("[Test] Anime - 01.mkv", ParseMode::Light, no_model());
    assert!(result.is_ok());
}

#[test]
fn test_confidence_threshold_clamping() {
    let config = ParserConfig::new().with_confidence_threshold(1_500_000);
    assert_eq!(config.confidence_threshold, 1_000_000);

    let config = ParserConfig::new().with_confidence_threshold(-500_000);
    assert_eq!(config.confidence_threshold, 0);
}

#[test]
fn config_defaults() {
    let config = ParserConfig::new();
    assert_eq!(config.mode, ParseMode::Auto);
    assert_eq!(config.confidence_threshold, 600_000);
    assert!(config.enable_neural);
    let config = ParserConfig::default();
    assert_eq!(config.mode, ParseMode::Auto);
    assert_eq!(config.confidence_threshold, 600_000);
    assert!(config.enable_neural);
    assert_eq!(ParserConfig::new().with_confidence_threshold(0).confidence_threshold, 0);
    assert_eq!(
        ParserConfig::new().with_confidence_threshold(1_000_000).confidence_threshold,
        1_000_000
    );
    assert_eq!(ParserConfig::new().with_confidence_threshold(i64::MAX).confidence_threshold, 1_000_000);
    assert_eq!(ParserConfig::new().with_confidence_threshold(i64::MIN).confidence_threshold, 0);
    let parser = Parser::new(ParserConfig::new().with_neural(false)).unwrap();
    assert!(!parser.has_neural());
    assert_eq!(parser.config().mode, ParseMode::Auto);
    assert!(Parser::default().unwrap().has_neural());
}

#[test]
fn arbitrate_prefers_confident_statistical_result() {
    let n = record(600_000, ParseMode::Full, "N");
    let h = record(900_000, ParseMode::Light, "H");
    // At the threshold the statistical record is taken, however confident
    // the heuristic one is.
    assert_eq!(arbitrate(Ok(n.clone()), Ok(h.clone()), 600_000).unwrap(), n);
    assert_eq!(arbitrate(Ok(n.clone()), Err(ZantetsuError::EmptyInput), 600_000).unwrap(), n);
}

#[test]
fn arbitrate_below_threshold_compares() {
    let n = record(400_000, ParseMode::Full, "N");
    // Strictly more confident: the heuristic record, marked Light.
    let h = record(400_001, ParseMode::Full, "H");
    let chosen = arbitrate(Ok(n.clone()), Ok(h.clone()), 600_000).unwrap();
    assert_eq!(chosen.title.as_deref(), Some("H"));
    assert_eq!(chosen.confidence, 400_001);
    assert_eq!(chosen.parse_mode, ParseMode::Light);
    // Equally confident: the statistical record stays.
    let h = record(400_000, ParseMode::Light, "H");
    assert_eq!(arbitrate(Ok(n.clone()), Ok(h), 600_000).unwrap(), n);
    // Less confident.
    let h = record(100_000, ParseMode::Light, "H");
    assert_eq!(arbitrate(Ok(n.clone()), Ok(h), 600_000).unwrap(), n);
    // The heuristic engine failed: the low-confidence record is kept.
    assert_eq!(arbitrate(Ok(n.clone()), Err(ZantetsuError::EmptyInput), 600_000).unwrap(), n);
}

#[test]
fn arbitrate_falls_back_on_failure() {
    let h = record(100_000, ParseMode::Light, "H");
    let failed = || Err(ZantetsuError::NeuralParser("no model".into()));
    assert_eq!(arbitrate(failed(), Ok(h.clone()), 600_000).unwrap(), h);
    // Both failed: the heuristic engine's failure is reported.
    assert!(matches!(
        arbitrate(failed(), Err(ZantetsuError::EmptyInput), 600_000),
        Err(ZantetsuError::EmptyInput)
    ));
}

const INPUT: &str = "[SubsPlease] Jujutsu Kaisen - 24 (1080p) [A1B2C3D4].mkv";

fn rich_output() -> ModelOutput {
    output(&[
        (BioTag::BeginGroup, (1, 11)),
        (BioTag::BeginTitle, (13, 20)),
        (BioTag::InsideTitle, (21, 27)),
        (BioTag::BeginEpisode, (30, 32)),
        (BioTag::Resolution, (34, 39)),
        (BioTag::Crc32, (42, 50)),
        (BioTag::Extension, (52, 55)),
        (BioTag::Outside, (0, 0)),
    ])
}

fn poor_output() -> ModelOutput {
    output(&[(BioTag::BeginTitle, (13, 20)), (BioTag::Outside, (21, 27))])
}

#[test]
fn full_mode_uses_the_statistical_engine() {
    let parser = Parser::new(ParserConfig::new().with_mode(ParseMode::Full)).unwrap();
    let out = poor_output();
    let r = parser.parse(INPUT, Ok(&out)).unwrap();
    assert_eq!(r.parse_mode, ParseMode::Full);
    assert_eq!(r.title.as_deref(), Some("Jujutsu"));
    assert_eq!(r.confidence, 90_909);
}

#[test]
fn full_mode_falls_back_and_says_so() {
    // No model: the heuristic record, marked as such.
    let parser = Parser::new(ParserConfig::new().with_mode(ParseMode::Full)).unwrap();
    let r = parser.parse(INPUT, no_model()).unwrap();
    assert_eq!(r.parse_mode, ParseMode::Light);
    assert_eq!(r.title.as_deref(), Some("Jujutsu Kaisen"));
    // No statistical engine configured.
    let parser =
        Parser::new(ParserConfig::new().with_mode(ParseMode::Full).with_neural(false)).unwrap();
    let out = rich_output();
    let r = parser.parse(INPUT, Ok(&out)).unwrap();
    assert_eq!(r.parse_mode, ParseMode::Light);
    // Scores of the wrong shape.
    let parser = Parser::new(ParserConfig::new().with_mode(ParseMode::Full)).unwrap();
    let mut bad = rich_output();
    bad.emissions[0].pop();
    let r = parser.parse(INPUT, Ok(&bad)).unwrap();
    assert_eq!(r.parse_mode, ParseMode::Light);
    // Both fail on blank input.
    assert!(matches!(parser.parse("  ", Ok(&out)), Err(ZantetsuError::EmptyInput)));
}

#[test]
fn auto_mode_arbitrates() {
    let parser = Parser::default().unwrap();
    // Six of eleven fields reach a threshold of 0.5: the statistical record
    // stands, though the heuristic one would be more confident.
    let out = rich_output();
    let half = Parser::new(ParserConfig::new().with_confidence_threshold(500_000)).unwrap();
    let r = half.parse(INPUT, Ok(&out)).unwrap();
    assert_eq!(r.parse_mode, ParseMode::Full);
    assert_eq!(r.confidence, 545_454);
    // They do not reach the default threshold of 0.6, and five of eight
    // counted fields beat them.
    let r = parser.parse(INPUT, Ok(&out)).unwrap();
    assert_eq!(r.parse_mode, ParseMode::Light);
    assert_eq!(r.confidence, 625_000);
    // Statistical record below the threshold, heuristic record better.
    let out = poor_output();
    let r = parser.parse(INPUT, Ok(&out)).unwrap();
    assert_eq!(r.parse_mode, ParseMode::Light);
    assert_eq!(r.title.as_deref(), Some("Jujutsu Kaisen"));
    assert_eq!(r.resolution, Some(Resolution::FHD1080));
    assert_eq!(r.confidence, 625_000);
    // With a threshold of 0.0 the statistical record always stands.
    let lenient =
        Parser::new(ParserConfig::new().with_confidence_threshold(0)).unwrap();
    let r = lenient.parse(INPUT, Ok(&out)).unwrap();
    assert_eq!(r.parse_mode, ParseMode::Full);
    assert_eq!(r.title.as_deref(), Some("Jujutsu"));
    // Statistical engine disabled.
    let off = Parser::new(ParserConfig::new().with_neural(false)).unwrap();
    let r = off.parse(INPUT, Ok(&rich_output())).unwrap();
    assert_eq!(r.parse_mode, ParseMode::Light);
    // Blank input fails in every mode.
    for mode in [ParseMode::Light, ParseMode::Full, ParseMode::Auto] {
        assert!(matches!(
            parse_with_mode("   ", mode, no_model()),
            Err(ZantetsuError::EmptyInput)
        ));
    }
}
