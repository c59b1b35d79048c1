use zantetsu_core::parser::bio_tags::BioTag;
use zantetsu_core::parser::heuristic::HeuristicParser;
use zantetsu_core::parser::tokenizer::Tokenizer;
use zantetsu_core::training::align::{align_by_clues, align_tags, strip_prefix};
use zantetsu_core::training::data::{
    label_index, label_name, parse_bio_dataset, CharVocab, TrainingExample,
};
use zantetsu_core::training::features::{features_from, token_features, TokenFeatures};
use zantetsu_core::types::{ParseMode, ParseResult, Resolution};

#[test]
fn test_vocab() {
    let vocab = CharVocab::new();
    let encoded = vocab.encode("Hello");
    assert!(!encoded.is_empty());
    assert_eq!(vocab.vocab_size(), 129);
}

#[test]
fn vocab_codes() {
    let vocab = CharVocab::default();
    assert_eq!(vocab.encode("Hello"), vec![73, 102, 109, 109, 112]);
    assert_eq!(vocab.encode(""), Vec::<usize>::new());
    assert_eq!(vocab.encode("\u{0}\u{7f}\u{80}é進"), vec![1, 128, 0, 0, 0]);
    for code in vocab.encode("any text ~ at all") {
        assert!(code < vocab.vocab_size());
    }
}

#[test]
fn labels_by_name_and_index() {
    let chars = |s: &str| s.chars().collect::<Vec<char>>();
    assert_eq!(label_index(&chars("O")), Some(0));
    assert_eq!(label_index(&chars("B-TITLE")), Some(1));
    assert_eq!(label_index(&chars("I-TITLE")), Some(2));
    assert_eq!(label_index(&chars("B-GROUP")), None);
    assert_eq!(label_index(&chars("")), None);
    assert_eq!(label_name(0), Some("O"));
    assert_eq!(label_name(1), Some("B-TITLE"));
    assert_eq!(label_name(2), Some("I-TITLE"));
    assert_eq!(label_name(3), None);
    for i in 0..3 {
        assert_eq!(label_index(&chars(label_name(i).unwrap())), Some(i));
    }
}

fn lines(text: &str) -> Vec<String> {
    text.split('\n').map(|l| l.to_string()).collect()
}

fn pairs(examples: &[TrainingExample]) -> Vec<(Vec<String>, Vec<usize>)> {
    examples.iter().map(|e| (e.tokens.clone(), e.labels.clone())).collect()
}

#[test]
fn dataset_is_read_line_by_line() {
    let text = "# a comment\nJujutsu\tB-TITLE\nKaisen\tI-TITLE\n-\tO\n\n\n  \n24\tO\n";
    let examples = parse_bio_dataset(&lines(text));
    assert_eq!(
        pairs(&examples),
        vec![
            (vec!["Jujutsu".to_string(), "Kaisen".to_string(), "-".to_string()], vec![1, 2, 0]),
            (vec!["24".to_string()], vec![0]),
        ]
    );
}

#[test]
fn dataset_passes_over_what_it_cannot_read() {
    let text = "One\tB-TITLE\nno tab here\nthree\tparts\tO\nTwo\tB-GROUP\n  #x\tO\nPiece\tI-TITLE";
    let examples = parse_bio_dataset(&lines(text));
    assert_eq!(
        pairs(&examples),
        vec![(vec!["One".to_string(), "Piece".to_string()], vec![1, 2])]
    );
    assert!(parse_bio_dataset(&[]).is_empty());
    assert!(parse_bio_dataset(&lines("\n\n# only a comment\n")).is_empty());
    // Lines are trimmed before they are read.
    let examples = parse_bio_dataset(&lines("  Naruto\tO  \r"));
    assert_eq!(pairs(&examples), vec![(vec!["Naruto".to_string()], vec![0])]);
    let example = TrainingExample::new(vec!["a".into()], vec![2]);
    assert_eq!(example.tokens, vec!["a".to_string()]);
    assert_eq!(example.labels, vec![2]);
}

#[test]
fn strip_prefix_cuts_a_leading_remark() {
    assert_eq!(strip_prefix("  (Anime) [Group] Title - 01  "), "[Group] Title - 01");
    assert_eq!(strip_prefix("(no end"), "(no end");
    assert_eq!(strip_prefix("Title (2020)"), "Title (2020)");
    assert_eq!(strip_prefix("(only)"), "");
    assert_eq!(strip_prefix("   "), "");
    assert_eq!(strip_prefix("(a)(b) c"), "(b) c");
}

fn features(
    token: &str,
    prev: Option<&str>,
    next: Option<&str>,
) -> [bool; 9] {
    let f: TokenFeatures = token_features(token, prev, next);
    [
        f.all_caps,
        f.bracket_start,
        f.bracket_end,
        f.episode_like,
        f.quality_like,
        f.has_digit,
        f.long_token,
        f.prev_bracket_start,
        f.next_bracket_start,
    ]
}

#[test]
fn token_features_by_example() {
    assert_eq!(
        features("[SubsPlease]", None, Some("(x")),
        [false, true, true, false, false, false, true, false, true]
    );
    assert_eq!(
        features("1080P", Some("[a"), None),
        [true, false, false, false, true, true, true, true, false]
    );
    assert_eq!(
        features("24", Some("a"), Some("b")),
        [true, false, false, true, false, true, false, false, false]
    );
    assert_eq!(
        features("S01E05)", None, None),
        [true, false, true, true, false, true, true, false, false]
    );
    assert_eq!(
        features("BD", None, None),
        [true, false, false, false, true, false, false, false, false]
    );
    assert_eq!(
        features("web", None, None),
        [false, false, false, false, true, false, false, false, false]
    );
    // The empty token: nothing contradicts "all caps" or "only digits".
    assert_eq!(
        features("", None, None),
        [true, false, false, true, false, false, false, false, false]
    );
    // Length counts bytes.
    assert_eq!(features("進撃", None, None)[6], true);
    assert_eq!(features("abc", None, None)[6], false);
}

#[test]
fn align_tags_from_a_heuristic_parse() {
    let input = "[SubsPlease] Jujutsu Kaisen - 24 (1080p) [A1B2C3D4].mkv";
    let parser = HeuristicParser::new().unwrap();
    let result = parser.parse(input).unwrap();
    let tokens = Tokenizer::new().tokenize(input);
    let tags = align_tags(&tokens, &result);
    assert_eq!(
        tags,
        vec![
            BioTag::BeginGroup,
            BioTag::BeginTitle,
            BioTag::InsideTitle,
            BioTag::Outside,
            BioTag::Resolution,
            BioTag::Outside,
            BioTag::Outside,
        ]
    );
}

#[test]
fn align_tags_rules() {
    let tokens = Tokenizer::new().tokenize("sub subs please a b c subs one piece one 720p fhd1080 x");
    let mut record = ParseResult::new("x", ParseMode::Light);
    record.group = Some("Subs Please".into());
    record.title = Some("One Piece".into());
    record.resolution = Some(Resolution::FHD1080);
    let tags = align_tags(&tokens, &record);
    assert_eq!(
        tags,
        vec![
            BioTag::BeginGroup,
            BioTag::InsideGroup,
            BioTag::InsideGroup,
            // "a" and "b" occur in "subs please".
            BioTag::InsideGroup,
            BioTag::InsideGroup,
            // Past the fifth token nothing belongs to the group; "c"
            // occurs in "one piece".
            BioTag::BeginTitle,
            BioTag::Outside,
            BioTag::BeginTitle,
            BioTag::InsideTitle,
            BioTag::InsideTitle,
            BioTag::Resolution,
            BioTag::Resolution,
            BioTag::Outside,
        ]
    );
    // Without clues everything is outside.
    let blank = ParseResult::new("x", ParseMode::Light);
    let tags = align_tags(&tokens, &blank);
    assert_eq!(tags.len(), tokens.len());
    assert!(tags.iter().all(|t| *t == BioTag::Outside));
    assert_eq!(align_tags(&[], &record), vec![]);
}

#[test]
fn features_and_tags_from_given_lower_case() {
    let f = features_from("BD", "bd", None, None);
    assert!(f.quality_like && f.all_caps);
    // The lower-case form is taken as given.
    let f = features_from("BD", "BD", None, None);
    assert!(!f.quality_like);
    let tokens = Tokenizer::new().tokenize("one piece 720p");
    let chars = |s: &str| s.chars().collect::<Vec<char>>();
    let tags = align_by_clues(&tokens, &chars(""), &chars("one piece"), &Some(chars("hd720")));
    assert_eq!(tags, vec![BioTag::BeginTitle, BioTag::InsideTitle, BioTag::Resolution]);
    let tags = align_by_clues(&tokens, &chars(""), &chars("ONE PIECE"), &None);
    assert_eq!(tags, vec![BioTag::Outside, BioTag::Outside, BioTag::Outside]);
}
