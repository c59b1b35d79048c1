use zantetsu_core::parser::bio_tags::BioTag;
use zantetsu_core::parser::heuristic::HeuristicParser;
use zantetsu_core::parser::neural::{ModelOutput, NeuralParser};
use zantetsu_core::parser::tokenizer::Tokenizer;
use zantetsu_core::parser::viterbi::ViterbiDecoder;
use zantetsu_core::types::EpisodeSpec;

const CORPUS: &[&str] = &[
    "[SubsPlease] Jujutsu Kaisen - 24 (1080p) [A1B2C3D4].mkv",
    "[Erai-raws] Shingeki no Kyojin - The Final Season - 28v2 [1080p][HEVC].mkv",
    "[Judas] Golden Kamuy S3 - 01-12 (1080p) [Batch]",
    "One.Piece.1084.VOSTFR.1080p.WEB.x264-AAC.mkv",
    "[Commie] Steins;Gate - 01 [BD 720p AAC] [5765F5A5].mkv",
    "[G] Show - 12-01 [720p]",
    "[G] Show - 05-05",
    "- - -",
    "....",
    "[]",
    "(2024)",
    "v2",
    "x",
    "進撃の巨人 - 01 [1080p].mkv",
    "[Group] Title S01E05 1080p WEB-DL AAC2.0 H.264-Group.mkv",
    "Title - 9999-0000 v9 [v1] (1999) (2001)",
    "  leading and trailing  ",
    "Show 01~03 [BDRemux][FLAC][x265]",
];

#[test]
fn heuristic_confidence_stays_within_bounds() {
    let parser = HeuristicParser::new().unwrap();
    for input in CORPUS {
        let r = parser.parse(input).unwrap();
        assert!(r.confidence <= 1_000_000, "{input}");
        assert!(r.is_well_formed(), "{input}");
    }
}

#[test]
fn heuristic_ranges_run_upwards() {
    let parser = HeuristicParser::new().unwrap();
    for input in CORPUS {
        if let Some(EpisodeSpec::Range(start, end)) = parser.parse(input).unwrap().episode {
            assert!(start < end, "{input}");
        }
    }
    assert_eq!(
        parser.parse("Show 01~03 [BDRemux][FLAC][x265]").unwrap().episode,
        Some(EpisodeSpec::Range(1, 3))
    );
}

#[test]
fn heuristic_titles_are_clean() {
    let parser = HeuristicParser::new().unwrap();
    for input in CORPUS {
        if let Some(title) = parser.parse(input).unwrap().title {
            assert!(!title.is_empty(), "{input}");
            assert!(!title.starts_with(['-', ' ']), "{input}");
            assert!(!title.ends_with(['-', ' ']), "{input}");
            assert!(!title.contains("  "), "{input}");
            assert!(!title.contains('\0'), "{input}");
        }
    }
}

#[test]
fn heuristic_parsing_is_repeatable() {
    let first = HeuristicParser::new().unwrap();
    let second = HeuristicParser::new().unwrap();
    for input in CORPUS {
        assert_eq!(first.parse(input).unwrap(), second.parse(input).unwrap());
        assert_eq!(first.parse(input).unwrap(), first.parse(input).unwrap());
    }
}

#[test]
fn statistical_confidence_stays_within_bounds() {
    let engine = NeuralParser::new().unwrap();
    let tokenizer = Tokenizer::new();
    for input in CORPUS {
        // A model that tags the tokens in turn with every tag there is.
        let tokens = tokenizer.tokenize(input);
        let mut emissions = Vec::new();
        let mut offsets = Vec::new();
        for (i, token) in tokens.iter().enumerate() {
            let mut row = vec![0; BioTag::NUM_TAGS];
            row[(i * 5) % BioTag::NUM_TAGS] = 1_000;
            emissions.push(row);
            offsets.push((token.start, token.end));
        }
        let out = ModelOutput {
            emissions,
            transitions: vec![vec![0; BioTag::NUM_TAGS]; BioTag::NUM_TAGS],
            offsets,
        };
        match engine.parse(input, Ok(&out)) {
            Ok(r) => {
                assert!(r.confidence <= 1_000_000, "{input}");
                assert!(r.is_well_formed(), "{input}");
                assert_eq!(r.input, *input);
            }
            Err(_) => assert!(tokens.is_empty(), "{input}"),
        }
    }
}

#[test]
fn tokens_are_plain_and_ordered() {
    let tokenizer = Tokenizer::new();
    for input in CORPUS {
        let tokens = tokenizer.tokenize(input);
        let mut last_end = 0;
        for (i, t) in tokens.iter().enumerate() {
            assert_eq!(t.index, i);
            assert!(t.start < t.end && t.end <= input.len(), "{input}");
            assert!(i == 0 || last_end < t.start, "{input}");
            last_end = t.end;
            assert!(
                t.text.chars().all(|c| c.is_ascii_lowercase() || c.is_ascii_digit() || c == ' '),
                "{input}"
            );
            let fragment = &input[t.start..t.end];
            assert!(!fragment.contains(['[', ']', '(', ')', '_', '.', '-', ' ']), "{input}");
        }
        // Every character outside the tokens is a delimiter.
        let mut covered = vec![false; input.len()];
        for t in &tokens {
            for flag in &mut covered[t.start..t.end] {
                *flag = true;
            }
        }
        for (i, c) in input.char_indices() {
            if !covered[i] {
                assert!(['[', ']', '(', ')', '_', '.', '-', ' '].contains(&c), "{input}");
            }
        }
    }
}

#[test]
fn decoded_paths_are_grammatical_and_best() {
    let decoder = ViterbiDecoder::new(BioTag::NUM_TAGS);
    let n = BioTag::NUM_TAGS;
    let valid = |p: usize, c: usize| {
        BioTag::is_valid_transition(BioTag::from_index(p).unwrap(), BioTag::from_index(c).unwrap())
    };
    for seed in 0..20u64 {
        let mut state = seed.wrapping_mul(6364136223846793005).wrapping_add(1442695040888963407);
        let mut next = || {
            state = state.wrapping_mul(6364136223846793005).wrapping_add(1442695040888963407);
            ((state >> 33) % 2001) as i32 - 1000
        };
        let emissions: Vec<Vec<i32>> = (0..3).map(|_| (0..n).map(|_| next()).collect()).collect();
        let transitions: Vec<Vec<i32>> = (0..n).map(|_| (0..n).map(|_| next()).collect()).collect();
        let path = decoder.decode(&emissions, &transitions).unwrap();
        assert_eq!(path, decoder.decode_constrained(&emissions, &transitions).unwrap());
        assert_eq!(path.len(), 3);
        assert!(valid(path[0], path[1]) && valid(path[1], path[2]));
        let score = |a: usize, b: usize, c: usize| {
            emissions[0][a] as i64
                + transitions[a][b] as i64
                + emissions[1][b] as i64
                + transitions[b][c] as i64
                + emissions[2][c] as i64
        };
        let best = score(path[0], path[1], path[2]);
        for a in 0..n {
            for b in 0..n {
                for c in 0..n {
                    if valid(a, b) && valid(b, c) {
                        assert!(score(a, b, c) <= best);
                    }
                }
            }
        }
    }
}
