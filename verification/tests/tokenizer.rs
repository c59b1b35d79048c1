use zantetsu_core::parser::tokenizer::{plain_text, Token, Tokenizer};

#[test]
fn test_tokenize_basic() {
    let tokenizer = Tokenizer::new();
    let tokens = tokenizer.tokenize("[SubsPlease] Jujutsu Kaisen - 24 (1080p)");

    assert!(!tokens.is_empty());
    assert_eq!(tokens[0].text, "subsplease");
    assert_eq!(tokens[0].start, 1);
    assert_eq!(tokens[0].end, 11);
}

#[test]
fn test_tokenize_with_dots() {
    let tokenizer = Tokenizer::new();
    let tokens = tokenizer.tokenize("One.Piece.1084.VOSTFR.1080p");

    assert!(tokens.len() >= 5);
    assert_eq!(tokens[0].text, "one");
    assert_eq!(tokens[1].text, "piece");
    assert_eq!(tokens[2].text, "1084");
}

#[test]
fn test_tokenize_with_underscores() {
    let tokenizer = Tokenizer::new();
    let tokens = tokenizer.tokenize("[Judas]_Golden_Kamuy_S3_01");

    assert!(tokens.len() >= 5);
    let texts: Vec<_> = tokens.iter().map(|t| t.text.clone()).collect();
    assert!(texts.contains(&"judas".to_string()));
    assert!(texts.contains(&"golden".to_string()));
    assert!(texts.contains(&"kamuy".to_string()));
}

#[test]
fn test_tokenize_empty() {
    let tokenizer = Tokenizer::new();
    let tokens = tokenizer.tokenize("");
    assert!(tokens.is_empty());
}

#[test]
fn test_tokenize_only_delimiters() {
    let tokenizer = Tokenizer::new();
    let tokens = tokenizer.tokenize("[[[]]]()..--__");
    assert!(tokens.is_empty());
}

#[test]
fn test_get_spans() {
    let tokenizer = Tokenizer::new();
    let tokens = tokenizer.tokenize("[SubsPlease] Jujutsu Kaisen - 24");

    let span = tokenizer.get_spans(&tokens, 1, 3);
    assert!(span.is_some());
}

#[test]
fn tokenize_gives_every_fragment_in_order() {
    let tokenizer = Tokenizer::new();
    let tokens = tokenizer.tokenize("[SubsPlease] Jujutsu Kaisen - 24 (1080p)");
    let expected = vec![
        Token { text: "subsplease".to_string(), start: 1, end: 11, index: 0 },
        Token { text: "jujutsu".to_string(), start: 13, end: 20, index: 1 },
        Token { text: "kaisen".to_string(), start: 21, end: 27, index: 2 },
        Token { text: "24".to_string(), start: 30, end: 32, index: 3 },
        Token { text: "1080p".to_string(), start: 34, end: 39, index: 4 },
    ];
    assert_eq!(tokens, expected);
}

#[test]
fn tokenize_counts_offsets_in_bytes() {
    let tokenizer = Tokenizer::new();
    let input = "進撃 Kyojin.é1";
    let tokens = tokenizer.tokenize(input);
    assert_eq!(tokens.len(), 3);
    // The first fragment has no ASCII letters or digits: the token stays,
    // with an empty text.
    assert_eq!(tokens[0], Token { text: String::new(), start: 0, end: 6, index: 0 });
    assert_eq!(tokens[1], Token { text: "kyojin".to_string(), start: 7, end: 13, index: 1 });
    assert_eq!(tokens[2], Token { text: "1".to_string(), start: 14, end: 17, index: 2 });
    for t in &tokens {
        assert!(input.is_char_boundary(t.start) && input.is_char_boundary(t.end));
    }
    assert_eq!(&input[tokens[2].start..tokens[2].end], "é1");
}

#[test]
fn tokenize_lowercases_before_filtering() {
    let tokenizer = Tokenizer::new();
    // U+212A KELVIN SIGN lower-cases to an ASCII 'k' and is then kept.
    let tokens = tokenizer.tokenize("\u{212A}AISEN");
    assert_eq!(tokens.len(), 1);
    assert_eq!(tokens[0].text, "kaisen");
    assert_eq!(tokens[0].start, 0);
    assert_eq!(tokens[0].end, 8);
}

#[test]
fn tokens_are_strictly_increasing() {
    let tokenizer = Tokenizer::new();
    let tokens = tokenizer.tokenize("a.b--c__(d)[e] f");
    assert_eq!(tokens.len(), 6);
    for (i, t) in tokens.iter().enumerate() {
        assert_eq!(t.index, i);
        assert!(t.start < t.end);
        if i > 0 {
            assert!(tokens[i - 1].end < t.start);
        }
    }
}

#[test]
fn get_spans_rejects_bad_ranges() {
    let tokenizer = Tokenizer::new();
    let tokens = tokenizer.tokenize("[SubsPlease] Jujutsu Kaisen - 24");
    assert_eq!(tokens.len(), 4);
    assert_eq!(tokenizer.get_spans(&tokens, 1, 3), Some((13, 27)));
    assert_eq!(tokenizer.get_spans(&tokens, 0, 4), Some((1, 32)));
    assert_eq!(tokenizer.get_spans(&tokens, 2, 2), None);
    assert_eq!(tokenizer.get_spans(&tokens, 3, 2), None);
    assert_eq!(tokenizer.get_spans(&tokens, 4, 5), None);
    assert_eq!(tokenizer.get_spans(&tokens, 0, 5), None);
    assert_eq!(tokenizer.get_spans(&[], 0, 0), None);
}

#[test]
fn plain_text_keeps_ascii_letters_digits_and_spaces() {
    assert_eq!(plain_text("  a-b c_1! "), "ab c1");
    assert_eq!(plain_text("ABC"), "ABC");
    assert_eq!(plain_text("é進"), "");
    assert_eq!(plain_text(""), "");
    assert_eq!(plain_text(" \t "), "");
}
