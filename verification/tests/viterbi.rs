use zantetsu_core::parser::bio_tags::BioTag;
use zantetsu_core::parser::viterbi::ViterbiDecoder;
use zantetsu_core::ZantetsuError;

// Scores are fixed-point values in thousandths.
fn fixed(x: f64) -> i32 {
    (x * 1000.0).round() as i32
}

fn create_simple_transition_matrix(num_tags: usize) -> Vec<Vec<i32>> {
    let mut matrix = vec![vec![fixed(0.0); num_tags]; num_tags];
    for i in 0..num_tags {
        for j in 0..num_tags {
            if BioTag::is_valid_transition(
                BioTag::from_index(i).unwrap(),
                BioTag::from_index(j).unwrap(),
            ) {
                matrix[i][j] = fixed(0.1);
            } else {
                matrix[i][j] = fixed(-1000.0);
            }
        }
    }
    matrix
}

fn row(values: &[f64]) -> Vec<i32> {
    values.iter().map(|v| fixed(*v)).collect()
}

fn one_hot(tag: usize, score: f64) -> Vec<i32> {
    let mut r = vec![0; BioTag::NUM_TAGS];
    r[tag] = fixed(score);
    r
}

#[test]
fn test_viterbi_simple() {
    let decoder = ViterbiDecoder::new(BioTag::NUM_TAGS);
    let transition = create_simple_transition_matrix(BioTag::NUM_TAGS);

    let emissions = vec![
        row(&[
            1.0, 0.0, 0.0, 0.0, 0.0, 0.0, 0.0, 0.0, 0.0, 0.0, 0.0, 0.0, 0.0, 0.0, 0.0, 0.0, 0.0,
        ]),
        row(&[
            0.0, 0.0, 1.0, 0.0, 0.0, 0.0, 0.0, 0.0, 0.0, 0.0, 0.0, 0.0, 0.0, 0.0, 0.0, 0.0, 0.0,
        ]),
    ];

    let result = decoder.decode(&emissions, &transition).unwrap();
    assert_eq!(result.len(), 2);
    assert_eq!(result[0], 0);
}

#[test]
fn test_viterbi_empty() {
    let decoder = ViterbiDecoder::new(BioTag::NUM_TAGS);
    let transition = create_simple_transition_matrix(BioTag::NUM_TAGS);
    let emissions: Vec<Vec<i32>> = vec![];

    let result = decoder.decode(&emissions, &transition).unwrap();
    assert!(result.is_empty());
}

#[test]
fn test_decode_constrained() {
    let decoder = ViterbiDecoder::new(BioTag::NUM_TAGS);
    let transition = create_simple_transition_matrix(BioTag::NUM_TAGS);

    let emissions = vec![vec![fixed(1.0); BioTag::NUM_TAGS], vec![fixed(1.0); BioTag::NUM_TAGS]];

    let result = decoder.decode_constrained(&emissions, &transition).unwrap();
    assert_eq!(result.len(), 2);
}

#[test]
fn decode_picks_the_best_path_exactly() {
    let decoder = ViterbiDecoder::new(BioTag::NUM_TAGS);
    let transition = create_simple_transition_matrix(BioTag::NUM_TAGS);
    let emissions = vec![one_hot(0, 1.0), one_hot(2, 1.0)];
    assert_eq!(decoder.decode(&emissions, &transition).unwrap(), vec![0, 2]);
    assert_eq!(decoder.decode_constrained(&emissions, &transition).unwrap(), vec![0, 2]);

    // Title, title continued, episode, outside.
    let emissions = vec![one_hot(0, 2.0), one_hot(1, 2.0), one_hot(4, 2.0), one_hot(16, 2.0)];
    assert_eq!(decoder.decode(&emissions, &transition).unwrap(), vec![0, 1, 4, 16]);
}

#[test]
fn decode_breaks_ties_towards_the_lower_index() {
    let decoder = ViterbiDecoder::new(BioTag::NUM_TAGS);
    let transition = vec![vec![0; BioTag::NUM_TAGS]; BioTag::NUM_TAGS];
    let emissions = vec![vec![0; BioTag::NUM_TAGS]; 3];
    assert_eq!(decoder.decode(&emissions, &transition).unwrap(), vec![0, 0, 0]);
    assert_eq!(decoder.decode_constrained(&emissions, &transition).unwrap(), vec![0, 0, 0]);
}

#[test]
fn decode_never_takes_a_forbidden_transition() {
    let decoder = ViterbiDecoder::new(BioTag::NUM_TAGS);
    // Every transition scores alike, but the forbidden step from Outside to
    // InsideTitle is given a huge reward.
    let mut transition = vec![vec![0; BioTag::NUM_TAGS]; BioTag::NUM_TAGS];
    let outside = BioTag::Outside.index();
    let inside_title = BioTag::InsideTitle.index();
    transition[outside][inside_title] = 1_000_000_000;
    let emissions = vec![one_hot(outside, 5.0), one_hot(inside_title, 6.0), one_hot(outside, 5.0)];
    for path in [
        decoder.decode(&emissions, &transition).unwrap(),
        decoder.decode_constrained(&emissions, &transition).unwrap(),
    ] {
        assert_eq!(path.len(), 3);
        for pair in path.windows(2) {
            assert!(BioTag::is_valid_transition(
                BioTag::from_index(pair[0]).unwrap(),
                BioTag::from_index(pair[1]).unwrap()
            ));
        }
        // The best grammatical path reaches InsideTitle from BeginTitle.
        assert_eq!(path, vec![BioTag::BeginTitle.index(), inside_title, outside]);
    }
}

#[test]
fn decode_is_deterministic() {
    let decoder = ViterbiDecoder::new(BioTag::NUM_TAGS);
    let transition = create_simple_transition_matrix(BioTag::NUM_TAGS);
    let emissions: Vec<Vec<i32>> = (0..6)
        .map(|p| (0..BioTag::NUM_TAGS).map(|t| ((p * 7 + t * 13) % 11) as i32 * 100).collect())
        .collect();
    let first = decoder.decode(&emissions, &transition).unwrap();
    for _ in 0..5 {
        assert_eq!(decoder.decode(&emissions, &transition).unwrap(), first);
        assert_eq!(decoder.decode_constrained(&emissions, &transition).unwrap(), first);
    }
}

#[test]
fn decode_survives_extreme_scores() {
    let decoder = ViterbiDecoder::new(BioTag::NUM_TAGS);
    let transition = vec![vec![i32::MAX; BioTag::NUM_TAGS]; BioTag::NUM_TAGS];
    let emissions = vec![vec![i32::MAX; BioTag::NUM_TAGS]; 50];
    let path = decoder.decode(&emissions, &transition).unwrap();
    assert_eq!(path, vec![0; 50]);
    let transition = vec![vec![i32::MIN; BioTag::NUM_TAGS]; BioTag::NUM_TAGS];
    let emissions = vec![vec![i32::MIN; BioTag::NUM_TAGS]; 50];
    assert_eq!(decoder.decode(&emissions, &transition).unwrap(), vec![0; 50]);
}

#[test]
fn decode_reports_wrong_shapes() {
    let decoder = ViterbiDecoder::new(BioTag::NUM_TAGS);
    let transition = create_simple_transition_matrix(BioTag::NUM_TAGS);

    // First row too narrow.
    let emissions = vec![vec![0; 3]];
    match decoder.decode(&emissions, &transition) {
        Err(ZantetsuError::NeuralParser(m)) => {
            assert_eq!(m, "Emission score dimension mismatch: expected 17, got 3")
        }
        other => panic!("unexpected: {:?}", other),
    }
    assert!(matches!(
        decoder.decode_constrained(&emissions, &transition),
        Err(ZantetsuError::NeuralParser(_))
    ));

    // A later row too narrow.
    let emissions = vec![vec![0; 17], vec![0; 16]];
    assert!(matches!(decoder.decode(&emissions, &transition), Err(ZantetsuError::NeuralParser(_))));

    // Transition matrix too small, which matters from two positions on.
    let small = vec![vec![0; 17]; 16];
    let emissions = vec![vec![0; 17], vec![0; 17]];
    assert!(matches!(decoder.decode(&emissions, &small), Err(ZantetsuError::NeuralParser(_))));
    assert!(matches!(
        decoder.decode_constrained(&emissions, &small),
        Err(ZantetsuError::NeuralParser(_))
    ));
    let emissions = vec![one_hot(5, 1.0)];
    assert_eq!(decoder.decode(&emissions, &small).unwrap(), vec![5]);

    // A decoder without tags has nothing to decode to.
    let empty = ViterbiDecoder::new(0);
    assert!(matches!(empty.decode(&[vec![]], &[]), Err(ZantetsuError::NeuralParser(_))));
    assert_eq!(empty.decode(&[], &[]).unwrap(), Vec::<usize>::new());
}

#[test]
fn decode_with_more_tags_than_the_vocabulary() {
    let decoder = ViterbiDecoder::new(18);
    assert_eq!(decoder.num_tags(), 18);
    let transition = vec![vec![0; 18]; 18];
    let mut first = vec![0; 18];
    first[17] = 9_000;
    // One position: the unknown tag may win.
    assert_eq!(decoder.decode(&[first.clone()], &transition).unwrap(), vec![17]);
    assert_eq!(decoder.decode_constrained(&[first.clone()], &transition).unwrap(), vec![17]);
    // Two positions: `decode` refuses the unknown index, the constrained
    // variant never steps from or to it.
    let emissions = vec![first.clone(), first.clone()];
    match decoder.decode(&emissions, &transition) {
        Err(ZantetsuError::NeuralParser(m)) => assert_eq!(m, "Invalid tag index: 17"),
        other => panic!("unexpected: {:?}", other),
    }
    assert_eq!(decoder.decode_constrained(&emissions, &transition).unwrap(), vec![0, 0]);
}

#[test]
fn both_decoders_report_rows_of_the_wrong_width() {
    let decoder = ViterbiDecoder::new(BioTag::NUM_TAGS);
    let transition = create_simple_transition_matrix(BioTag::NUM_TAGS);
    // A first row that is too wide, alone or followed by a fitting one.
    for emissions in [vec![vec![0; 18]], vec![vec![0; 18], vec![0; 17]]] {
        for result in [
            decoder.decode(&emissions, &transition),
            decoder.decode_constrained(&emissions, &transition),
        ] {
            match result {
                Err(ZantetsuError::NeuralParser(m)) => {
                    assert_eq!(m, "Emission score dimension mismatch: expected 17, got 18")
                }
                other => panic!("unexpected: {:?}", other),
            }
        }
    }
    // A first row that is too narrow.
    match decoder.decode_constrained(&[vec![0; 3]], &transition) {
        Err(ZantetsuError::NeuralParser(m)) => {
            assert_eq!(m, "Emission score dimension mismatch: expected 17, got 3")
        }
        other => panic!("unexpected: {:?}", other),
    }
    // A later row that is too wide or too narrow.
    for width in [16, 18] {
        let emissions = vec![vec![0; 17], vec![0; width]];
        for result in [
            decoder.decode(&emissions, &transition),
            decoder.decode_constrained(&emissions, &transition),
        ] {
            match result {
                Err(ZantetsuError::NeuralParser(m)) => {
                    assert_eq!(m, "Score matrices do not fit the tag count: expected 17")
                }
                other => panic!("unexpected: {:?}", other),
            }
        }
    }
    // A transition matrix that is larger than needed is no mismatch.
    let large = vec![vec![0; 20]; 20];
    let emissions = vec![one_hot(3, 1.0), one_hot(3, 1.0)];
    assert_eq!(decoder.decode_constrained(&emissions, &large).unwrap(), vec![3, 3]);
}
