use zantetsu_core::parser::bio_tags::{BioTag, EntityType};

#[test]
fn test_tag_index_roundtrip() {
    for tag in BioTag::all_tags() {
        let idx = tag.index();
        let recovered = BioTag::from_index(idx).unwrap();
        assert_eq!(*tag, recovered);
    }
}

#[test]
fn test_valid_transitions() {
    assert!(BioTag::is_valid_transition(
        BioTag::BeginTitle,
        BioTag::InsideTitle
    ));
    assert!(BioTag::is_valid_transition(
        BioTag::Outside,
        BioTag::BeginTitle
    ));
    assert!(BioTag::is_valid_transition(
        BioTag::BeginEpisode,
        BioTag::Outside
    ));
}

#[test]
fn test_invalid_transitions() {
    assert!(!BioTag::is_valid_transition(
        BioTag::InsideTitle,
        BioTag::BeginTitle
    ));
    assert!(!BioTag::is_valid_transition(
        BioTag::Outside,
        BioTag::InsideTitle
    ));
    assert!(!BioTag::is_valid_transition(
        BioTag::InsideTitle,
        BioTag::InsideGroup
    ));
}

#[test]
fn test_is_begin() {
    assert!(BioTag::BeginTitle.is_begin());
    assert!(BioTag::BeginGroup.is_begin());
    assert!(!BioTag::InsideTitle.is_begin());
    assert!(!BioTag::Outside.is_begin());
}

#[test]
fn test_entity_type() {
    assert_eq!(BioTag::BeginTitle.entity_type(), Some(EntityType::Title));
    assert_eq!(
        BioTag::Resolution.entity_type(),
        Some(EntityType::Resolution)
    );
    assert_eq!(BioTag::Outside.entity_type(), None);
}

#[test]
fn all_tags_cover_every_index_once() {
    let tags = BioTag::all_tags();
    assert_eq!(tags.len(), BioTag::NUM_TAGS);
    for (i, tag) in tags.iter().enumerate() {
        assert_eq!(tag.index(), i);
        assert_eq!(BioTag::from_index(i), Some(*tag));
    }
    assert_eq!(BioTag::from_index(17), None);
    assert_eq!(BioTag::from_index(usize::MAX), None);
}

#[test]
fn grammar_holds_for_every_family() {
    let families = [
        (BioTag::BeginTitle, BioTag::InsideTitle),
        (BioTag::BeginGroup, BioTag::InsideGroup),
        (BioTag::BeginEpisode, BioTag::InsideEpisode),
        (BioTag::BeginSeason, BioTag::InsideSeason),
    ];
    for (begin, inside) in families {
        assert!(BioTag::is_valid_transition(BioTag::Outside, begin));
        assert!(BioTag::is_valid_transition(begin, inside));
        assert!(BioTag::is_valid_transition(inside, inside));
        assert!(!BioTag::is_valid_transition(inside, begin));
        assert!(!BioTag::is_valid_transition(BioTag::Outside, inside));
        for (other_begin, other_inside) in families {
            if other_inside != inside {
                assert!(!BioTag::is_valid_transition(inside, other_inside));
                assert!(BioTag::is_valid_transition(inside, other_begin));
            }
        }
    }
    for to in BioTag::all_tags() {
        if !to.is_inside() && !to.is_begin() {
            for from in BioTag::all_tags() {
                assert!(BioTag::is_valid_transition(*from, *to));
            }
        }
    }
}

#[test]
fn tag_labels() {
    assert_eq!(BioTag::BeginTitle.to_string(), "B-TITLE");
    assert_eq!(BioTag::InsideSeason.to_string(), "I-SEASON");
    assert_eq!(BioTag::Crc32.to_string(), "CRC32");
    assert_eq!(BioTag::Outside.to_string(), "O");
}

#[test]
fn tag_predicates_are_exclusive() {
    for tag in BioTag::all_tags() {
        assert!(!(tag.is_begin() && tag.is_inside()));
        assert_eq!(tag.entity_type().is_none(), *tag == BioTag::Outside);
    }
    assert!(BioTag::InsideEpisode.is_inside());
    assert!(!BioTag::Version.is_inside());
}
