//! The tag vocabulary for sequence labelling of release-name tokens.
//!
//! Four entity families (title, group, episode, season) may span several
//! tokens and therefore have a "begin" and an "inside" tag each. The other
//! families are labelled with a single tag, and `Outside` marks tokens that
//! belong to no entity.

use vstd::prelude::*;

verus! {

/// A sequence label for one token.
#[derive(Debug, Clone, Copy, PartialEq, Eq, Hash, Structural)]
pub enum BioTag {
    BeginTitle,
    InsideTitle,
    BeginGroup,
    InsideGroup,
    BeginEpisode,
    InsideEpisode,
    BeginSeason,
    InsideSeason,
    Resolution,
    VCodec,
    ACodec,
    Source,
    Year,
    Crc32,
    Extension,
    Version,
    Outside,
}

/// The kinds of entity that a tag sequence can describe.
#[derive(Debug, Clone, Copy, PartialEq, Eq, Hash, Structural)]
pub enum EntityType {
    Title,
    Group,
    Episode,
    Season,
    Resolution,
    VCodec,
    ACodec,
    Source,
    Year,
    Crc32,
    Extension,
    Version,
}

/// A labelled span: its kind, the half-open range of token positions it
/// covers, and the text that those tokens span in the input.
#[derive(Debug, Clone, PartialEq, Eq)]
pub struct Entity {
    pub entity_type: EntityType,
    pub start_token: usize,
    pub end_token: usize,
    pub text: String,
}

/// An entity as plain data.
pub ghost struct EntityModel {
    pub entity_type: EntityType,
    pub start_token: int,
    pub end_token: int,
    pub text: Seq<char>,
}

impl View for Entity {
    type V = EntityModel;

    open spec fn view(&self) -> EntityModel {
        EntityModel {
            entity_type: self.entity_type,
            start_token: self.start_token as int,
            end_token: self.end_token as int,
            text: self.text@,
        }
    }
}

impl BioTag {
    /// Number of distinct tags.
    pub const NUM_TAGS: usize = 17;

    /// The position of this tag in score vectors and matrices.
    pub open spec fn spec_index(self) -> int {
        match self {
            BioTag::BeginTitle => 0,
            BioTag::InsideTitle => 1,
            BioTag::BeginGroup => 2,
            BioTag::InsideGroup => 3,
            BioTag::BeginEpisode => 4,
            BioTag::InsideEpisode => 5,
            BioTag::BeginSeason => 6,
            BioTag::InsideSeason => 7,
            BioTag::Resolution => 8,
            BioTag::VCodec => 9,
            BioTag::ACodec => 10,
            BioTag::Source => 11,
            BioTag::Year => 12,
            BioTag::Crc32 => 13,
            BioTag::Extension => 14,
            BioTag::Version => 15,
            BioTag::Outside => 16,
        }
    }

    /// The tag at a position, if the position is below the tag count.
    pub open spec fn spec_from_index(idx: int) -> Option<BioTag> {
        if idx == 0 {
            Some(BioTag::BeginTitle)
        } else if idx == 1 {
            Some(BioTag::InsideTitle)
        } else if idx == 2 {
            Some(BioTag::BeginGroup)
        } else if idx == 3 {
            Some(BioTag::InsideGroup)
        } else if idx == 4 {
            Some(BioTag::BeginEpisode)
        } else if idx == 5 {
            Some(BioTag::InsideEpisode)
        } else if idx == 6 {
            Some(BioTag::BeginSeason)
        } else if idx == 7 {
            Some(BioTag::InsideSeason)
        } else if idx == 8 {
            Some(BioTag::Resolution)
        } else if idx == 9 {
            Some(BioTag::VCodec)
        } else if idx == 10 {
            Some(BioTag::ACodec)
        } else if idx == 11 {
            Some(BioTag::Source)
        } else if idx == 12 {
            Some(BioTag::Year)
        } else if idx == 13 {
            Some(BioTag::Crc32)
        } else if idx == 14 {
            Some(BioTag::Extension)
        } else if idx == 15 {
            Some(BioTag::Version)
        } else if idx == 16 {
            Some(BioTag::Outside)
        } else {
            None
        }
    }

    /// Whether this tag opens a multi-token entity.
    pub open spec fn spec_is_begin(self) -> bool {
        self == BioTag::BeginTitle || self == BioTag::BeginGroup || self == BioTag::BeginEpisode
            || self == BioTag::BeginSeason
    }

    /// Whether this tag continues a multi-token entity.
    pub open spec fn spec_is_inside(self) -> bool {
        self == BioTag::InsideTitle || self == BioTag::InsideGroup || self == BioTag::InsideEpisode
            || self == BioTag::InsideSeason
    }

    /// The entity family that this tag labels; `Outside` labels none.
    pub open spec fn spec_entity_type(self) -> Option<EntityType> {
        match self {
            BioTag::BeginTitle | BioTag::InsideTitle => Some(EntityType::Title),
            BioTag::BeginGroup | BioTag::InsideGroup => Some(EntityType::Group),
            BioTag::BeginEpisode | BioTag::InsideEpisode => Some(EntityType::Episode),
            BioTag::BeginSeason | BioTag::InsideSeason => Some(EntityType::Season),
            BioTag::Resolution => Some(EntityType::Resolution),
            BioTag::VCodec => Some(EntityType::VCodec),
            BioTag::ACodec => Some(EntityType::ACodec),
            BioTag::Source => Some(EntityType::Source),
            BioTag::Year => Some(EntityType::Year),
            BioTag::Crc32 => Some(EntityType::Crc32),
            BioTag::Extension => Some(EntityType::Extension),
            BioTag::Version => Some(EntityType::Version),
            BioTag::Outside => None,
        }
    }

    /// The tag grammar: which tag may directly follow which.
    ///
    /// Three things are forbidden, and everything else is allowed:
    /// an "inside" tag followed by the "begin" tag of its own family,
    /// an "inside" tag followed by the "inside" tag of another family,
    /// and an "inside" tag directly after `Outside`.
    pub open spec fn spec_valid_transition(from: BioTag, to: BioTag) -> bool {
        let same_family = from.spec_entity_type() == to.spec_entity_type();
        &&& !(from.spec_is_inside() && to.spec_is_begin() && same_family)
        &&& !(from.spec_is_inside() && to.spec_is_inside() && !same_family)
        &&& !(from == BioTag::Outside && to.spec_is_inside())
    }

    /// The display label of this tag.
    pub open spec fn spec_label(self) -> Seq<char> {
        match self {
            BioTag::BeginTitle => "B-TITLE"@,
            BioTag::InsideTitle => "I-TITLE"@,
            BioTag::BeginGroup => "B-GROUP"@,
            BioTag::InsideGroup => "I-GROUP"@,
            BioTag::BeginEpisode => "B-EPISODE"@,
            BioTag::InsideEpisode => "I-EPISODE"@,
            BioTag::BeginSeason => "B-SEASON"@,
            BioTag::InsideSeason => "I-SEASON"@,
            BioTag::Resolution => "RESOLUTION"@,
            BioTag::VCodec => "VCODEC"@,
            BioTag::ACodec => "ACODEC"@,
            BioTag::Source => "SOURCE"@,
            BioTag::Year => "YEAR"@,
            BioTag::Crc32 => "CRC32"@,
            BioTag::Extension => "EXTENSION"@,
            BioTag::Version => "VERSION"@,
            BioTag::Outside => "O"@,
        }
    }

    /// All tags, in index order.
    pub fn all_tags() -> (tags: &'static [BioTag])
        ensures
            tags@.len() == BioTag::NUM_TAGS,
            forall|i: int|
                0 <= i < tags@.len() ==> BioTag::spec_from_index(i) == Some(#[trigger] tags@[i]),
    {
        let tags: &'static [BioTag; 17] = &[
            BioTag::BeginTitle,
            BioTag::InsideTitle,
            BioTag::BeginGroup,
            BioTag::InsideGroup,
            BioTag::BeginEpisode,
            BioTag::InsideEpisode,
            BioTag::BeginSeason,
            BioTag::InsideSeason,
            BioTag::Resolution,
            BioTag::VCodec,
            BioTag::ACodec,
            BioTag::Source,
            BioTag::Year,
            BioTag::Crc32,
            BioTag::Extension,
            BioTag::Version,
            BioTag::Outside,
        ];
        tags
    }

    /// The position of this tag in score vectors and matrices.
    pub fn index(&self) -> (idx: usize)
        ensures
            idx == self.spec_index(),
            idx < BioTag::NUM_TAGS,
    {
        match self {
            BioTag::BeginTitle => 0,
            BioTag::InsideTitle => 1,
            BioTag::BeginGroup => 2,
            BioTag::InsideGroup => 3,
            BioTag::BeginEpisode => 4,
            BioTag::InsideEpisode => 5,
            BioTag::BeginSeason => 6,
            BioTag::InsideSeason => 7,
            BioTag::Resolution => 8,
            BioTag::VCodec => 9,
            BioTag::ACodec => 10,
            BioTag::Source => 11,
            BioTag::Year => 12,
            BioTag::Crc32 => 13,
            BioTag::Extension => 14,
            BioTag::Version => 15,
            BioTag::Outside => 16,
        }
    }

    /// The tag at a position; `None` from the tag count upwards.
    pub fn from_index(idx: usize) -> (tag: Option<BioTag>)
        ensures
            tag == BioTag::spec_from_index(idx as int),
            tag is Some <==> idx < BioTag::NUM_TAGS,
    {
        match idx {
            0 => Some(BioTag::BeginTitle),
            1 => Some(BioTag::InsideTitle),
            2 => Some(BioTag::BeginGroup),
            3 => Some(BioTag::InsideGroup),
            4 => Some(BioTag::BeginEpisode),
            5 => Some(BioTag::InsideEpisode),
            6 => Some(BioTag::BeginSeason),
            7 => Some(BioTag::InsideSeason),
            8 => Some(BioTag::Resolution),
            9 => Some(BioTag::VCodec),
            10 => Some(BioTag::ACodec),
            11 => Some(BioTag::Source),
            12 => Some(BioTag::Year),
            13 => Some(BioTag::Crc32),
            14 => Some(BioTag::Extension),
            15 => Some(BioTag::Version),
            16 => Some(BioTag::Outside),
            _ => None,
        }
    }

    /// Whether this tag opens a multi-token entity.
    pub fn is_begin(&self) -> (b: bool)
        ensures
            b == self.spec_is_begin(),
    {
        matches!(
            self,
            BioTag::BeginTitle | BioTag::BeginGroup | BioTag::BeginEpisode | BioTag::BeginSeason
        )
    }

    /// Whether this tag continues a multi-token entity.
    pub fn is_inside(&self) -> (b: bool)
        ensures
            b == self.spec_is_inside(),
    {
        matches!(
            self,
            BioTag::InsideTitle | BioTag::InsideGroup | BioTag::InsideEpisode | BioTag::InsideSeason
        )
    }

    /// The entity family that this tag labels; `Outside` labels none.
    pub fn entity_type(&self) -> (family: Option<EntityType>)
        ensures
            family == self.spec_entity_type(),
    {
        match self {
            BioTag::BeginTitle | BioTag::InsideTitle => Some(EntityType::Title),
            BioTag::BeginGroup | BioTag::InsideGroup => Some(EntityType::Group),
            BioTag::BeginEpisode | BioTag::InsideEpisode => Some(EntityType::Episode),
            BioTag::BeginSeason | BioTag::InsideSeason => Some(EntityType::Season),
            BioTag::Resolution => Some(EntityType::Resolution),
            BioTag::VCodec => Some(EntityType::VCodec),
            BioTag::ACodec => Some(EntityType::ACodec),
            BioTag::Source => Some(EntityType::Source),
            BioTag::Year => Some(EntityType::Year),
            BioTag::Crc32 => Some(EntityType::Crc32),
            BioTag::Extension => Some(EntityType::Extension),
            BioTag::Version => Some(EntityType::Version),
            BioTag::Outside => None,
        }
    }

    /// Whether `to` may directly follow `from` in a tag sequence.
    pub fn is_valid_transition(from: BioTag, to: BioTag) -> (valid: bool)
        ensures
            valid == BioTag::spec_valid_transition(from, to),
    {
        match (from, to) {
            (BioTag::InsideTitle, BioTag::BeginTitle) => false,
            (BioTag::InsideGroup, BioTag::BeginGroup) => false,
            (BioTag::InsideEpisode, BioTag::BeginEpisode) => false,
            (BioTag::InsideSeason, BioTag::BeginSeason) => false,
            (BioTag::InsideTitle, BioTag::InsideGroup) => false,
            (BioTag::InsideTitle, BioTag::InsideEpisode) => false,
            (BioTag::InsideTitle, BioTag::InsideSeason) => false,
            (BioTag::InsideGroup, BioTag::InsideTitle) => false,
            (BioTag::InsideGroup, BioTag::InsideEpisode) => false,
            (BioTag::InsideGroup, BioTag::InsideSeason) => false,
            (BioTag::InsideEpisode, BioTag::InsideTitle) => false,
            (BioTag::InsideEpisode, BioTag::InsideGroup) => false,
            (BioTag::InsideEpisode, BioTag::InsideSeason) => false,
            (BioTag::InsideSeason, BioTag::InsideTitle) => false,
            (BioTag::InsideSeason, BioTag::InsideGroup) => false,
            (BioTag::InsideSeason, BioTag::InsideEpisode) => false,
            (BioTag::Outside, BioTag::InsideTitle) => false,
            (BioTag::Outside, BioTag::InsideGroup) => false,
            (BioTag::Outside, BioTag::InsideEpisode) => false,
            (BioTag::Outside, BioTag::InsideSeason) => false,
            _ => true,
        }
    }

    /// The display label of this tag, such as `B-TITLE` or `O`.
    pub fn to_string(&self) -> (label: String)
        ensures
            label@ == self.spec_label(),
    {
        let text: &str = match self {
            BioTag::BeginTitle => "B-TITLE",
            BioTag::InsideTitle => "I-TITLE",
            BioTag::BeginGroup => "B-GROUP",
            BioTag::InsideGroup => "I-GROUP",
            BioTag::BeginEpisode => "B-EPISODE",
            BioTag::InsideEpisode => "I-EPISODE",
            BioTag::BeginSeason => "B-SEASON",
            BioTag::InsideSeason => "I-SEASON",
            BioTag::Resolution => "RESOLUTION",
            BioTag::VCodec => "VCODEC",
            BioTag::ACodec => "ACODEC",
            BioTag::Source => "SOURCE",
            BioTag::Year => "YEAR",
            BioTag::Crc32 => "CRC32",
            BioTag::Extension => "EXTENSION",
            BioTag::Version => "VERSION",
            BioTag::Outside => "O",
        };
        text.to_owned()
    }
}

/// Index and tag determine each other: every position below the tag count
/// names a tag whose index is that position, and every tag is found again at
/// its own index.
pub proof fn lemma_tag_index_bijection()
    ensures
        forall|idx: int|
            0 <= idx < BioTag::NUM_TAGS ==> (#[trigger] BioTag::spec_from_index(idx)) is Some
                && BioTag::spec_from_index(idx)->0.spec_index() == idx,
        forall|idx: int|
            !(0 <= idx < BioTag::NUM_TAGS) ==> (#[trigger] BioTag::spec_from_index(idx)) is None,
        forall|tag: BioTag|
            0 <= #[trigger] tag.spec_index() < BioTag::NUM_TAGS && BioTag::spec_from_index(
                tag.spec_index(),
            ) == Some(tag),
{
}

/// The grammar treats the four multi-token families alike: a span may open
/// after `Outside`, may not reopen directly from its own inside tag, may not
/// continue into another family's inside tag, and may not start with an
/// inside tag after `Outside`.
pub proof fn lemma_transition_grammar(from: BioTag, to: BioTag)
    ensures
        from == BioTag::Outside && to.spec_is_begin() ==> BioTag::spec_valid_transition(from, to),
        from.spec_is_inside() && to.spec_is_begin() && from.spec_entity_type()
            == to.spec_entity_type() ==> !BioTag::spec_valid_transition(from, to),
        from.spec_is_inside() && to.spec_is_inside() && from.spec_entity_type()
            != to.spec_entity_type() ==> !BioTag::spec_valid_transition(from, to),
        from == BioTag::Outside && to.spec_is_inside() ==> !BioTag::spec_valid_transition(from, to),
        from.spec_is_begin() && to.spec_is_inside() && from.spec_entity_type()
            == to.spec_entity_type() ==> BioTag::spec_valid_transition(from, to),
        from.spec_is_inside() && to == from ==> BioTag::spec_valid_transition(from, to),
        to == BioTag::Outside ==> BioTag::spec_valid_transition(from, to),
        !to.spec_is_begin() && !to.spec_is_inside() ==> BioTag::spec_valid_transition(from, to),
{
}

} // verus!
