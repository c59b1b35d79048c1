//! Quality profiles and the weighted score.
//!
//! All weights and scores are fixed-point values in millionths.

use vstd::prelude::*;
use crate::fixed::{HALF, ONE};
use crate::types::{AudioCodec, MediaSource, Resolution, VideoCodec};

verus! {

/// The default weight of the resolution: 0.35.
pub const WEIGHT_RESOLUTION: u32 = 350_000;

/// The default weight of the video codec: 0.25.
pub const WEIGHT_VIDEO_CODEC: u32 = 250_000;

/// The default weight of the audio codec: 0.15.
pub const WEIGHT_AUDIO_CODEC: u32 = 150_000;

/// The default weight of the source: 0.15.
pub const WEIGHT_SOURCE: u32 = 150_000;

/// The default weight of the group's trust: 0.10.
pub const WEIGHT_GROUP_TRUST: u32 = 100_000;

/// How far the weights of a valid profile may sum away from 1.0: 0.01.
pub const WEIGHT_TOLERANCE: u32 = 10_000;

/// The relative importance of each quality dimension.
#[derive(Debug, Clone)]
pub struct QualityProfile {
    pub resolution_weight: u32,
    pub video_codec_weight: u32,
    pub audio_codec_weight: u32,
    pub source_weight: u32,
    pub group_trust_weight: u32,
}

impl Default for QualityProfile {
    fn default() -> (profile: Self)
        ensures
            profile.resolution_weight == WEIGHT_RESOLUTION,
            profile.video_codec_weight == WEIGHT_VIDEO_CODEC,
            profile.audio_codec_weight == WEIGHT_AUDIO_CODEC,
            profile.source_weight == WEIGHT_SOURCE,
            profile.group_trust_weight == WEIGHT_GROUP_TRUST,
            profile.spec_is_valid(),
    {
        Self {
            resolution_weight: WEIGHT_RESOLUTION,
            video_codec_weight: WEIGHT_VIDEO_CODEC,
            audio_codec_weight: WEIGHT_AUDIO_CODEC,
            source_weight: WEIGHT_SOURCE,
            group_trust_weight: WEIGHT_GROUP_TRUST,
        }
    }
}

impl QualityProfile {
    /// The sum of the five weights.
    pub open spec fn weight_sum(&self) -> int {
        self.resolution_weight + self.video_codec_weight + self.audio_codec_weight
            + self.source_weight + self.group_trust_weight
    }

    /// Whether the weights sum to 1.0 within the tolerance.
    pub open spec fn spec_is_valid(&self) -> bool {
        ONE - WEIGHT_TOLERANCE < self.weight_sum() < ONE + WEIGHT_TOLERANCE
    }

    /// Whether the weights sum to 1.0, give or take less than 0.01.
    #[must_use]
    pub fn is_valid(&self) -> (valid: bool)
        ensures
            valid == self.spec_is_valid(),
    {
        let sum: u64 = self.resolution_weight as u64 + self.video_codec_weight as u64
            + self.audio_codec_weight as u64 + self.source_weight as u64
            + self.group_trust_weight as u64;
        let low: u64 = (ONE - WEIGHT_TOLERANCE) as u64;
        let high: u64 = (ONE + WEIGHT_TOLERANCE) as u64;
        sum > low && sum < high
    }
}

/// The score of a file in each quality dimension.
///
/// A dimension is absent where the metadata does not tell.
#[derive(Debug, Clone)]
pub struct QualityScores {
    pub resolution: Option<u32>,
    pub video_codec: Option<u32>,
    pub audio_codec: Option<u32>,
    pub source: Option<u32>,
    /// How reliable the release group has been, supplied by the caller.
    pub group_trust: u32,
}

impl Default for QualityScores {
    fn default() -> (scores: Self)
        ensures
            scores.resolution is None,
            scores.video_codec is None,
            scores.audio_codec is None,
            scores.source is None,
            scores.group_trust == 0,
    {
        Self { resolution: None, video_codec: None, audio_codec: None, source: None, group_trust: 0 }
    }
}

/// The score that a dimension contributes: its own, or the neutral 0.5
/// where it is absent.
pub open spec fn or_neutral(score: Option<u32>) -> int {
    match score {
        Some(s) => s as int,
        None => HALF as int,
    }
}

impl QualityScores {
    /// The weighted sum of the five dimensions before the final division.
    pub open spec fn weighted_sum(&self, profile: &QualityProfile) -> int {
        profile.resolution_weight * or_neutral(self.resolution) + profile.video_codec_weight
            * or_neutral(self.video_codec) + profile.audio_codec_weight * or_neutral(
            self.audio_codec,
        ) + profile.source_weight * or_neutral(self.source) + profile.group_trust_weight
            * self.group_trust
    }

    /// The weighted quality score: each dimension's score, or 0.5 where it is
    /// absent, times its weight, summed and rounded towards zero.
    pub open spec fn spec_compute(&self, profile: &QualityProfile) -> int {
        self.weighted_sum(profile) / (ONE as int)
    }

    /// The scores of the given metadata, each from its dimension's table.
    #[must_use]
    pub fn from_metadata(
        resolution: Option<Resolution>,
        video_codec: Option<VideoCodec>,
        audio_codec: Option<AudioCodec>,
        source: Option<MediaSource>,
        group_trust: u32,
    ) -> (scores: Self)
        ensures
            scores.resolution == match resolution {
                Some(r) => Some(r.spec_score()),
                None => None,
            },
            scores.video_codec == match video_codec {
                Some(v) => Some(v.spec_score()),
                None => None,
            },
            scores.audio_codec == match audio_codec {
                Some(a) => Some(a.spec_score()),
                None => None,
            },
            scores.source == match source {
                Some(s) => Some(s.spec_score()),
                None => None,
            },
            scores.group_trust == group_trust,
    {
        Self {
            resolution: match resolution {
                Some(r) => Some(r.score()),
                None => None,
            },
            video_codec: match video_codec {
                Some(v) => Some(v.score()),
                None => None,
            },
            audio_codec: match audio_codec {
                Some(a) => Some(a.score()),
                None => None,
            },
            source: match source {
                Some(s) => Some(s.score()),
                None => None,
            },
            group_trust,
        }
    }

    /// The weighted quality score under the given profile.
    ///
    /// An absent dimension counts as 0.5, so that missing metadata is not
    /// taken for poor quality.
    #[must_use]
    pub fn compute(&self, profile: &QualityProfile) -> (score: u64)
        ensures
            score == self.spec_compute(profile),
    {
        let res: u128 = match self.resolution {
            Some(s) => s as u128,
            None => HALF as u128,
        };
        let vc: u128 = match self.video_codec {
            Some(s) => s as u128,
            None => HALF as u128,
        };
        let ac: u128 = match self.audio_codec {
            Some(s) => s as u128,
            None => HALF as u128,
        };
        let src: u128 = match self.source {
            Some(s) => s as u128,
            None => HALF as u128,
        };
        proof {
            lemma_product_bound(profile.resolution_weight, res as int);
            lemma_product_bound(profile.video_codec_weight, vc as int);
            lemma_product_bound(profile.audio_codec_weight, ac as int);
            lemma_product_bound(profile.source_weight, src as int);
            lemma_product_bound(profile.group_trust_weight, self.group_trust as int);
        }
        let sum: u128 = profile.resolution_weight as u128 * res + profile.video_codec_weight as u128
            * vc + profile.audio_codec_weight as u128 * ac + profile.source_weight as u128 * src
            + profile.group_trust_weight as u128 * self.group_trust as u128;
        (sum / (ONE as u128)) as u64
    }
}

/// The product of a weight and a score fits well within 128 bits.
proof fn lemma_product_bound(weight: u32, score: int)
    requires
        0 <= score <= u32::MAX,
    ensures
        0 <= weight * score <= 0xffff_ffff * 0xffff_ffff,
{
    assert(0 <= weight * score <= 0xffff_ffff * 0xffff_ffff) by (nonlinear_arith)
        requires
            0 <= weight <= 0xffff_ffff,
            0 <= score <= 0xffff_ffff,
    ;
}

/// With every dimension absent and a group trust of 0.5, the default profile
/// gives exactly 0.5.
pub proof fn lemma_neutral_blend(scores: QualityScores, profile: QualityProfile)
    requires
        scores.resolution is None,
        scores.video_codec is None,
        scores.audio_codec is None,
        scores.source is None,
        scores.group_trust == HALF,
        profile.resolution_weight == WEIGHT_RESOLUTION,
        profile.video_codec_weight == WEIGHT_VIDEO_CODEC,
        profile.audio_codec_weight == WEIGHT_AUDIO_CODEC,
        profile.source_weight == WEIGHT_SOURCE,
        profile.group_trust_weight == WEIGHT_GROUP_TRUST,
    ensures
        scores.spec_compute(&profile) == HALF,
{
}

/// Where every dimension is absent and the group trust is 0.5, any profile
/// whose weights sum to exactly 1.0 gives exactly 0.5.
pub proof fn lemma_neutral_blend_any_profile(scores: QualityScores, profile: QualityProfile)
    requires
        scores.resolution is None,
        scores.video_codec is None,
        scores.audio_codec is None,
        scores.source is None,
        scores.group_trust == HALF,
        profile.weight_sum() == ONE,
    ensures
        scores.spec_compute(&profile) == HALF,
{
    assert(scores.weighted_sum(&profile) == profile.weight_sum() * (HALF as int))
        by (nonlinear_arith)
        requires
            scores.weighted_sum(&profile) == profile.resolution_weight * (HALF as int)
                + profile.video_codec_weight * (HALF as int) + profile.audio_codec_weight * (
            HALF as int) + profile.source_weight * (HALF as int) + profile.group_trust_weight * (
            HALF as int),
            profile.weight_sum() == profile.resolution_weight + profile.video_codec_weight
                + profile.audio_codec_weight + profile.source_weight + profile.group_trust_weight,
    ;
}

} // verus!
