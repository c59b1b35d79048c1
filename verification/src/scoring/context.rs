//! Adjustment of quality scores to the client that will play the file.

use vstd::prelude::*;
use crate::fixed::{ONE, scale, spec_scale};
use crate::scoring::profile::QualityScores;
use crate::types::VideoCodec;

verus! {

/// The kind of device that plays the file.
#[derive(Debug, Clone, Copy, PartialEq, Eq, Hash, Structural)]
pub enum DeviceType {
    /// Desktop computer: no penalty.
    Desktop,
    /// Laptop: the very highest resolutions are discounted.
    Laptop,
    /// Mobile device: everything above 720p is discounted.
    Mobile,
    /// Television: no penalty.
    TV,
    /// Embedded device: everything above 720p is halved.
    Embedded,
}

/// The network between the client and the file.
#[derive(Debug, Clone, Copy, PartialEq, Eq, Hash, Structural)]
pub enum NetworkQuality {
    /// No bandwidth constraints.
    Unlimited,
    /// Broadband: a slight penalty.
    Broadband,
    /// A limited connection: a strong penalty.
    Limited,
    /// Offline: the file is already local, so bandwidth does not matter.
    Offline,
}

/// The factor applied to a video-codec score when the client cannot decode
/// the codec in hardware: 0.1.
pub const SOFTWARE_DECODE_FACTOR: u32 = 100_000;

/// What is known about the client.
#[derive(Debug, Clone)]
pub struct ClientContext {
    /// The kind of device.
    pub device_type: DeviceType,
    /// The network condition.
    pub network: NetworkQuality,
    /// The video codecs that the client decodes in hardware.
    pub hw_decode_codecs: Vec<VideoCodec>,
}

impl Default for ClientContext {
    fn default() -> (ctx: Self)
        ensures
            ctx.device_type == DeviceType::Desktop,
            ctx.network == NetworkQuality::Unlimited,
            ctx.hw_decode_codecs@ == seq![VideoCodec::H264, VideoCodec::HEVC],
    {
        let mut codecs: Vec<VideoCodec> = Vec::new();
        codecs.push(VideoCodec::H264);
        codecs.push(VideoCodec::HEVC);
        assert(codecs@ =~= seq![VideoCodec::H264, VideoCodec::HEVC]);
        Self {
            device_type: DeviceType::Desktop,
            network: NetworkQuality::Unlimited,
            hw_decode_codecs: codecs,
        }
    }
}

/// The factor that a device applies to a resolution score: resolutions that
/// score above the device's threshold are discounted.
pub open spec fn resolution_factor(device: DeviceType, res_score: u32) -> u32 {
    match device {
        DeviceType::Desktop | DeviceType::TV => ONE,
        DeviceType::Laptop => if res_score > 900_000 {
            850_000
        } else {
            ONE
        },
        DeviceType::Mobile => if res_score > 600_000 {
            600_000
        } else {
            ONE
        },
        DeviceType::Embedded => if res_score > 500_000 {
            500_000
        } else {
            ONE
        },
    }
}

/// The factor that a network applies to resolution and video-codec scores.
pub open spec fn network_factor(network: NetworkQuality) -> u32 {
    match network {
        NetworkQuality::Unlimited => ONE,
        NetworkQuality::Broadband => 900_000,
        NetworkQuality::Limited => 300_000,
        NetworkQuality::Offline => ONE,
    }
}

impl ClientContext {
    /// The resolution score after the device and then the network factor.
    pub open spec fn adjusted_resolution(&self, score: u32) -> int {
        spec_scale(
            spec_scale(score as int, resolution_factor(self.device_type, score) as int),
            network_factor(self.network) as int,
        )
    }

    /// Whether a file with the given codec needs software decoding here.
    pub open spec fn needs_software_decode(&self, file_video_codec: Option<VideoCodec>) -> bool {
        file_video_codec matches Some(codec) && !self.hw_decode_codecs@.contains(codec)
    }

    /// The video-codec score after the network factor and then, where the
    /// client cannot decode the file's codec in hardware, the penalty for
    /// that.
    pub open spec fn adjusted_video_codec(
        &self,
        score: u32,
        file_video_codec: Option<VideoCodec>,
    ) -> int {
        let networked = spec_scale(score as int, network_factor(self.network) as int);
        if self.needs_software_decode(file_video_codec) {
            spec_scale(networked, SOFTWARE_DECODE_FACTOR as int)
        } else {
            networked
        }
    }

    /// The factor that this device applies to a resolution score.
    fn resolution_multiplier(&self, res_score: u32) -> (factor: u32)
        ensures
            factor == resolution_factor(self.device_type, res_score),
            factor <= ONE,
    {
        match self.device_type {
            DeviceType::Desktop | DeviceType::TV => ONE,
            DeviceType::Laptop => {
                if res_score > 900_000 {
                    850_000
                } else {
                    ONE
                }
            },
            DeviceType::Mobile => {
                if res_score > 600_000 {
                    600_000
                } else {
                    ONE
                }
            },
            DeviceType::Embedded => {
                if res_score > 500_000 {
                    500_000
                } else {
                    ONE
                }
            },
        }
    }

    /// The factor that this network applies.
    fn network_multiplier(&self) -> (factor: u32)
        ensures
            factor == network_factor(self.network),
            factor <= ONE,
    {
        match self.network {
            NetworkQuality::Unlimited => ONE,
            NetworkQuality::Broadband => 900_000,
            NetworkQuality::Limited => 300_000,
            NetworkQuality::Offline => ONE,
        }
    }

    /// Whether the client decodes the codec in hardware.
    pub fn decodes_in_hardware(&self, codec: VideoCodec) -> (found: bool)
        ensures
            found == self.hw_decode_codecs@.contains(codec),
    {
        let mut i: usize = 0;
        while i < self.hw_decode_codecs.len()
            invariant
                i <= self.hw_decode_codecs.len(),
                forall|k: int| 0 <= k < i ==> self.hw_decode_codecs@[k] != codec,
            decreases self.hw_decode_codecs.len() - i,
        {
            if self.hw_decode_codecs[i] == codec {
                return true;
            }
            i += 1;
        }
        false
    }

    /// The scores as they count for this client.
    ///
    /// The resolution score is multiplied by the device factor and then by
    /// the network factor. The video-codec score is multiplied by the network
    /// factor and then, if the file's codec is not among those the client
    /// decodes in hardware, by 0.1. The other scores stay as they are.
    #[must_use]
    pub fn adjust_score(&self, scores: QualityScores, file_video_codec: Option<VideoCodec>) -> (adjusted:
        QualityScores)
        ensures
            adjusted.resolution == match scores.resolution {
                Some(r) => Some(self.adjusted_resolution(r) as u32),
                None => None,
            },
            adjusted.video_codec == match scores.video_codec {
                Some(v) => Some(self.adjusted_video_codec(v, file_video_codec) as u32),
                None => None,
            },
            adjusted.audio_codec == scores.audio_codec,
            adjusted.source == scores.source,
            adjusted.group_trust == scores.group_trust,
            scores.resolution matches Some(r) ==> 0 <= self.adjusted_resolution(r) <= r,
            scores.video_codec matches Some(v) ==> 0 <= self.adjusted_video_codec(
                v,
                file_video_codec,
            ) <= v,
    {
        let network_mult = self.network_multiplier();
        let resolution = match scores.resolution {
            Some(r) => {
                let by_device = scale(r, self.resolution_multiplier(r));
                Some(scale(by_device, network_mult))
            },
            None => None,
        };
        let software = match file_video_codec {
            Some(codec) => !self.decodes_in_hardware(codec),
            None => false,
        };
        let video_codec = match scores.video_codec {
            Some(v) => {
                let networked = scale(v, network_mult);
                if software {
                    Some(scale(networked, SOFTWARE_DECODE_FACTOR))
                } else {
                    Some(networked)
                }
            },
            None => None,
        };
        QualityScores {
            resolution,
            video_codec,
            audio_codec: scores.audio_codec,
            source: scores.source,
            group_trust: scores.group_trust,
        }
    }
}

} // verus!
