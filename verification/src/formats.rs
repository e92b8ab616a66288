use vstd::prelude::*;

verus! {

/// Quality preference for a video download, best first.
#[derive(Debug, Clone, Copy, PartialEq, Eq, Structural)]
pub enum VideoQuality {
    Highest,
    FHD,
    HD,
    SD,
    Lowest,
}

/// Codec preference for a video download; `Any` accepts every codec.
#[derive(Debug, Clone, Copy, PartialEq, Eq, Structural)]
pub enum VideoCodec {
    AV1,
    AVC1,
    VP9,
    Any,
}

/// Quality preference for an audio download, best first.
#[derive(Debug, Clone, Copy, PartialEq, Eq, Structural)]
pub enum AudioQuality {
    Best,
    High,
    Medium,
    Low,
    Worst,
}

/// Codec preference for an audio download; `Any` accepts every codec.
#[derive(Debug, Clone, Copy, PartialEq, Eq, Structural)]
pub enum AudioCodec {
    Opus,
    ACC,
    MP3,
    Any,
}

/// Whether a stream representation carries video or audio.
#[derive(Debug, Clone, Copy, PartialEq, Eq, Structural)]
pub enum MediaKind {
    Video,
    Audio,
}

/// Quality tier of one stream representation, shared by both media
/// kinds; ordered from best to worst.
#[derive(Debug, Clone, Copy, PartialEq, Eq, Structural)]
pub enum QualityTier {
    Highest,
    High,
    Medium,
    Low,
    Lowest,
}

/// Codec of one stream representation. `Other` is a codec outside the
/// closed set; `Any` marks a representation that satisfies every codec
/// preference.
#[derive(Debug, Clone, Copy, PartialEq, Eq, Structural)]
pub enum Codec {
    Av1,
    Avc1,
    Vp9,
    Opus,
    Aac,
    Mp3,
    Other,
    Any,
}

/// How a stream representation is delivered: one progressive file, or
/// a segmented manifest that must be reassembled.
#[derive(Debug, Clone, Copy, PartialEq, Eq, Structural)]
pub enum DeliveryKind {
    Progressive,
    Manifest,
}

/// One candidate encoding of a piece of media, as reported by the
/// metadata provider.
#[derive(Debug, PartialEq, Eq)]
pub struct StreamFormat {
    pub kind: MediaKind,
    pub quality: QualityTier,
    pub codec: Codec,
    pub delivery: DeliveryKind,
    pub url: String,
}

impl QualityTier {
    /// Rank of the tier: 0 is best, 4 is worst.
    pub open spec fn rank_spec(self) -> int {
        match self {
            QualityTier::Highest => 0,
            QualityTier::High => 1,
            QualityTier::Medium => 2,
            QualityTier::Low => 3,
            QualityTier::Lowest => 4,
        }
    }

    pub fn rank(self) -> (r: u8)
        ensures
            r as int == self.rank_spec(),
    {
        match self {
            QualityTier::Highest => 0,
            QualityTier::High => 1,
            QualityTier::Medium => 2,
            QualityTier::Low => 3,
            QualityTier::Lowest => 4,
        }
    }
}

impl VideoQuality {
    /// The shared quality tier this video preference stands for.
    pub open spec fn tier_spec(self) -> QualityTier {
        match self {
            VideoQuality::Highest => QualityTier::Highest,
            VideoQuality::FHD => QualityTier::High,
            VideoQuality::HD => QualityTier::Medium,
            VideoQuality::SD => QualityTier::Low,
            VideoQuality::Lowest => QualityTier::Lowest,
        }
    }

    pub fn tier(self) -> (t: QualityTier)
        ensures
            t == self.tier_spec(),
    {
        match self {
            VideoQuality::Highest => QualityTier::Highest,
            VideoQuality::FHD => QualityTier::High,
            VideoQuality::HD => QualityTier::Medium,
            VideoQuality::SD => QualityTier::Low,
            VideoQuality::Lowest => QualityTier::Lowest,
        }
    }

    /// The user-facing label of this preference.
    pub open spec fn label_spec(self) -> Seq<char> {
        match self {
            VideoQuality::Highest => "Highest"@,
            VideoQuality::FHD => "1080p"@,
            VideoQuality::HD => "720p"@,
            VideoQuality::SD => "480p"@,
            VideoQuality::Lowest => "Lowest"@,
        }
    }

    pub fn label(self) -> (r: String)
        ensures
            r@ == self.label_spec(),
    {
        match self {
            VideoQuality::Highest => String::from_str("Highest"),
            VideoQuality::FHD => String::from_str("1080p"),
            VideoQuality::HD => String::from_str("720p"),
            VideoQuality::SD => String::from_str("480p"),
            VideoQuality::Lowest => String::from_str("Lowest"),
        }
    }
}

impl AudioQuality {
    /// The shared quality tier this audio preference stands for.
    pub open spec fn tier_spec(self) -> QualityTier {
        match self {
            AudioQuality::Best => QualityTier::Highest,
            AudioQuality::High => QualityTier::High,
            AudioQuality::Medium => QualityTier::Medium,
            AudioQuality::Low => QualityTier::Low,
            AudioQuality::Worst => QualityTier::Lowest,
        }
    }

    pub fn tier(self) -> (t: QualityTier)
        ensures
            t == self.tier_spec(),
    {
        match self {
            AudioQuality::Best => QualityTier::Highest,
            AudioQuality::High => QualityTier::High,
            AudioQuality::Medium => QualityTier::Medium,
            AudioQuality::Low => QualityTier::Low,
            AudioQuality::Worst => QualityTier::Lowest,
        }
    }

    /// The user-facing label of this preference.
    pub open spec fn label_spec(self) -> Seq<char> {
        match self {
            AudioQuality::Best => "Highest"@,
            AudioQuality::High => "192kbps"@,
            AudioQuality::Medium => "128kbps"@,
            AudioQuality::Low => "96kbps"@,
            AudioQuality::Worst => "Lowest"@,
        }
    }

    pub fn label(self) -> (r: String)
        ensures
            r@ == self.label_spec(),
    {
        match self {
            AudioQuality::Best => String::from_str("Highest"),
            AudioQuality::High => String::from_str("192kbps"),
            AudioQuality::Medium => String::from_str("128kbps"),
            AudioQuality::Low => String::from_str("96kbps"),
            AudioQuality::Worst => String::from_str("Lowest"),
        }
    }
}

impl VideoCodec {
    /// The stream codec this video preference asks for.
    pub open spec fn codec_spec(self) -> Codec {
        match self {
            VideoCodec::AV1 => Codec::Av1,
            VideoCodec::AVC1 => Codec::Avc1,
            VideoCodec::VP9 => Codec::Vp9,
            VideoCodec::Any => Codec::Any,
        }
    }

    pub fn codec(self) -> (c: Codec)
        ensures
            c == self.codec_spec(),
    {
        match self {
            VideoCodec::AV1 => Codec::Av1,
            VideoCodec::AVC1 => Codec::Avc1,
            VideoCodec::VP9 => Codec::Vp9,
            VideoCodec::Any => Codec::Any,
        }
    }

    /// The user-facing label of this preference.
    pub open spec fn label_spec(self) -> Seq<char> {
        match self {
            VideoCodec::AV1 => "AV1"@,
            VideoCodec::AVC1 => "AVC1"@,
            VideoCodec::VP9 => "VP9"@,
            VideoCodec::Any => "Any"@,
        }
    }

    pub fn label(self) -> (r: String)
        ensures
            r@ == self.label_spec(),
    {
        match self {
            VideoCodec::AV1 => String::from_str("AV1"),
            VideoCodec::AVC1 => String::from_str("AVC1"),
            VideoCodec::VP9 => String::from_str("VP9"),
            VideoCodec::Any => String::from_str("Any"),
        }
    }
}

impl AudioCodec {
    /// The stream codec this audio preference asks for. `ACC` is the
    /// AAC family.
    pub open spec fn codec_spec(self) -> Codec {
        match self {
            AudioCodec::Opus => Codec::Opus,
            AudioCodec::ACC => Codec::Aac,
            AudioCodec::MP3 => Codec::Mp3,
            AudioCodec::Any => Codec::Any,
        }
    }

    pub fn codec(self) -> (c: Codec)
        ensures
            c == self.codec_spec(),
    {
        match self {
            AudioCodec::Opus => Codec::Opus,
            AudioCodec::ACC => Codec::Aac,
            AudioCodec::MP3 => Codec::Mp3,
            AudioCodec::Any => Codec::Any,
        }
    }

    /// The user-facing label of this preference.
    pub open spec fn label_spec(self) -> Seq<char> {
        match self {
            AudioCodec::Opus => "Opus"@,
            AudioCodec::ACC => "ACC"@,
            AudioCodec::MP3 => "MP3"@,
            AudioCodec::Any => "Any"@,
        }
    }

    pub fn label(self) -> (r: String)
        ensures
            r@ == self.label_spec(),
    {
        match self {
            AudioCodec::Opus => String::from_str("Opus"),
            AudioCodec::ACC => String::from_str("ACC"),
            AudioCodec::MP3 => String::from_str("MP3"),
            AudioCodec::Any => String::from_str("Any"),
        }
    }
}

impl StreamFormat {
    /// Whether this representation is delivered as a segmented manifest.
    pub open spec fn is_manifest_spec(&self) -> bool {
        self.delivery == DeliveryKind::Manifest
    }

    pub fn is_manifest(&self) -> (r: bool)
        ensures
            r == self.is_manifest_spec(),
    {
        match self.delivery {
            DeliveryKind::Manifest => true,
            DeliveryKind::Progressive => false,
        }
    }
}

impl Clone for StreamFormat {
    fn clone(&self) -> (r: Self)
        ensures
            r == *self,
    {
        StreamFormat {
            kind: self.kind,
            quality: self.quality,
            codec: self.codec,
            delivery: self.delivery,
            url: self.url.clone(),
        }
    }
}

} // verus!
