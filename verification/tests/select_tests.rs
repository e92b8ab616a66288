use media_acquire::formats::{
    AudioCodec, AudioQuality, Codec, DeliveryKind, MediaKind, QualityTier, StreamFormat,
    VideoCodec, VideoQuality,
};
use media_acquire::select::{select, select_audio_format, select_video_format};

fn fmt(kind: MediaKind, quality: QualityTier, codec: Codec, url: &str) -> StreamFormat {
    StreamFormat {
        kind,
        quality,
        codec,
        delivery: DeliveryKind::Progressive,
        url: String::from(url),
    }
}

#[test]
fn select_exact_match() {
    let formats = vec![
        fmt(MediaKind::Video, QualityTier::High, Codec::Vp9, "a"),
        fmt(MediaKind::Video, QualityTier::Medium, Codec::Avc1, "b"),
    ];
    let r = select(&formats, MediaKind::Video, QualityTier::Medium, Codec::Avc1).unwrap();
    assert_eq!(r.url, "b");
}

#[test]
fn select_is_deterministic() {
    let formats = vec![
        fmt(MediaKind::Video, QualityTier::Highest, Codec::Av1, "a"),
        fmt(MediaKind::Video, QualityTier::High, Codec::Avc1, "b"),
        fmt(MediaKind::Audio, QualityTier::High, Codec::Opus, "c"),
    ];
    let r1 = select(&formats, MediaKind::Video, QualityTier::Low, Codec::Any);
    let r2 = select(&formats, MediaKind::Video, QualityTier::Low, Codec::Any);
    assert_eq!(r1, r2);
    let r3 = select(&formats, MediaKind::Audio, QualityTier::Highest, Codec::Mp3);
    let r4 = select(&formats, MediaKind::Audio, QualityTier::Highest, Codec::Mp3);
    assert_eq!(r3, r4);
}

#[test]
fn select_degrades_to_next_lower_tier() {
    // Requesting 720p (HD) with only 1080p and 480p present returns
    // 480p: one tier lower is preferred over one tier higher.
    let formats = vec![
        fmt(MediaKind::Video, QualityTier::High, Codec::Any, "fhd"),
        fmt(MediaKind::Video, QualityTier::Low, Codec::Any, "sd"),
    ];
    let r = select_video_format(&formats, VideoQuality::HD, VideoCodec::Any).unwrap();
    assert_eq!(r.url, "sd");
}

#[test]
fn select_degrades_upward_when_nothing_lower() {
    let formats = vec![fmt(MediaKind::Video, QualityTier::Highest, Codec::Any, "top")];
    let r = select_video_format(&formats, VideoQuality::Lowest, VideoCodec::Any).unwrap();
    assert_eq!(r.url, "top");
}

#[test]
fn select_codec_falls_back_to_any_at_same_tier() {
    // No AVC1 at the requested tier, but an Any-tagged candidate
    // there: it wins over an AVC1 candidate at another tier.
    let formats = vec![
        fmt(MediaKind::Video, QualityTier::Low, Codec::Avc1, "other-tier"),
        fmt(MediaKind::Video, QualityTier::Medium, Codec::Any, "same-tier"),
    ];
    let r = select_video_format(&formats, VideoQuality::HD, VideoCodec::AVC1).unwrap();
    assert_eq!(r.url, "same-tier");
}

#[test]
fn select_prefers_exact_codec_over_any_tag() {
    let formats = vec![
        fmt(MediaKind::Video, QualityTier::Medium, Codec::Any, "any"),
        fmt(MediaKind::Video, QualityTier::Medium, Codec::Avc1, "exact"),
    ];
    let r = select_video_format(&formats, VideoQuality::HD, VideoCodec::AVC1).unwrap();
    assert_eq!(r.url, "exact");
}

#[test]
fn select_empty_list_yields_none() {
    let formats: Vec<StreamFormat> = vec![];
    assert!(select(&formats, MediaKind::Video, QualityTier::Highest, Codec::Any).is_none());
}

#[test]
fn select_wrong_kind_only_yields_none() {
    let formats = vec![
        fmt(MediaKind::Audio, QualityTier::Highest, Codec::Opus, "a"),
        fmt(MediaKind::Audio, QualityTier::Low, Codec::Mp3, "b"),
    ];
    assert!(select(&formats, MediaKind::Video, QualityTier::Highest, Codec::Any).is_none());
}

#[test]
fn select_ignores_codec_when_nothing_compatible() {
    // Only VP9 candidates while AVC1 is asked for: the codec filter is
    // dropped rather than returning nothing.
    let formats = vec![fmt(MediaKind::Video, QualityTier::Medium, Codec::Vp9, "vp9")];
    let r = select_video_format(&formats, VideoQuality::HD, VideoCodec::AVC1).unwrap();
    assert_eq!(r.url, "vp9");
}

#[test]
fn select_takes_first_of_equal_candidates() {
    let formats = vec![
        fmt(MediaKind::Audio, QualityTier::High, Codec::Opus, "first"),
        fmt(MediaKind::Audio, QualityTier::High, Codec::Opus, "second"),
    ];
    let r = select_audio_format(&formats, AudioQuality::High, AudioCodec::Opus).unwrap();
    assert_eq!(r.url, "first");
}

#[test]
fn quality_tier_mapping() {
    assert_eq!(VideoQuality::Highest.tier(), QualityTier::Highest);
    assert_eq!(VideoQuality::FHD.tier(), QualityTier::High);
    assert_eq!(VideoQuality::HD.tier(), QualityTier::Medium);
    assert_eq!(VideoQuality::SD.tier(), QualityTier::Low);
    assert_eq!(VideoQuality::Lowest.tier(), QualityTier::Lowest);
    assert_eq!(AudioQuality::Best.tier(), QualityTier::Highest);
    assert_eq!(AudioQuality::Worst.tier(), QualityTier::Lowest);
}

#[test]
fn codec_mapping() {
    assert_eq!(VideoCodec::AV1.codec(), Codec::Av1);
    assert_eq!(VideoCodec::AVC1.codec(), Codec::Avc1);
    assert_eq!(VideoCodec::VP9.codec(), Codec::Vp9);
    assert_eq!(VideoCodec::Any.codec(), Codec::Any);
    assert_eq!(AudioCodec::Opus.codec(), Codec::Opus);
    assert_eq!(AudioCodec::ACC.codec(), Codec::Aac);
    assert_eq!(AudioCodec::MP3.codec(), Codec::Mp3);
    assert_eq!(AudioCodec::Any.codec(), Codec::Any);
}

#[test]
fn preference_labels() {
    assert_eq!(VideoQuality::FHD.label(), "1080p");
    assert_eq!(VideoQuality::HD.label(), "720p");
    assert_eq!(VideoQuality::SD.label(), "480p");
    assert_eq!(VideoQuality::Highest.label(), "Highest");
    assert_eq!(AudioQuality::High.label(), "192kbps");
    assert_eq!(AudioQuality::Medium.label(), "128kbps");
    assert_eq!(AudioQuality::Low.label(), "96kbps");
    assert_eq!(VideoCodec::AVC1.label(), "AVC1");
    assert_eq!(AudioCodec::ACC.label(), "ACC");
}
