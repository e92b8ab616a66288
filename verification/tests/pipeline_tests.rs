use media_acquire::errors::ReassemblyError;
use media_acquire::pipeline::{Reassembly, Stage};
use media_acquire::playlist::parse_playlist;

const MANIFEST_3: &str = "#EXTM3U\n#EXT-X-TARGETDURATION:10\n#EXTINF:9.0,\nseg_a.ts\n#EXTINF:9.0,\nseg_b.ts\n#EXTINF:9.0,\nseg_c.ts\n#EXT-X-ENDLIST\n";

fn start(keep_video: bool) -> Reassembly {
    Reassembly::new(
        String::from("http://host/v/playlist.m3u8"),
        String::from("/out/.work"),
        String::from("/out"),
        String::from("clip"),
        String::from("/opt/ffmpeg"),
        keep_video,
    )
}

#[test]
fn parse_playlist_extracts_uris_in_order() {
    let bytes = MANIFEST_3.as_bytes().to_vec();
    let pl = parse_playlist(&bytes).unwrap();
    assert_eq!(pl.segments.len(), 3);
    assert_eq!(pl.segments[0].uri, "seg_a.ts");
    assert_eq!(pl.segments[1].uri, "seg_b.ts");
    assert_eq!(pl.segments[2].uri, "seg_c.ts");
}

#[test]
fn parse_playlist_rejects_garbage() {
    let bytes = b"this is no playlist".to_vec();
    assert!(parse_playlist(&bytes).is_none());
}

#[test]
fn manifest_destination_inside_workspace() {
    let op = start(true);
    assert_eq!(op.manifest_destination(), "/out/.work/manifest.m3u8");
}

#[test]
fn happy_path_video() {
    let mut op = start(true);
    assert_eq!(op.stage(), Stage::ManifestFetch);
    assert_eq!(op.cleanups, 0);

    let bytes = MANIFEST_3.as_bytes().to_vec();
    op.on_manifest(Some(&bytes));
    assert_eq!(op.stage(), Stage::SegmentFetch);
    assert_eq!(op.segment_count(), 3);
    assert_eq!(op.segment_url(0), "http://host/v/seg_a.ts");
    assert_eq!(op.segment_url(1), "http://host/v/seg_b.ts");
    assert_eq!(op.segment_url(2), "http://host/v/seg_c.ts");
    assert_eq!(op.segment_path(0), "/out/.work/seg0.ts");
    assert_eq!(op.segment_path(1), "/out/.work/seg1.ts");
    assert_eq!(op.segment_path(2), "/out/.work/seg2.ts");

    op.on_segments(&vec![true, true, true]);
    assert_eq!(op.stage(), Stage::Merge);

    let cmd = op.merge_command();
    let expected = vec![
        "-i",
        "concat:/out/.work/seg0.ts|/out/.work/seg1.ts|/out/.work/seg2.ts",
        "-hwaccel",
        "auto",
        "-c:a",
        "copy",
        "-acodec",
        "copy",
        "-c:v",
        "copy",
        "-vcodec",
        "copy",
        "/out/clip.mp4",
    ];
    assert_eq!(cmd, expected);

    op.on_merge(true);
    assert_eq!(op.stage(), Stage::Done);
    assert_eq!(op.cleanups, 1);
}

#[test]
fn audio_only_merge_copies_no_video_track() {
    let mut op = start(false);
    let bytes = MANIFEST_3.as_bytes().to_vec();
    op.on_manifest(Some(&bytes));
    op.on_segments(&vec![true, true, true]);
    let cmd = op.merge_command();
    let expected = vec![
        "-i",
        "concat:/out/.work/seg0.ts|/out/.work/seg1.ts|/out/.work/seg2.ts",
        "-hwaccel",
        "auto",
        "-c:a",
        "copy",
        "-acodec",
        "copy",
        "/out/clip.m4a",
    ];
    assert_eq!(cmd, expected);
}

#[test]
fn manifest_unavailable_fails_and_cleans_up_once() {
    let mut op = start(true);
    op.on_manifest(None);
    assert_eq!(op.stage(), Stage::Failed(ReassemblyError::ManifestUnavailable));
    assert_eq!(op.cleanups, 1);
}

#[test]
fn invalid_manifest_fails_and_cleans_up_once() {
    let mut op = start(true);
    let bytes = b"this is no playlist".to_vec();
    op.on_manifest(Some(&bytes));
    assert_eq!(op.stage(), Stage::Failed(ReassemblyError::ManifestInvalid));
    assert_eq!(op.cleanups, 1);
}

#[test]
fn one_failed_segment_fails_whole_operation() {
    let mut op = start(true);
    let bytes = MANIFEST_3.as_bytes().to_vec();
    op.on_manifest(Some(&bytes));
    op.on_segments(&vec![true, false, true]);
    assert_eq!(op.stage(), Stage::Failed(ReassemblyError::SegmentFailed));
    assert_ne!(op.stage(), Stage::Merge);
    assert_eq!(op.cleanups, 1);
}

#[test]
fn merge_failure_fails_and_cleans_up_once() {
    let mut op = start(false);
    let bytes = MANIFEST_3.as_bytes().to_vec();
    op.on_manifest(Some(&bytes));
    op.on_segments(&vec![true, true, true]);
    op.on_merge(false);
    assert_eq!(op.stage(), Stage::Failed(ReassemblyError::MergeFailed));
    assert_eq!(op.cleanups, 1);
}

#[test]
fn success_cleans_up_exactly_once_too() {
    let mut op = start(false);
    let bytes = MANIFEST_3.as_bytes().to_vec();
    op.on_manifest(Some(&bytes));
    op.on_segments(&vec![true, true, true]);
    op.on_merge(true);
    assert_eq!(op.stage(), Stage::Done);
    assert_eq!(op.cleanups, 1);
}

#[test]
fn segment_destinations_are_distinct_and_ordered() {
    let mut op = start(true);
    let bytes = MANIFEST_3.as_bytes().to_vec();
    op.on_manifest(Some(&bytes));
    let n = op.segment_count();
    for i in 0..n {
        for j in 0..n {
            if i != j {
                assert_ne!(op.segment_path(i), op.segment_path(j));
            }
        }
        assert_eq!(op.segment_path(i), &format!("/out/.work/seg{i}.ts"));
    }
}

#[test]
fn empty_playlist_reaches_merge_with_no_inputs() {
    let manifest = "#EXTM3U\n#EXT-X-TARGETDURATION:10\n#EXT-X-ENDLIST\n";
    let mut op = start(false);
    op.on_manifest(Some(&manifest.as_bytes().to_vec()));
    assert_eq!(op.stage(), Stage::SegmentFetch);
    assert_eq!(op.segment_count(), 0);
    op.on_segments(&vec![]);
    assert_eq!(op.stage(), Stage::Merge);
    let cmd = op.merge_command();
    assert_eq!(cmd[1], "concat:");
}

#[test]
fn single_segment_playlist() {
    let manifest = "#EXTM3U\n#EXT-X-TARGETDURATION:10\n#EXTINF:9.0,\nonly.ts\n#EXT-X-ENDLIST\n";
    let mut op = start(false);
    op.on_manifest(Some(&manifest.as_bytes().to_vec()));
    assert_eq!(op.segment_count(), 1);
    assert_eq!(op.segment_url(0), "http://host/v/only.ts");
    op.on_segments(&vec![true]);
    let cmd = op.merge_command();
    assert_eq!(cmd[1], "concat:/out/.work/seg0.ts");
}

#[test]
fn absolute_segment_uris_are_kept() {
    let manifest = "#EXTM3U\n#EXT-X-TARGETDURATION:10\n#EXTINF:5.0,\n/elsewhere/a.ts\n#EXTINF:5.0,\nrel/b.ts\n#EXT-X-ENDLIST\n";
    let mut op = start(true);
    let bytes = manifest.as_bytes().to_vec();
    op.on_manifest(Some(&bytes));
    assert_eq!(op.segment_url(0), "/elsewhere/a.ts");
    assert_eq!(op.segment_url(1), "http://host/v/rel/b.ts");
}
