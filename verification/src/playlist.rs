//! Parsed representation of a segmented manifest: an ordered sequence
//! of segment URIs. The order is the required playback and
//! concatenation order and is never rearranged.

use vstd::prelude::*;

use crate::paths::strings_view;

verus! {

/// One media segment of a manifest, holding its (relative or
/// absolute) URI.
#[derive(Debug, PartialEq, Eq)]
pub struct Segment {
    pub uri: String,
}

/// A parsed segmented manifest: its segments in playlist order.
#[derive(Debug, PartialEq, Eq)]
pub struct MediaPlaylist {
    pub segments: Vec<Segment>,
}

/// The URIs of a sequence of segments, in the same order.
pub open spec fn seg_uris(s: Seq<Segment>) -> Seq<Seq<char>> {
    s.map_values(|g: Segment| g.uri@)
}

impl MediaPlaylist {
    /// The segment URIs in playlist order.
    pub open spec fn uris(&self) -> Seq<Seq<char>> {
        seg_uris(self.segments@)
    }
}

/// The segment URIs that the media-playlist grammar yields for a
/// manifest document, in document order; `None` when the document is
/// not a well-formed media playlist.
pub uninterp spec fn parsed_segment_uris(bytes: Seq<u8>) -> Option<Seq<Seq<char>>>;

/// Relies on m3u8_rs::parse_media_playlist_res: parses a media
/// playlist document and yields its segments in document order. The
/// result is a function of the document bytes alone.
#[verifier::external_body]
fn parse_uris(bytes: &Vec<u8>) -> (r: Option<Vec<String>>)
    ensures
        match r {
            Some(v) => parsed_segment_uris(bytes@) == Some(strings_view(v@)),
            None => parsed_segment_uris(bytes@) is None,
        },
{
    match m3u8_rs::parse_media_playlist_res(bytes) {
        Ok(pl) => Some(pl.segments.into_iter().map(|seg| seg.uri).collect()),
        Err(_) => None,
    }
}

/// Parse a manifest document into the playlist it holds; `None` when
/// the document is not a well-formed media playlist.
pub fn parse_playlist(bytes: &Vec<u8>) -> (r: Option<MediaPlaylist>)
    ensures
        match r {
            Some(pl) => parsed_segment_uris(bytes@) == Some(pl.uris()),
            None => parsed_segment_uris(bytes@) is None,
        },
{
    match parse_uris(bytes) {
        Some(uris) => {
            let mut segments: Vec<Segment> = Vec::new();
            let mut i: usize = 0;
            while i < uris.len()
                invariant
                    0 <= i <= uris@.len(),
                    seg_uris(segments@) =~= strings_view(uris@).take(i as int),
                decreases uris@.len() - i,
            {
                let ghost segs0 = segments@;
                segments.push(Segment { uri: uris[i].clone() });
                proof {
                    let segs1 = segments@;
                    assert(seg_uris(segs0).len() == segs0.len());
                    assert(segs0.len() == i as int);
                    assert(segs1.len() == i + 1);
                    assert(seg_uris(segs1).len() == i + 1);
                    assert(strings_view(uris@).len() == uris@.len());
                    assert forall|k: int| 0 <= k < i + 1 implies seg_uris(segs1)[k]
                        == strings_view(uris@).take(i as int + 1)[k] by {
                        assert(seg_uris(segs1)[k] == segs1[k].uri@);
                        assert(strings_view(uris@).take(i as int + 1)[k] == uris@[k]@);
                        if k < i {
                            assert(seg_uris(segs0)[k] == strings_view(uris@).take(i as int)[k]);
                            assert(seg_uris(segs0)[k] == segs0[k].uri@);
                            assert(segs1[k] == segs0[k]);
                        }
                    }
                    assert(seg_uris(segments@) =~= strings_view(uris@).take(i as int + 1));
                }
                i = i + 1;
            }
            let pl = MediaPlaylist { segments };
            proof {
                assert(pl.uris() =~= strings_view(uris@));
            }
            Some(pl)
        },
        None => None,
    }
}

} // verus!
