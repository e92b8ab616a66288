//! The acquisition facade: one request turned into the download plan
//! its driver is to execute — a single direct fetch for a progressive
//! format, a manifest reassembly for a segmented one — and the mapping
//! of every lower-level failure into the outward taxonomy.

use vstd::prelude::*;

use crate::errors::{AcquisitionError, FetchError, ReassemblyError};
use crate::formats::{Codec, DeliveryKind, MediaKind, QualityTier, StreamFormat};
use crate::select::{select, select_spec};

verus! {

/// One user download action: where the media comes from, where the
/// result goes, and under what name.
pub struct AcquisitionRequest {
    /// The source page URL the metadata was taken from.
    pub url: String,
    /// The directory the final file goes to.
    pub output_dir: String,
    /// The selected stream representation.
    pub format: StreamFormat,
    /// The final filename stem.
    pub title: String,
}

/// The path a driver is to take for one request.
pub enum AcquisitionPlan {
    /// One fetch of the format's URL straight to the destination file.
    Direct { url: String, destination: String },
    /// A manifest reassembly of the format's URL.
    Reassemble { manifest_url: String, output_dir: String, title: String, keep_video: bool },
}

/// The final file of a request: the title stem inside the output
/// directory, with the extension chosen by the media kind.
pub open spec fn destination_spec(req: AcquisitionRequest) -> Seq<char> {
    req.output_dir@ + "/"@ + req.title@ + "."@ + (if req.format.kind == MediaKind::Video {
        "mp4"@
    } else {
        "m4a"@
    })
}

/// Decide the download path for a request: a segmented format goes to
/// the reassembly pipeline, a progressive one to a single direct
/// fetch.
pub fn plan_acquisition(req: AcquisitionRequest) -> (r: AcquisitionPlan)
    ensures
        match r {
            AcquisitionPlan::Direct { url, destination } => {
                &&& req.format.delivery == DeliveryKind::Progressive
                &&& url@ == req.format.url@
                &&& destination@ == destination_spec(req)
            },
            AcquisitionPlan::Reassemble { manifest_url, output_dir, title, keep_video } => {
                &&& req.format.delivery == DeliveryKind::Manifest
                &&& manifest_url@ == req.format.url@
                &&& output_dir@ == req.output_dir@
                &&& title@ == req.title@
                &&& keep_video == (req.format.kind == MediaKind::Video)
            },
        },
{
    let keep_video = match req.format.kind {
        MediaKind::Video => true,
        MediaKind::Audio => false,
    };
    match req.format.delivery {
        DeliveryKind::Progressive => {
            let ext = if keep_video {
                "mp4"
            } else {
                "m4a"
            };
            let destination = String::from_str(req.output_dir.as_str()).concat("/").concat(
                req.title.as_str(),
            ).concat(".").concat(ext);
            AcquisitionPlan::Direct { url: req.format.url, destination }
        },
        DeliveryKind::Manifest => AcquisitionPlan::Reassemble {
            manifest_url: req.format.url,
            output_dir: req.output_dir,
            title: req.title,
            keep_video,
        },
    }
}

/// The outward error for a failed reassembly, stage for stage.
pub open spec fn reassembly_failure_spec(e: ReassemblyError) -> AcquisitionError {
    match e {
        ReassemblyError::ManifestUnavailable => AcquisitionError::ManifestUnavailable,
        ReassemblyError::ManifestInvalid => AcquisitionError::ManifestInvalid,
        ReassemblyError::SegmentFailed => AcquisitionError::SegmentFailed,
        ReassemblyError::MergeFailed => AcquisitionError::MergeFailed,
    }
}

/// Map a failed reassembly into the outward taxonomy.
pub fn reassembly_failure(e: ReassemblyError) -> (r: AcquisitionError)
    ensures
        r == reassembly_failure_spec(e),
{
    match e {
        ReassemblyError::ManifestUnavailable => AcquisitionError::ManifestUnavailable,
        ReassemblyError::ManifestInvalid => AcquisitionError::ManifestInvalid,
        ReassemblyError::SegmentFailed => AcquisitionError::SegmentFailed,
        ReassemblyError::MergeFailed => AcquisitionError::MergeFailed,
    }
}

/// Map a failed direct fetch into the outward taxonomy.
pub fn direct_failure(e: FetchError) -> (r: AcquisitionError)
    ensures
        r == AcquisitionError::DirectFetchFailed,
{
    match e {
        FetchError::Network => AcquisitionError::DirectFetchFailed,
        FetchError::Write => AcquisitionError::DirectFetchFailed,
    }
}

/// Choose the representation for a request, or report that nothing
/// matches: the selection result itself, with `NoMatchingFormat`
/// exactly when the candidate list holds no format of the kind.
pub fn choose_format(
    formats: &Vec<StreamFormat>,
    kind: MediaKind,
    quality: QualityTier,
    codec: Codec,
) -> (r: Result<StreamFormat, AcquisitionError>)
    ensures
        match r {
            Ok(f) => select_spec(formats@, kind, quality, codec) == Some(f),
            Err(e) => e == AcquisitionError::NoMatchingFormat && select_spec(
                formats@,
                kind,
                quality,
                codec,
            ) is None,
        },
{
    match select(formats, kind, quality, codec) {
        Some(f) => Ok(f),
        None => Err(AcquisitionError::NoMatchingFormat),
    }
}

/// The number of acquisitions in flight, as shown to the presentation
/// layer: one increment when a request starts, one decrement when it
/// completes or fails.
pub struct DownloadCounter {
    pub count: u32,
}

impl DownloadCounter {
    /// No download is in flight at the start.
    pub fn new() -> (r: DownloadCounter)
        ensures
            r.count == 0,
    {
        DownloadCounter { count: 0 }
    }

    /// A request starts.
    pub fn begin(&mut self)
        requires
            old(self).count < u32::MAX,
        ensures
            final(self).count == old(self).count + 1,
    {
        self.count = self.count + 1;
    }

    /// A request completes or fails.
    pub fn finish(&mut self)
        requires
            old(self).count > 0,
        ensures
            final(self).count == old(self).count - 1,
    {
        self.count = self.count - 1;
    }

    /// The consistent snapshot the presentation layer reads.
    pub fn current(&self) -> (r: u32)
        ensures
            r == self.count,
    {
        self.count
    }
}

} // verus!
