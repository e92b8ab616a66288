//! Failure taxonomy of the acquisition engine.

use vstd::prelude::*;

verus! {

/// Failure of one asset fetch: the network retrieval itself, or the
/// local write of the retrieved bytes.
#[derive(Debug, Clone, Copy, PartialEq, Eq, Structural)]
pub enum FetchError {
    Network,
    Write,
}

/// Failure of one manifest reassembly operation, by the stage that
/// broke.
#[derive(Debug, Clone, Copy, PartialEq, Eq, Structural)]
pub enum ReassemblyError {
    ManifestUnavailable,
    ManifestInvalid,
    SegmentFailed,
    MergeFailed,
}

/// Outward-facing failure taxonomy of one acquisition request.
#[derive(Debug, Clone, Copy, PartialEq, Eq, Structural)]
pub enum AcquisitionError {
    MetadataUnavailable,
    NoMatchingFormat,
    ManifestUnavailable,
    ManifestInvalid,
    SegmentFailed,
    MergeFailed,
    DirectFetchFailed,
}

} // verus!
