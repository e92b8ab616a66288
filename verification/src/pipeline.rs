//! The manifest reassembly pipeline: one segmented-manifest stream
//! turned into one playable file.
//!
//! The pipeline is a one-shot state machine owned by a driver that
//! performs the actual I/O. The driver creates a temporary workspace,
//! fetches the manifest and reports it, fetches all segments
//! concurrently and reports the outcomes indexed in playlist order,
//! runs the transcoder over [`Reassembly::merge_command`] and reports
//! the exit. Each transition says exactly which stage follows and when
//! the workspace must be removed; removal is owed exactly once per
//! operation, on reaching a terminal stage.

use vstd::prelude::*;

use crate::errors::ReassemblyError;
use crate::paths::{
    dec_spec, decimal_string, has_slash, joined, join_with, lemma_dec_spec_injective, parent_dir,
    parent_spec, resolve_spec, resolve_uri, strings_view,
};
use crate::playlist::{parse_playlist, parsed_segment_uris};

verus! {

/// Stage of one reassembly operation. Parsing happens inside the
/// transition that consumes the manifest document, so it never rests
/// in a stage of its own.
#[derive(Debug, Clone, Copy, PartialEq, Eq, Structural)]
pub enum Stage {
    ManifestFetch,
    SegmentFetch,
    Merge,
    Done,
    Failed(ReassemblyError),
}

/// Whether a stage ends the operation.
pub open spec fn is_terminal(st: Stage) -> bool {
    st == Stage::Done || st is Failed
}

/// Whether every segment fetch succeeded.
pub open spec fn all_ok(rs: Seq<bool>) -> bool {
    forall|i: int| 0 <= i < rs.len() ==> rs[i]
}

/// One event a driver reports to the pipeline: the manifest document
/// (or its absence), the per-segment fetch outcomes in playlist order,
/// or the transcoder exit.
pub enum Event {
    Manifest(Option<Seq<u8>>),
    Segments(Seq<bool>),
    Merge(bool),
}

/// The stage-and-cleanup view of one reassembly operation.
pub struct Lifecycle {
    pub stage: Stage,
    pub cleanups: nat,
}

/// A transition into a failed stage; it owes one workspace removal.
pub open spec fn fail(lc: Lifecycle, e: ReassemblyError) -> Lifecycle {
    Lifecycle { stage: Stage::Failed(e), cleanups: lc.cleanups + 1 }
}

/// The stage-and-cleanup transition for one reported event. Terminal
/// stages absorb every event; an event for another stage changes
/// nothing.
pub open spec fn step(lc: Lifecycle, ev: Event) -> Lifecycle {
    if is_terminal(lc.stage) {
        lc
    } else {
        match ev {
            Event::Manifest(doc) => if lc.stage == Stage::ManifestFetch {
                match doc {
                    None => fail(lc, ReassemblyError::ManifestUnavailable),
                    Some(bytes) => match parsed_segment_uris(bytes) {
                        Some(_) => Lifecycle { stage: Stage::SegmentFetch, ..lc },
                        None => fail(lc, ReassemblyError::ManifestInvalid),
                    },
                }
            } else {
                lc
            },
            Event::Segments(rs) => if lc.stage == Stage::SegmentFetch {
                if all_ok(rs) {
                    Lifecycle { stage: Stage::Merge, ..lc }
                } else {
                    fail(lc, ReassemblyError::SegmentFailed)
                }
            } else {
                lc
            },
            Event::Merge(ok) => if lc.stage == Stage::Merge {
                if ok {
                    Lifecycle { stage: Stage::Done, cleanups: lc.cleanups + 1 }
                } else {
                    fail(lc, ReassemblyError::MergeFailed)
                }
            } else {
                lc
            },
        }
    }
}

/// The state after a whole sequence of reported events.
pub open spec fn run(lc: Lifecycle, evs: Seq<Event>) -> Lifecycle
    decreases evs.len(),
{
    if evs.len() == 0 {
        lc
    } else {
        run(step(lc, evs[0]), evs.drop_first())
    }
}

/// Once terminal, an operation absorbs every further event: no stage
/// is re-entrant.
pub proof fn lemma_terminal_absorbs(lc: Lifecycle, evs: Seq<Event>)
    requires
        is_terminal(lc.stage),
    ensures
        run(lc, evs) == lc,
    decreases evs.len(),
{
    if evs.len() > 0 {
        lemma_terminal_absorbs(lc, evs.drop_first());
    }
}

/// Workspace removal is owed exactly once per operation: whatever
/// events a driver reports, the cleanup count is one in a terminal
/// stage and zero before.
pub proof fn lemma_cleanup_exactly_once(lc: Lifecycle, evs: Seq<Event>)
    requires
        is_terminal(lc.stage) ==> lc.cleanups == 1,
        !is_terminal(lc.stage) ==> lc.cleanups == 0,
    ensures
        is_terminal(run(lc, evs).stage) ==> run(lc, evs).cleanups == 1,
        !is_terminal(run(lc, evs).stage) ==> run(lc, evs).cleanups == 0,
    decreases evs.len(),
{
    if evs.len() > 0 {
        lemma_cleanup_exactly_once(step(lc, evs[0]), evs.drop_first());
    }
}

/// A failed segment fetch fails the whole operation and forbids the
/// merge: no later event reaches the merge stage.
pub proof fn lemma_partial_failure_no_merge(lc: Lifecycle, rs: Seq<bool>, evs: Seq<Event>)
    requires
        lc.stage == Stage::SegmentFetch,
        !all_ok(rs),
    ensures
        step(lc, Event::Segments(rs)).stage == Stage::Failed(ReassemblyError::SegmentFailed),
        run(step(lc, Event::Segments(rs)), evs).stage == Stage::Failed(
            ReassemblyError::SegmentFailed,
        ),
{
    lemma_terminal_absorbs(step(lc, Event::Segments(rs)), evs);
}

/// The workspace-relative download destination of the segment at one
/// playlist position.
pub open spec fn seg_path_spec(ws: Seq<char>, i: int) -> Seq<char> {
    ws + "/seg"@ + dec_spec(i as nat) + ".ts"@
}

/// Segment destinations are pairwise distinct within one workspace.
pub proof fn lemma_seg_paths_distinct(ws: Seq<char>, i: int, j: int)
    requires
        0 <= i,
        0 <= j,
        i != j,
    ensures
        seg_path_spec(ws, i) != seg_path_spec(ws, j),
{
    reveal_strlit("/seg");
    reveal_strlit(".ts");
    if seg_path_spec(ws, i) == seg_path_spec(ws, j) {
        let di = dec_spec(i as nat);
        let dj = dec_spec(j as nat);
        let pre = ws.len() + 4;
        assert(seg_path_spec(ws, i).len() == pre + di.len() + 3);
        assert(seg_path_spec(ws, j).len() == pre + dj.len() + 3);
        assert(di.len() == dj.len());
        assert(di =~= dj) by {
            assert forall|k: int| 0 <= k < di.len() implies di[k] == dj[k] by {
                assert(seg_path_spec(ws, i)[pre + k] == di[k]);
                assert(seg_path_spec(ws, j)[pre + k] == dj[k]);
            }
        }
        lemma_dec_spec_injective(i as nat, j as nat);
        assert(false);
    }
}

/// The transcoder argument list for the final concatenation: the
/// ordered concat directive, stream-copy flags for audio and — when
/// the video track is kept — video, and the output file last.
pub open spec fn merge_args_spec(files: Seq<Seq<char>>, keep_video: bool, out: Seq<char>) -> Seq<
    Seq<char>,
> {
    let audio_args = seq![
        "-i"@,
        "concat:"@ + joined(files, "|"@),
        "-hwaccel"@,
        "auto"@,
        "-c:a"@,
        "copy"@,
        "-acodec"@,
        "copy"@,
    ];
    let args = if keep_video {
        audio_args + seq!["-c:v"@, "copy"@, "-vcodec"@, "copy"@]
    } else {
        audio_args
    };
    args.push(out)
}

/// One manifest reassembly operation.
pub struct Reassembly {
    pub manifest_url: String,
    pub workspace: String,
    pub output_dir: String,
    pub title: String,
    pub transcoder: String,
    pub keep_video: bool,
    pub stage: Stage,
    pub cleanups: u64,
    pub seg_urls: Vec<String>,
    pub seg_paths: Vec<String>,
    pub playlist_uris: Ghost<Seq<Seq<char>>>,
}

impl Reassembly {
    /// The stage-and-cleanup view of the operation.
    pub open spec fn lifecycle(&self) -> Lifecycle {
        Lifecycle { stage: self.stage, cleanups: self.cleanups as nat }
    }

    /// The per-request configuration, which no transition changes.
    pub open spec fn config(&self) -> (Seq<char>, Seq<char>, Seq<char>, Seq<char>, Seq<char>, bool) {
        (
            self.manifest_url@,
            self.workspace@,
            self.output_dir@,
            self.title@,
            self.transcoder@,
            self.keep_video,
        )
    }

    /// The segment plan corresponds one to one with the parsed
    /// playlist: the i-th URL is the i-th segment URI resolved against
    /// the manifest's parent location, and the i-th destination is the
    /// i-th workspace path.
    pub open spec fn plan_wf(&self) -> bool {
        &&& self.seg_urls@.len() == self.playlist_uris@.len()
        &&& self.seg_paths@.len() == self.playlist_uris@.len()
        &&& forall|i: int|
            0 <= i < self.playlist_uris@.len() ==> (#[trigger] self.seg_paths@[i])@
                == seg_path_spec(self.workspace@, i)
        &&& forall|i: int|
            0 <= i < self.playlist_uris@.len() ==> (#[trigger] self.seg_urls@[i])@ == resolve_spec(
                parent_spec(self.manifest_url@),
                self.playlist_uris@[i],
            )
    }

    /// Well-formedness: the cleanup is owed exactly on reaching a
    /// terminal stage, and the segment plan holds whenever segments
    /// are in flight or merged.
    pub open spec fn wf(&self) -> bool {
        &&& has_slash(self.manifest_url@)
        &&& is_terminal(self.stage) ==> self.cleanups == 1
        &&& !is_terminal(self.stage) ==> self.cleanups == 0
        &&& (self.stage == Stage::SegmentFetch || self.stage == Stage::Merge) ==> self.plan_wf()
    }

    /// Begin a reassembly operation. The workspace is a directory
    /// created by the driver for this operation alone; the operation
    /// starts by awaiting the manifest document.
    pub fn new(
        manifest_url: String,
        workspace: String,
        output_dir: String,
        title: String,
        transcoder: String,
        keep_video: bool,
    ) -> (r: Reassembly)
        requires
            has_slash(manifest_url@),
        ensures
            r.wf(),
            r.stage == Stage::ManifestFetch,
            r.cleanups == 0,
            r.config() == (
                manifest_url@,
                workspace@,
                output_dir@,
                title@,
                transcoder@,
                keep_video,
            ),
    {
        Reassembly {
            manifest_url,
            workspace,
            output_dir,
            title,
            transcoder,
            keep_video,
            stage: Stage::ManifestFetch,
            cleanups: 0,
            seg_urls: Vec::new(),
            seg_paths: Vec::new(),
            playlist_uris: Ghost(Seq::empty()),
        }
    }

    /// Where the driver is to store the fetched manifest document.
    pub fn manifest_destination(&self) -> (r: String)
        ensures
            r@ == self.workspace@ + "/manifest.m3u8"@,
    {
        String::from_str(self.workspace.as_str()).concat("/manifest.m3u8")
    }

    /// Report the manifest fetch: the document bytes, or `None` when
    /// the fetch failed. A missing document fails the operation with
    /// `ManifestUnavailable`; a document that is no well-formed media
    /// playlist fails it with `ManifestInvalid`; otherwise the
    /// operation moves to segment fetching with one download URL and
    /// one workspace destination per segment, in playlist order.
    pub fn on_manifest(&mut self, doc: Option<&Vec<u8>>)
        requires
            old(self).wf(),
            old(self).stage == Stage::ManifestFetch,
        ensures
            final(self).wf(),
            final(self).config() == old(self).config(),
            final(self).lifecycle() == step(
                old(self).lifecycle(),
                Event::Manifest(
                    match doc {
                        Some(b) => Some(b@),
                        None => None,
                    },
                ),
            ),
            final(self).stage == Stage::SegmentFetch ==> {
                &&& doc is Some
                &&& parsed_segment_uris(doc.unwrap()@) == Some(final(self).playlist_uris@)
            },
    {
        match doc {
            None => {
                self.stage = Stage::Failed(ReassemblyError::ManifestUnavailable);
                self.cleanups = self.cleanups + 1;
            },
            Some(bytes) => {
                match parse_playlist(bytes) {
                    None => {
                        self.stage = Stage::Failed(ReassemblyError::ManifestInvalid);
                        self.cleanups = self.cleanups + 1;
                    },
                    Some(pl) => {
                        let base = parent_dir(self.manifest_url.as_str()).unwrap();
                        let mut urls: Vec<String> = Vec::new();
                        let mut paths: Vec<String> = Vec::new();
                        let n = pl.segments.len();
                        let mut i: usize = 0;
                        while i < n
                            invariant
                                0 <= i <= n,
                                n == pl.segments@.len(),
                                base@ == parent_spec(self.manifest_url@),
                                urls@.len() == i,
                                paths@.len() == i,
                                forall|k: int|
                                    0 <= k < i ==> (#[trigger] urls@[k])@ == resolve_spec(
                                        parent_spec(self.manifest_url@),
                                        pl.uris()[k],
                                    ),
                                forall|k: int|
                                    0 <= k < i ==> (#[trigger] paths@[k])@ == seg_path_spec(
                                        self.workspace@,
                                        k,
                                    ),
                            decreases n - i,
                        {
                            let u = resolve_uri(base.as_str(), pl.segments[i].uri.as_str());
                            proof {
                                assert(pl.uris()[i as int] == pl.segments@[i as int].uri@);
                            }
                            urls.push(u);
                            let p = String::from_str(self.workspace.as_str()).concat(
                                "/seg",
                            ).concat(decimal_string(i as u64).as_str()).concat(".ts");
                            proof {
                                assert(i as u64 as nat == i as nat);
                                assert(p@ == seg_path_spec(self.workspace@, i as int));
                            }
                            paths.push(p);
                            i = i + 1;
                        }
                        self.seg_urls = urls;
                        self.seg_paths = paths;
                        self.playlist_uris = Ghost(pl.uris());
                        self.stage = Stage::SegmentFetch;
                    },
                }
            },
        }
    }

    /// How many segments the plan holds.
    pub fn segment_count(&self) -> (r: usize)
        ensures
            r == self.seg_urls@.len(),
    {
        self.seg_urls.len()
    }

    /// The download URL of the segment at one playlist position.
    pub fn segment_url(&self, i: usize) -> (r: &String)
        requires
            i < self.seg_urls@.len(),
        ensures
            r == self.seg_urls@[i as int],
    {
        &self.seg_urls[i]
    }

    /// The workspace destination of the segment at one playlist
    /// position.
    pub fn segment_path(&self, i: usize) -> (r: &String)
        requires
            i < self.seg_paths@.len(),
        ensures
            r == self.seg_paths@[i as int],
    {
        &self.seg_paths[i]
    }

    /// Report the per-segment fetch outcomes, indexed in playlist
    /// order — the order in which the concurrent fetches completed
    /// plays no part. All successes move the operation to the merge;
    /// any failure fails it with `SegmentFailed`. The segment plan is
    /// left untouched either way.
    pub fn on_segments(&mut self, results: &Vec<bool>)
        requires
            old(self).wf(),
            old(self).stage == Stage::SegmentFetch,
            results@.len() == old(self).seg_paths@.len(),
        ensures
            final(self).wf(),
            final(self).config() == old(self).config(),
            final(self).lifecycle() == step(old(self).lifecycle(), Event::Segments(results@)),
            final(self).seg_paths@ == old(self).seg_paths@,
            final(self).seg_urls@ == old(self).seg_urls@,
            final(self).playlist_uris@ == old(self).playlist_uris@,
    {
        let mut ok = true;
        let mut i: usize = 0;
        while i < results.len()
            invariant
                0 <= i <= results@.len(),
                ok <==> (forall|k: int| 0 <= k < i ==> results@[k]),
            decreases results@.len() - i,
        {
            if !results[i] {
                ok = false;
            }
            i = i + 1;
        }
        if ok {
            self.stage = Stage::Merge;
        } else {
            self.stage = Stage::Failed(ReassemblyError::SegmentFailed);
            self.cleanups = self.cleanups + 1;
        }
    }

    /// The final output file: the title stem inside the output
    /// directory, with the extension chosen by whether the video track
    /// is kept.
    pub open spec fn output_path_spec(&self) -> Seq<char> {
        self.output_dir@ + "/"@ + self.title@ + "."@ + (if self.keep_video {
            "mp4"@
        } else {
            "m4a"@
        })
    }

    pub fn output_path(&self) -> (r: String)
        ensures
            r@ == self.output_path_spec(),
    {
        let ext = if self.keep_video {
            "mp4"
        } else {
            "m4a"
        };
        String::from_str(self.output_dir.as_str()).concat("/").concat(self.title.as_str()).concat(
            ".",
        ).concat(ext)
    }

    /// The transcoder invocation for the final stream-copy
    /// concatenation: the planned segment files joined in playlist
    /// order, audio (and, when kept, video) copied unchanged, the
    /// output file last.
    pub fn merge_command(&self) -> (r: Vec<String>)
        requires
            self.wf(),
            self.stage == Stage::Merge,
        ensures
            strings_view(r@) == merge_args_spec(
                strings_view(self.seg_paths@),
                self.keep_video,
                self.output_path_spec(),
            ),
    {
        let mut args: Vec<String> = Vec::new();
        args.push(String::from_str("-i"));
        args.push(String::from_str("concat:").concat(join_with(&self.seg_paths, "|").as_str()));
        args.push(String::from_str("-hwaccel"));
        args.push(String::from_str("auto"));
        args.push(String::from_str("-c:a"));
        args.push(String::from_str("copy"));
        args.push(String::from_str("-acodec"));
        args.push(String::from_str("copy"));
        if self.keep_video {
            args.push(String::from_str("-c:v"));
            args.push(String::from_str("copy"));
            args.push(String::from_str("-vcodec"));
            args.push(String::from_str("copy"));
        }
        args.push(self.output_path());
        proof {
            assert(strings_view(args@) =~= merge_args_spec(
                strings_view(self.seg_paths@),
                self.keep_video,
                self.output_path_spec(),
            ));
        }
        args
    }

    /// Report the transcoder exit: success completes the operation,
    /// failure fails it with `MergeFailed`; either way the workspace
    /// removal falls due.
    pub fn on_merge(&mut self, ok: bool)
        requires
            old(self).wf(),
            old(self).stage == Stage::Merge,
        ensures
            final(self).wf(),
            final(self).config() == old(self).config(),
            final(self).lifecycle() == step(old(self).lifecycle(), Event::Merge(ok)),
    {
        if ok {
            self.stage = Stage::Done;
        } else {
            self.stage = Stage::Failed(ReassemblyError::MergeFailed);
        }
        self.cleanups = self.cleanups + 1;
    }

    /// The current stage.
    pub fn stage(&self) -> (r: Stage)
        ensures
            r == self.stage,
    {
        self.stage
    }
}

/// Segment ordering: while segments are in flight or merged, the i-th
/// planned destination is the workspace path of playlist position i,
/// and the destinations are pairwise distinct — the concatenation
/// input order is the playlist order, however the fetches complete.
pub proof fn lemma_plan_ordered_and_distinct(m: Reassembly)
    requires
        m.wf(),
        m.stage == Stage::SegmentFetch || m.stage == Stage::Merge,
    ensures
        m.seg_paths@.len() == m.playlist_uris@.len(),
        forall|i: int|
            0 <= i < m.playlist_uris@.len() ==> (#[trigger] m.seg_paths@[i])@ == seg_path_spec(
                m.workspace@,
                i,
            ),
        forall|i: int, j: int|
            0 <= i < m.playlist_uris@.len() && 0 <= j < m.playlist_uris@.len() && i != j
                ==> (#[trigger] m.seg_paths@[i])@ != (#[trigger] m.seg_paths@[j])@,
{
    assert forall|i: int, j: int|
        0 <= i < m.playlist_uris@.len() && 0 <= j < m.playlist_uris@.len() && i != j
            implies (#[trigger] m.seg_paths@[i])@ != (#[trigger] m.seg_paths@[j])@ by {
        lemma_seg_paths_distinct(m.workspace@, i, j);
    }
}

} // verus!
