use vstd::prelude::*;
use vstd::string::*;

use crate::document::{
    chunks_outcome_view, outcome_view, settle_chunks, settle_extraction, settled_chunks,
    settled_document, extraction_of, is_chunked_type, ChunkingStrategy, DocumentView,
    ExtractedDocument, Extraction,
};
use crate::message::UploadPlan;
use crate::points::{build_points, point_views, points_of, Chunk, VectorPoint};
use crate::string_map::StringMap;

verus! {

/// Where the upload path of one message stands.
pub enum UploadState {
    /// Waiting for the object's bytes.
    Fetching(UploadPlan),
    /// Waiting for the bytes to be written to the staging path.
    Staging(UploadPlan),
    /// Waiting for the staged file to be read.
    Extracting(UploadPlan),
    /// Waiting for the staged file to be removed; holds the document kept.
    Cleaning(UploadPlan, ExtractedDocument),
    /// Waiting for the chunker.
    Chunking(UploadPlan),
    /// Waiting for the vector store's bulk write.
    Writing(UploadPlan),
    /// Nothing more to do for this message.
    Done,
}

/// What the outside world reports back after an action.
pub enum UploadEvent {
    /// The object's bytes, or `None` when retrieval failed.
    Fetched(Option<Vec<u8>>),
    /// Whether the bytes were written to the staging path.
    Staged(bool),
    /// The document read, or `None` when reading failed.
    Extracted(Option<ExtractedDocument>),
    /// The staged file was removed, or its removal failed: both go on alike.
    Removed,
    /// The chunks made, or `None` when chunking failed.
    Chunked(Option<Vec<Chunk>>),
    /// Whether the bulk write succeeded.
    Written(bool),
}

/// What to do next for the message.
pub enum UploadAction {
    Fetch { bucket: String, filename: String },
    Stage { path: String, bytes: Vec<u8> },
    Extract { method: Extraction, path: String },
    RemoveStaged { path: String },
    Chunk { text: String, metadata: StringMap, strategy: ChunkingStrategy },
    Write { collection: String, points: Vec<VectorPoint> },
    /// The message is finished; the subscriber takes the next one.
    Finish,
    /// The bulk write failed; the subscriber stops.
    Stop,
}

/// The message is done and the subscriber goes on.
pub open spec fn finishes(r: (UploadState, UploadAction)) -> bool {
    r.0 is Done && r.1 is Finish
}

/// The staged file of `p` is to be removed next, keeping the document `d`.
pub open spec fn cleans_up(r: (UploadState, UploadAction), p: UploadPlan, d: DocumentView) -> bool {
    &&& r.0 matches UploadState::Cleaning(p2, kept) && p2 == p && kept@ == d
    &&& r.1 matches UploadAction::RemoveStaged { path } && path@ == p.staging_path@
}

impl UploadState {
    /// Begins the upload path of a planned message by fetching its object.
    pub fn start(plan: UploadPlan) -> (r: (UploadState, UploadAction))
        ensures
            r.1 matches UploadAction::Fetch { bucket, filename } && bucket@ == plan.bucket@
                && filename@ == plan.filename@,
            r.0 == UploadState::Fetching(plan),
    {
        let bucket = plan.bucket.clone();
        let filename = plan.filename.clone();
        (UploadState::Fetching(plan), UploadAction::Fetch { bucket, filename })
    }

    /// The next state and action after `event`. An event that the state does
    /// not wait for finishes the message.
    pub fn step(self, event: UploadEvent) -> (r: (UploadState, UploadAction))
        ensures
            // a failed retrieval drops the message; fetched bytes are staged
            self matches UploadState::Fetching(p) ==> match event {
                UploadEvent::Fetched(Some(b)) => r.0 == UploadState::Staging(p) && (r.1 matches
                    UploadAction::Stage { path, bytes } && path@ == p.staging_path@ && bytes@ == b@),
                _ => finishes(r),
            },
            // a failed staging drops the message; a staged file is read, or
            // removed at once when its type is not read
            self matches UploadState::Staging(p) ==> match event {
                UploadEvent::Staged(true) => if extraction_of(p.file_type) is Nothing {
                    cleans_up(r, p, settled_document(p.file_type, None))
                } else {
                    r.0 == UploadState::Extracting(p) && (r.1 matches UploadAction::Extract {
                        method,
                        path,
                    } && method == extraction_of(p.file_type) && path@ == p.staging_path@)
                },
                _ => finishes(r),
            },
            // after extraction, whatever its outcome, the staged file is removed
            self matches UploadState::Extracting(p) ==> match event {
                UploadEvent::Extracted(o) => cleans_up(
                    r,
                    p,
                    settled_document(p.file_type, outcome_view(o)),
                ),
                _ => finishes(r),
            },
            // once removed, the kept document is chunked if its type is
            self matches UploadState::Cleaning(p, d) ==> match event {
                UploadEvent::Removed => if is_chunked_type(p.file_type) {
                    r.0 == UploadState::Chunking(p) && (r.1 matches UploadAction::Chunk {
                        text,
                        metadata,
                        strategy,
                    } && text@ == d.text@ && metadata@ == d.metadata@ && strategy
                        == ChunkingStrategy::SEMANTIC_CHUNKING)
                } else {
                    finishes(r)
                },
                _ => finishes(r),
            },
            // the points of the kept chunks go in one bulk write to the data
            // source's collection; with no points nothing is written
            self matches UploadState::Chunking(p) ==> match event {
                UploadEvent::Chunked(o) => {
                    let points = points_of(settled_chunks(p.file_type, chunks_outcome_view(o)));
                    if points.len() == 0 {
                        finishes(r)
                    } else {
                        r.0 == UploadState::Writing(p) && (r.1 matches UploadAction::Write {
                            collection,
                            points: written,
                        } && collection@ == p.data_source_id@ && point_views(written@) == points)
                    }
                },
                _ => finishes(r),
            },
            // only a failed bulk write stops the subscriber
            self matches UploadState::Writing(_) ==> if event == UploadEvent::Written(false) {
                r.0 is Done && r.1 is Stop
            } else {
                finishes(r)
            },
            self is Done ==> finishes(r),
    {
        match (self, event) {
            (UploadState::Fetching(p), UploadEvent::Fetched(Some(bytes))) => {
                let path = p.staging_path.clone();
                (UploadState::Staging(p), UploadAction::Stage { path, bytes })
            },
            (UploadState::Staging(p), UploadEvent::Staged(true)) => {
                let path = p.staging_path.clone();
                match p.file_type.extraction() {
                    Extraction::Nothing => {
                        let d = settle_extraction(p.file_type, None);
                        (UploadState::Cleaning(p, d), UploadAction::RemoveStaged { path })
                    },
                    method => (UploadState::Extracting(p), UploadAction::Extract { method, path }),
                }
            },
            (UploadState::Extracting(p), UploadEvent::Extracted(o)) => {
                let path = p.staging_path.clone();
                let d = settle_extraction(p.file_type, o);
                (UploadState::Cleaning(p, d), UploadAction::RemoveStaged { path })
            },
            (UploadState::Cleaning(p, d), UploadEvent::Removed) => {
                if p.file_type.is_chunked() {
                    let action = UploadAction::Chunk {
                        text: d.text,
                        metadata: d.metadata,
                        strategy: ChunkingStrategy::SEMANTIC_CHUNKING,
                    };
                    (UploadState::Chunking(p), action)
                } else {
                    (UploadState::Done, UploadAction::Finish)
                }
            },
            (UploadState::Chunking(p), UploadEvent::Chunked(o)) => {
                let chunks = settle_chunks(p.file_type, o);
                let points = build_points(&chunks);
                if points.len() == 0 {
                    (UploadState::Done, UploadAction::Finish)
                } else {
                    let collection = p.data_source_id.clone();
                    (UploadState::Writing(p), UploadAction::Write { collection, points })
                }
            },
            (UploadState::Writing(_), UploadEvent::Written(false)) => (UploadState::Done, UploadAction::Stop),
            _ => (UploadState::Done, UploadAction::Finish),
        }
    }
}

} // verus!
