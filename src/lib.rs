//! Ingestion core of a vector-database proxy: classification of queue
//! messages, planning of the upload path, the steps of that path from object
//! retrieval to the vector-store write, and construction of vector points
//! from embedded chunks.

pub mod document;
pub mod external;
pub mod file_type;
pub mod message;
pub mod points;
pub mod string_map;
pub mod text;
pub mod upload;

pub use document::{
    lemma_same_object_same_points, settle_chunks, settle_extraction, ChunkingStrategy,
    DocumentView, ExtractedDocument, Extraction,
};
pub use external::json_string_member;
pub use file_type::FileType;
pub use message::{
    classify, lemma_malformed_upload_dropped, lemma_stream_header_source, plan_message,
    plan_upload, MessagePlan, PathKind, PlanModel, UploadPlan,
};
pub use points::{build_points, lemma_point_payload, Chunk, ChunkView, PointView, VectorPoint};
pub use string_map::StringMap;
pub use text::{data_source_id, file_extension, trim_quotes};
pub use upload::{UploadAction, UploadEvent, UploadState};
