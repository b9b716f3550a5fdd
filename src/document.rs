use vstd::prelude::*;

use crate::file_type::FileType;
use crate::message::{plan_of, PlanModel};
use crate::points::{chunk_views, points_of, Chunk, ChunkView};
use crate::string_map::StringMap;

verus! {

/// Text and metadata read from one retrieved file.
pub struct ExtractedDocument {
    pub text: String,
    pub metadata: StringMap,
}

/// The abstract value of an `ExtractedDocument`.
pub struct DocumentView {
    pub text: Seq<char>,
    pub metadata: Map<Seq<char>, Seq<char>>,
}

impl View for ExtractedDocument {
    type V = DocumentView;

    open spec fn view(&self) -> DocumentView {
        DocumentView { text: self.text@, metadata: self.metadata@ }
    }
}

pub open spec fn empty_document() -> DocumentView {
    DocumentView { text: Seq::empty(), metadata: Map::empty() }
}

impl ExtractedDocument {
    pub fn empty() -> (r: ExtractedDocument)
        ensures
            r@ == empty_document(),
    {
        ExtractedDocument { text: String::new(), metadata: StringMap::new() }
    }
}

/// How the text of a staged file is obtained.
#[allow(non_camel_case_types, clippy::upper_case_acronyms)]
#[derive(Clone, Copy, Debug, PartialEq, Eq, Structural)]
pub enum Extraction {
    /// Through the PDF reader, which gives text and metadata.
    PdfReader,
    /// Through the DOCX reader, which gives text and metadata.
    DocxReader,
    /// The file's contents as they are, without metadata.
    ReadVerbatim,
    /// None: the document is empty.
    Nothing,
}

/// The strategies a chunker can be asked to apply.
#[allow(non_camel_case_types, clippy::upper_case_acronyms)]
#[derive(Clone, Copy, Debug, PartialEq, Eq, Structural)]
pub enum ChunkingStrategy {
    SEMANTIC_CHUNKING,
}

pub open spec fn extraction_of(t: FileType) -> Extraction {
    match t {
        FileType::PDF => Extraction::PdfReader,
        FileType::DOCX => Extraction::DocxReader,
        FileType::TXT => Extraction::ReadVerbatim,
        FileType::DOC => Extraction::Nothing,
        FileType::UNKNOWN => Extraction::Nothing,
    }
}

/// The document a file of type `t` yields when its extraction gave
/// `outcome` (`None`: the extraction failed). A failure, a DOC file and an
/// unknown file all yield the empty document; a text file has no metadata.
pub open spec fn settled_document(t: FileType, outcome: Option<DocumentView>) -> DocumentView {
    match (extraction_of(t), outcome) {
        (Extraction::Nothing, _) => empty_document(),
        (_, None) => empty_document(),
        (Extraction::ReadVerbatim, Some(d)) => DocumentView { text: d.text, metadata: Map::empty() },
        (_, Some(d)) => d,
    }
}

/// Whether chunks are made for a file of type `t`.
pub open spec fn is_chunked_type(t: FileType) -> bool {
    !(t is DOC || t is UNKNOWN)
}

/// The chunks indexed for a file of type `t` when chunking gave `outcome`
/// (`None`: chunking failed): none for a failure or a type without chunking.
pub open spec fn settled_chunks(t: FileType, outcome: Option<Seq<ChunkView>>) -> Seq<ChunkView> {
    match outcome {
        Some(cs) => if is_chunked_type(t) {
            cs
        } else {
            Seq::empty()
        },
        None => Seq::empty(),
    }
}

impl FileType {
    /// How a file of this type is read.
    pub fn extraction(self) -> (r: Extraction)
        ensures
            r == extraction_of(self),
    {
        match self {
            FileType::PDF => Extraction::PdfReader,
            FileType::DOCX => Extraction::DocxReader,
            FileType::TXT => Extraction::ReadVerbatim,
            FileType::DOC => Extraction::Nothing,
            FileType::UNKNOWN => Extraction::Nothing,
        }
    }

    /// Whether the chunker is applied to a document of this type.
    pub fn is_chunked(self) -> (r: bool)
        ensures
            r == is_chunked_type(self),
    {
        match self {
            FileType::DOC | FileType::UNKNOWN => false,
            _ => true,
        }
    }
}

pub open spec fn outcome_view(outcome: Option<ExtractedDocument>) -> Option<DocumentView> {
    match outcome {
        Some(d) => Some(d@),
        None => None,
    }
}

pub open spec fn chunks_outcome_view(outcome: Option<Vec<Chunk>>) -> Option<Seq<ChunkView>> {
    match outcome {
        Some(cs) => Some(chunk_views(cs@)),
        None => None,
    }
}

/// The document kept from an extraction of a file of type `t`; `None` stands
/// for a failed extraction.
pub fn settle_extraction(t: FileType, outcome: Option<ExtractedDocument>) -> (r: ExtractedDocument)
    ensures
        r@ == settled_document(t, outcome_view(outcome)),
{
    match (t.extraction(), outcome) {
        (Extraction::Nothing, _) => ExtractedDocument::empty(),
        (_, None) => ExtractedDocument::empty(),
        (Extraction::ReadVerbatim, Some(d)) => ExtractedDocument { text: d.text, metadata: StringMap::new() },
        (_, Some(d)) => d,
    }
}

/// The chunks kept from chunking a document of type `t`; `None` stands for
/// a failed chunking.
pub fn settle_chunks(t: FileType, outcome: Option<Vec<Chunk>>) -> (r: Vec<Chunk>)
    ensures
        chunk_views(r@) == settled_chunks(t, chunks_outcome_view(outcome)),
{
    match outcome {
        Some(cs) => if t.is_chunked() {
            cs
        } else {
            let r: Vec<Chunk> = Vec::new();
            assert(chunk_views(r@) =~= Seq::<ChunkView>::empty());
            r
        },
        None => {
            let r: Vec<Chunk> = Vec::new();
            assert(chunk_views(r@) =~= Seq::<ChunkView>::empty());
            r
        },
    }
}

/// Two upload messages that name the same object for the same data source get
/// the same plan; when extraction and chunking of that object give the same
/// results for both, the same document is kept and the same points are
/// written.
pub proof fn lemma_same_object_same_points(
    headers1: Map<Seq<char>, Seq<char>>,
    body1: Seq<u8>,
    headers2: Map<Seq<char>, Seq<char>>,
    body2: Seq<u8>,
    extracted1: Option<DocumentView>,
    extracted2: Option<DocumentView>,
    chunked1: Option<Seq<ChunkView>>,
    chunked2: Option<Seq<ChunkView>>,
)
    requires
        plan_of(headers1, body1) matches PlanModel::Upload { data_source_id, bucket, filename, .. }
            && plan_of(headers2, body2) matches PlanModel::Upload {
            data_source_id: id2,
            bucket: bucket2,
            filename: filename2,
            ..
        } && data_source_id == id2 && bucket == bucket2 && filename == filename2,
        extracted1 == extracted2,
        chunked1 == chunked2,
    ensures
        plan_of(headers1, body1) == plan_of(headers2, body2),
        plan_of(headers1, body1) matches PlanModel::Upload { file_type, .. } && settled_document(
            file_type,
            extracted1,
        ) == settled_document(file_type, extracted2) && points_of(settled_chunks(file_type, chunked1))
            == points_of(settled_chunks(file_type, chunked2)),
{
}

} // verus!
