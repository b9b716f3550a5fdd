use vstd::prelude::*;
use vstd::string::*;

use crate::string_map::StringMap;

verus! {

/// One fragment of an extracted document, with the document's metadata and
/// its own fields, and the embedding of its text if the provider gave one.
/// An embedding is held as the bit patterns of its `f32` components.
pub struct Chunk {
    pub text: String,
    pub metadata: StringMap,
    pub embedding: Option<Vec<u32>>,
}

/// The abstract value of a `Chunk`.
pub struct ChunkView {
    pub text: Seq<char>,
    pub metadata: Map<Seq<char>, Seq<char>>,
    pub embedding: Option<Seq<u32>>,
}

impl View for Chunk {
    type V = ChunkView;

    open spec fn view(&self) -> ChunkView {
        ChunkView {
            text: self.text@,
            metadata: self.metadata@,
            embedding: match self.embedding {
                Some(e) => Some(e@),
                None => None,
            },
        }
    }
}

/// A record for the vector store: an embedding and its payload. The store's
/// point id is given when the record is written.
pub struct VectorPoint {
    pub vector: Vec<u32>,
    pub payload: StringMap,
}

/// The abstract value of a `VectorPoint`.
pub struct PointView {
    pub vector: Seq<u32>,
    pub payload: Map<Seq<char>, Seq<char>>,
}

impl View for VectorPoint {
    type V = PointView;

    open spec fn view(&self) -> PointView {
        PointView { vector: self.vector@, payload: self.payload@ }
    }
}

/// The chunks that carry an embedding, in their order.
pub open spec fn embedded(chunks: Seq<ChunkView>) -> Seq<ChunkView> {
    chunks.filter(|c: ChunkView| c.embedding is Some)
}

/// The point of an embedded chunk: its embedding, and its metadata with its
/// text under `text`.
pub open spec fn point_of(c: ChunkView) -> PointView {
    PointView { vector: c.embedding.unwrap(), payload: c.metadata.insert("text"@, c.text) }
}

/// The points of a chunk sequence: one for each chunk with an embedding, in
/// chunk order.
pub open spec fn points_of(chunks: Seq<ChunkView>) -> Seq<PointView> {
    embedded(chunks).map_values(|c: ChunkView| point_of(c))
}

pub open spec fn chunk_views(chunks: Seq<Chunk>) -> Seq<ChunkView> {
    chunks.map_values(|c: Chunk| c@)
}

pub open spec fn point_views(points: Seq<VectorPoint>) -> Seq<PointView> {
    points.map_values(|p: VectorPoint| p@)
}

fn copy_vector(v: &Vec<u32>) -> (r: Vec<u32>)
    ensures
        r@ == v@,
{
    let mut out: Vec<u32> = Vec::new();
    let mut i: usize = 0;
    while i < v.len()
        invariant
            i <= v@.len(),
            out@ == v@.take(i as int),
        decreases v@.len() - i,
    {
        out.push(v[i]);
        i = i + 1;
        assert(out@ =~= v@.take(i as int));
    }
    assert(v@.take(i as int) =~= v@);
    out
}

/// Builds the points of a message's chunks: a chunk without an embedding is
/// skipped, every other one gives a point whose payload is its metadata with
/// its text under `text`.
pub fn build_points(chunks: &Vec<Chunk>) -> (r: Vec<VectorPoint>)
    ensures
        point_views(r@) == points_of(chunk_views(chunks@)),
{
    let mut out: Vec<VectorPoint> = Vec::new();
    let mut i: usize = 0;
    assert(chunk_views(chunks@).take(0) =~= Seq::<ChunkView>::empty());
    proof {
        reveal(Seq::filter);
    }
    assert(point_views(out@) =~= points_of(chunk_views(chunks@).take(0)));
    while i < chunks.len()
        invariant
            i <= chunks@.len(),
            point_views(out@) == points_of(chunk_views(chunks@).take(i as int)),
        decreases chunks@.len() - i,
    {
        let ghost cs = chunk_views(chunks@);
        let ghost before = out@;
        let c = &chunks[i];
        proof {
            reveal(Seq::filter);
            assert(cs.take(i + 1).drop_last() =~= cs.take(i as int));
            assert(cs.take(i + 1).last() == c@);
        }
        match &c.embedding {
            Some(e) => {
                let mut payload = c.metadata.duplicate();
                payload.insert(String::from_str("text"), c.text.clone());
                out.push(VectorPoint { vector: copy_vector(e), payload });
                assert(point_views(out@) =~= point_views(before).push(point_of(c@)));
                assert(embedded(cs.take(i + 1)) == embedded(cs.take(i as int)).push(c@));
                assert(point_views(out@) =~= points_of(cs.take(i + 1)));
            },
            None => {
                assert(embedded(cs.take(i + 1)) == embedded(cs.take(i as int)));
            },
        }
        i = i + 1;
    }
    assert(chunk_views(chunks@).take(i as int) =~= chunk_views(chunks@));
    out
}

/// Every embedded chunk is one of the chunks, and carries an embedding.
proof fn lemma_embedded_source(chunks: Seq<ChunkView>, k: int)
    requires
        0 <= k < embedded(chunks).len(),
    ensures
        chunks.contains(embedded(chunks)[k]),
        embedded(chunks)[k].embedding is Some,
    decreases chunks.len(),
{
    reveal(Seq::filter);
    let rest = chunks.drop_last();
    if k < embedded(rest).len() {
        lemma_embedded_source(rest, k);
        let j = choose|j: int| 0 <= j < rest.len() && rest[j] == embedded(rest)[k];
        assert(chunks[j] == rest[j]);
    } else {
        assert(chunks[chunks.len() - 1] == chunks.last());
    }
}

/// Each point comes from a chunk of the sequence with an embedding: its
/// vector is that embedding, its payload holds the chunk's text under `text`
/// and every key of the chunk's metadata, with the same value for every key
/// but `text`.
pub proof fn lemma_point_payload(chunks: Seq<ChunkView>, k: int)
    requires
        0 <= k < points_of(chunks).len(),
    ensures
        ({
            let p = points_of(chunks)[k];
            let c = embedded(chunks)[k];
            &&& chunks.contains(c)
            &&& c.embedding == Some(p.vector)
            &&& p.payload.contains_key("text"@)
            &&& p.payload["text"@] == c.text
            &&& forall|key: Seq<char>| #[trigger]
                c.metadata.contains_key(key) ==> p.payload.contains_key(key)
            &&& forall|key: Seq<char>|
                key != "text"@ && #[trigger] c.metadata.contains_key(key) ==> p.payload[key]
                    == c.metadata[key]
        }),
{
    lemma_embedded_source(chunks, k);
}

} // verus!
