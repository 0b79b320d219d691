//! Sparse lexical embeddings of chunk and query text.

use vstd::prelude::*;

use crate::chunking::Chunk;

verus! {

/// bm25's sparse vector, carried through as an opaque value: its weights
/// are floating point.
#[verifier::external_type_specification]
#[verifier::external_body]
#[verifier::reject_recursive_types(D)]
pub struct ExEmbedding<D>(bm25::Embedding<D>);

/// One entry of a bm25 vector, opaque here.
#[verifier::external_type_specification]
#[verifier::external_body]
#[verifier::reject_recursive_types(D)]
pub struct ExTokenEmbedding<D>(bm25::TokenEmbedding<D>);

/// bm25's default tokenizer, opaque here.
#[verifier::external_type_specification]
#[verifier::external_body]
pub struct ExDefaultTokenizer(bm25::DefaultTokenizer);

/// bm25's embedder, built by the caller with its average document length;
/// opaque here.
#[verifier::external_type_specification]
#[verifier::external_body]
#[verifier::reject_recursive_types(D)]
#[verifier::reject_recursive_types(T)]
pub struct ExEmbedder<D, T>(bm25::Embedder<D, T>);

/// The BM25 term-weight vector that `e` makes of the text `t`.
pub uninterp spec fn embedding_of(e: bm25::Embedder, t: Seq<char>) -> bm25::Embedding;

/// The term indices of the entries of `e`, in order.
pub uninterp spec fn indices_of(e: bm25::Embedding) -> Seq<u32>;

/// Relies on bm25::Embedder::embed: the term-weight vector of `text`, which
/// depends on the embedder's settings and the text alone.
#[verifier::external_body]
fn embed_with(embedder: &bm25::Embedder, text: &str) -> (r: bm25::Embedding)
    ensures
        r == embedding_of(*embedder, text@),
{
    embedder.embed(text)
}

/// Relies on bm25::Embedding::indices: the term index of each entry, in order.
#[verifier::external_body]
pub(crate) fn term_indices(embedding: &bm25::Embedding) -> (r: Vec<u32>)
    ensures
        r@ == indices_of(*embedding),
{
    embedding.indices().copied().collect()
}

/// Attaches to every chunk the embedding of its content; contents and
/// order are kept.
pub fn embed_chunks(embedder: &bm25::Embedder, chunks: Vec<Chunk>) -> (r: Vec<Chunk>)
    ensures
        r@.len() == chunks@.len(),
        forall|i: int| 0 <= i < r@.len() ==> #[trigger] r@[i].content == chunks@[i].content,
        forall|i: int|
            0 <= i < r@.len() ==> #[trigger] r@[i].embedding == Some(
                embedding_of(*embedder, chunks@[i].content@),
            ),
{
    let mut chunks = chunks;
    let ghost original = chunks@;
    let mut i: usize = 0;
    while i < chunks.len()
        invariant
            0 <= i <= chunks@.len(),
            chunks@.len() == original.len(),
            forall|j: int| 0 <= j < chunks@.len() ==> #[trigger] chunks@[j].content == original[j].content,
            forall|j: int|
                0 <= j < i ==> #[trigger] chunks@[j].embedding == Some(
                    embedding_of(*embedder, original[j].content@),
                ),
        decreases chunks@.len() - i,
    {
        let embedding = embed_with(embedder, chunks[i].content.as_str());
        chunks[i].embedding = Some(embedding);
        i = i + 1;
    }
    chunks
}

/// The embedding of a query text.
pub fn embed_text(embedder: &bm25::Embedder, text: String) -> (r: bm25::Embedding)
    ensures
        r == embedding_of(*embedder, text@),
{
    embed_with(embedder, text.as_str())
}

} // verus!
