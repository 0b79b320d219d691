//! Ingestion settings and the per-document step of ingestion: chunk the
//! text, then embed every chunk.

use vstd::prelude::*;
use vstd::utf8::encode_utf8;

use crate::chunking::{chunk_pieces, chunk_sources, chunk_text, lossy_utf8, pieces_partition, Chunk};
use crate::embedding::{embed_chunks, embedding_of};

verus! {

/// Settings of one ingestion run over a directory.
pub struct Pipeline {
    pub directory_path: String,
    pub directory_description: Option<String>,
    pub use_eu: bool,
    pub llama_cloud_api_key: Option<String>,
    pub max_polling_attempts: Option<u64>,
    pub polling_interval: Option<u64>,
    pub chunk_size: usize,
    pub qdrant_url: String,
    pub collection_name: String,
}

impl Pipeline {
    pub fn new(
        directory_path: String,
        directory_description: Option<String>,
        use_eu: bool,
        llama_cloud_api_key: Option<String>,
        max_polling_attempts: Option<u64>,
        polling_interval: Option<u64>,
        chunk_size: usize,
        qdrant_url: String,
        collection_name: String,
    ) -> (r: Self)
        ensures
            r.directory_path == directory_path,
            r.directory_description == directory_description,
            r.use_eu == use_eu,
            r.llama_cloud_api_key == llama_cloud_api_key,
            r.max_polling_attempts == max_polling_attempts,
            r.polling_interval == polling_interval,
            r.chunk_size == chunk_size,
            r.qdrant_url == qdrant_url,
            r.collection_name == collection_name,
    {
        Pipeline {
            directory_path,
            directory_description,
            use_eu,
            llama_cloud_api_key,
            max_polling_attempts,
            polling_interval,
            chunk_size,
            qdrant_url,
            collection_name,
        }
    }

    /// The chunks of one document's text, each with the embedding of its
    /// content, ready for upload: one per memchunk piece of the text's
    /// UTF-8 bytes (one empty chunk for the empty text), each piece
    /// non-empty and at most `chunk_size` bytes; a text that fits in
    /// `chunk_size` bytes is one chunk equal to it.
    pub fn prepare_document(&self, embedder: &bm25::Embedder, text: String) -> (r: Vec<Chunk>)
        requires
            self.chunk_size > 0,
        ensures
            ({
                let b = encode_utf8(text@);
                let sources = chunk_sources(b, self.chunk_size as nat);
                &&& pieces_partition(b, self.chunk_size as nat, chunk_pieces(b, self.chunk_size as nat))
                &&& r@.len() == sources.len()
                &&& forall|i: int| 0 <= i < r@.len() ==> #[trigger] r@[i].content@ == lossy_utf8(sources[i])
                &&& forall|i: int|
                    0 <= i < r@.len() ==> #[trigger] r@[i].embedding == Some(
                        embedding_of(*embedder, r@[i].content@),
                    )
                &&& b.len() <= self.chunk_size ==> (r@.len() == 1 && r@[0].content@ == text@)
            }),
    {
        let chunks = chunk_text(text, self.chunk_size);
        let embedded = embed_chunks(embedder, chunks);
        embedded
    }
}

} // verus!
