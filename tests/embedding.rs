use bm25::{Embedder, EmbedderBuilder, LanguageMode};
use rag_rs::chunking::Chunk;
use rag_rs::embedding::{embed_chunks, embed_text};

fn embedder() -> Embedder {
    EmbedderBuilder::with_avgdl(5.75)
        .language_mode(LanguageMode::Detect)
        .build()
}

#[test]
fn test_embed_chunks() {
    let embedder = embedder();
    let mut chunks: Vec<Chunk> = vec![
        Chunk::from_content("hello world".to_string()),
        Chunk::from_content("bye world".to_string()),
    ];
    chunks = embed_chunks(&embedder, chunks);
    for c in chunks {
        assert!(c.embedding.is_some());
    }
}

#[test]
fn embedding_is_deterministic() {
    let a = embed_text(&embedder(), "the same query text".to_string());
    let b = embed_text(&embedder(), "the same query text".to_string());
    assert_eq!(a, b);
}

#[test]
fn each_chunk_gets_its_own_embedding() {
    let embedder = embedder();
    let chunks = embed_chunks(
        &embedder,
        vec![
            Chunk::from_content("hello world".to_string()),
            Chunk::from_content("bye world".to_string()),
        ],
    );
    assert_eq!(chunks[0].embedding, Some(embedder.embed("hello world")));
    assert_eq!(chunks[1].embedding, Some(embedder.embed("bye world")));
}

#[test]
fn embedding_keeps_contents_and_order() {
    let embedder = embedder();
    let chunks = vec![
        Chunk::from_content("alpha beta".to_string()),
        Chunk::from_content("gamma".to_string()),
    ];
    let chunks = embed_chunks(&embedder, chunks);
    assert_eq!(chunks.len(), 2);
    assert_eq!(chunks[0].content, "alpha beta");
    assert_eq!(chunks[1].content, "gamma");
}

#[test]
fn embed_text_matches_the_embedder() {
    let embedder = embedder();
    let direct = embedder.embed("hello world");
    let through = embed_text(&embedder, "hello world".to_string());
    assert_eq!(direct, through);
    assert!(!through.0.is_empty());
}

#[test]
fn empty_text_embeds_to_an_empty_vector() {
    let embedder = embedder();
    let e = embed_text(&embedder, String::new());
    assert!(e.0.is_empty());
}
