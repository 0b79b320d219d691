//! Retrieval-augmented query service: content cache layout, chunking,
//! sparse-vector preparation, vector-store gateway decisions and the
//! query-serving orchestration.

pub mod caching;
pub mod chunking;
pub mod embedding;
pub mod parsing;
pub mod pipeline;
pub mod serving;
pub mod vectordb;
