use bm25::{Embedding, TokenEmbedding};
use rag_rs::chunking::Chunk;
use rag_rs::vectordb::{
    merge_indices, CreateStep, ProbeReply, StoreError, UpdateState, UploadPlan, VectorDB,
    CONTENT_FIELD, SPARSE_FIELD,
};

fn db() -> VectorDB {
    VectorDB::new("http://localhost:6334".to_string(), "docs".to_string())
}

fn embedded(content: &str, pairs: &[(u32, f32)]) -> Chunk {
    let mut c = Chunk::from_content(content.to_string());
    c.embedding = Some(Embedding(
        pairs.iter().map(|&(index, value)| TokenEmbedding { index, value }).collect(),
    ));
    c
}

#[test]
fn vectordb_new_keeps_its_identity() {
    let d = db();
    assert_eq!(d.url, "http://localhost:6334");
    assert_eq!(d.collection_name, "docs");
    assert_eq!(SPARSE_FIELD, "text");
    assert_eq!(CONTENT_FIELD, "content");
}

#[test]
fn sparse_normalization_merges_and_sorts() {
    let raw = [(2u32, 0.5f32), (5, 1.0), (2, 0.3)];
    let indices: Vec<u32> = raw.iter().map(|p| p.0).collect();
    let (unique, slots) = merge_indices(&indices);
    assert_eq!(unique, vec![2, 5]);
    assert_eq!(slots, vec![0, 1, 0]);
    let mut weights = vec![0.0f32; unique.len()];
    for (k, &(_, w)) in raw.iter().enumerate() {
        weights[slots[k]] += w;
    }
    assert!((weights[0] - 0.8).abs() < 1e-6);
    assert!((weights[1] - 1.0).abs() < 1e-6);
}

#[test]
fn merge_of_unsorted_indices() {
    let (unique, slots) = merge_indices(&vec![9, 3, 9, 1, 3, 7]);
    assert_eq!(unique, vec![1, 3, 7, 9]);
    assert_eq!(slots, vec![3, 1, 3, 0, 1, 2]);
}

#[test]
fn merge_of_nothing() {
    let (unique, slots) = merge_indices(&vec![]);
    assert!(unique.is_empty());
    assert!(slots.is_empty());
}

#[test]
fn creation_is_skipped_when_present() {
    let d = db();
    assert_eq!(d.creation_step(true), CreateStep::AlreadyExists);
    assert_eq!(d.creation_step(false), CreateStep::Create);
    assert_eq!(d.creation_result(true), Ok(()));
    assert_eq!(d.creation_result(false), Err(StoreError::CreateRejected));
}

#[test]
fn creating_twice_succeeds_without_a_second_write() {
    let d = db();
    // first call: absent, created and accepted
    assert_eq!(d.creation_step(false), CreateStep::Create);
    assert_eq!(d.creation_result(true), Ok(()));
    // second call: the collection now exists
    assert_eq!(d.creation_step(true), CreateStep::AlreadyExists);
}

#[test]
fn readiness_of_each_reply() {
    let d = db();
    assert_eq!(d.readiness(ProbeReply::Missing), Err(StoreError::Missing));
    assert_eq!(d.readiness(ProbeReply::NoInfo), Err(StoreError::InfoUnavailable));
    assert_eq!(d.readiness(ProbeReply::NoCount), Err(StoreError::CountUnavailable));
    assert_eq!(d.readiness(ProbeReply::Points(0)), Ok(false));
    assert_eq!(d.readiness(ProbeReply::Points(3)), Ok(true));
}

#[test]
fn upload_to_loaded_collection_is_a_no_op() {
    let d = db();
    let chunks = vec![embedded("a", &[(1, 1.0)])];
    assert!(matches!(d.upload_plan(Ok(true), &chunks), Ok(UploadPlan::AlreadyLoaded)));
}

#[test]
fn upload_after_failed_health_check_fails() {
    let d = db();
    let chunks = vec![embedded("a", &[(1, 1.0)])];
    assert!(matches!(
        d.upload_plan(Err(StoreError::Missing), &chunks),
        Err(StoreError::HealthCheckFailed)
    ));
}

#[test]
fn upload_plan_skips_chunks_without_embedding() {
    let d = db();
    let chunks = vec![
        embedded("first", &[(4, 0.1), (2, 0.2), (4, 0.3)]),
        Chunk::from_content("no embedding".to_string()),
        embedded("third", &[(8, 1.0)]),
        embedded("empty vector", &[]),
    ];
    match d.upload_plan(Ok(false), &chunks) {
        Ok(UploadPlan::Upsert(points)) => {
            assert_eq!(points.len(), 2);
            assert_eq!(points[0].id, 1);
            assert_eq!(points[0].position, 0);
            assert_eq!(points[0].raw, vec![4, 2, 4]);
            assert_eq!(points[0].indices, vec![2, 4]);
            assert_eq!(points[0].slots, vec![1, 0, 1]);
            assert_eq!(points[1].id, 3);
            assert_eq!(points[1].position, 2);
            assert_eq!(points[1].indices, vec![8]);
        }
        _ => panic!("expected an upsert"),
    }
}

#[test]
fn upsert_result_of_each_state() {
    let d = db();
    assert_eq!(d.upsert_result(None), Err(StoreError::NoUpsertResult));
    assert_eq!(d.upsert_result(Some(UpdateState::Acknowledged)), Ok(()));
    assert_eq!(d.upsert_result(Some(UpdateState::Completed)), Ok(()));
    assert_eq!(d.upsert_result(Some(UpdateState::Unknown)), Err(StoreError::UpsertRejected));
    assert_eq!(d.upsert_result(Some(UpdateState::ClockRejected)), Err(StoreError::UpsertRejected));
    assert_eq!(d.upsert_result(Some(UpdateState::WaitTimeout)), Err(StoreError::UpsertRejected));
}

#[test]
fn search_drops_hits_without_content() {
    let d = db();
    let hits = vec![
        Some("one".to_string()),
        None,
        Some("two".to_string()),
        None,
    ];
    assert_eq!(d.search_contents(&hits), vec!["one".to_string(), "two".to_string()]);
    assert!(d.search_contents(&vec![None, None]).is_empty());
}

#[test]
fn upload_plan_of_only_empty_vectors_has_no_points() {
    let d = db();
    let chunks = vec![embedded("", &[]), embedded("", &[])];
    match d.upload_plan(Ok(false), &chunks) {
        Ok(UploadPlan::Upsert(points)) => assert!(points.is_empty()),
        _ => panic!("expected an upsert"),
    }
}
