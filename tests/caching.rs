use rag_rs::caching::{Cache, DEFAULT_CACHE_DIR, DEFAULT_CHUNK_SIZE};

#[test]
fn test_correct_cache_init() {
    let cache = Cache::new(None, None);
    assert_eq!(cache.chunk_size, DEFAULT_CHUNK_SIZE);
    assert_eq!(cache.directory, DEFAULT_CACHE_DIR);
    let cache_1 = Cache::new(Some("data/cache".to_string()), Some(1024_usize));
    assert_eq!(cache_1.directory, "data/cache".to_string());
    assert_eq!(cache_1.chunk_size, 1024_usize);
}

#[test]
fn cache_defaults_are_the_documented_ones() {
    let cache = Cache::new(None, None);
    assert_eq!(cache.directory, "./.rag-rs-cache");
    assert_eq!(cache.chunk_size, 1024);
}

#[test]
fn segments_rejoin_for_every_chunk_size() {
    let content = b"this is a test".to_vec();
    for n in 1..=20usize {
        let cache = Cache::new(None, Some(n));
        let segments = cache.segments(&content);
        let joined: Vec<u8> = segments.concat();
        assert_eq!(joined, content);
        for (i, s) in segments.iter().enumerate() {
            assert!(!s.is_empty());
            if i + 1 < segments.len() {
                assert_eq!(s.len(), n);
            } else {
                assert!(s.len() <= n);
            }
        }
    }
}

#[test]
fn segments_exact_split() {
    let cache = Cache::new(None, Some(4));
    let segments = cache.segments(b"abcdefghij");
    assert_eq!(segments, vec![b"abcd".to_vec(), b"efgh".to_vec(), b"ij".to_vec()]);
}

#[test]
fn segments_of_empty_content() {
    let cache = Cache::new(None, None);
    assert!(cache.segments(b"").is_empty());
}

#[test]
fn segments_content_shorter_than_chunk() {
    let cache = Cache::new(None, Some(1024));
    let segments = cache.segments(b"this is a test");
    assert_eq!(segments, vec![b"this is a test".to_vec()]);
}
