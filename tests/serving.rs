use rag_rs::serving::{
    after_generation, after_search, build_context, build_prompt, finish, GenerationOutcome, LogLevel, RagError, RagRequest, RagResponse, RagServer,
    RateQuota, ServeError, DEFAULT_OPENAI_MODEL, DEFAULT_PORT, DEFAULT_RATE_LIMIT,
    DEFAULT_SEARCH_LIMIT,
};
use rag_rs::vectordb::{ProbeReply, StoreError, VectorDB};

fn server(rate: Option<u32>) -> RagServer {
    RagServer::new(
        "http://localhost:6334".to_string(),
        "SECRET-REDACTED".to_string(),
        "docs".to_string(),
        None,
        None,
        rate,
        None,
        None,
        false,
    )
}

#[test]
fn server_defaults() {
    let s = server(None);
    assert_eq!(s.port, DEFAULT_PORT);
    assert_eq!(s.port, 8000);
    assert_eq!(s.host, [0, 0, 0, 0]);
    assert_eq!(s.rate_limit_per_minute, DEFAULT_RATE_LIMIT);
    assert_eq!(s.rate_limit_per_minute, 100);
    assert_eq!(s.log_level, LogLevel::Info);
    assert_eq!(s.qdrant_url, "http://localhost:6334");
    assert!(s.cors.is_none());
}

#[test]
fn server_keeps_given_settings() {
    let s = RagServer::new(
        "u".to_string(),
        "k".to_string(),
        "c".to_string(),
        Some(9000),
        Some([127, 0, 0, 1]),
        Some(5),
        Some("https://example.org".to_string()),
        Some(LogLevel::Debug),
        true,
    );
    assert_eq!(s.port, 9000);
    assert_eq!(s.host, [127, 0, 0, 1]);
    assert_eq!(s.rate_limit_per_minute, 5);
    assert_eq!(s.cors.as_deref(), Some("https://example.org"));
    assert_eq!(s.log_level, LogLevel::Debug);
    assert!(s.log_json);
}

#[test]
fn startup_refuses_an_empty_collection() {
    let s = server(None);
    let d = VectorDB::new("u".to_string(), "docs".to_string());
    let ready = d.readiness(ProbeReply::Points(0));
    assert_eq!(s.startup(ready), Err(ServeError::EmptyCollection));
}

#[test]
fn startup_refuses_a_missing_collection() {
    let s = server(None);
    assert_eq!(
        s.startup(Err(StoreError::Missing)),
        Err(ServeError::Store(StoreError::Missing))
    );
}

#[test]
fn startup_quota_on_a_loaded_collection() {
    let s = server(Some(7));
    assert_eq!(s.startup(Ok(true)), Ok(RateQuota { replenish_secs: 60, burst: 7 }));
    let zero = server(Some(0));
    assert_eq!(zero.startup(Ok(true)), Err(ServeError::InvalidRateLimit));
}

#[test]
fn request_defaults() {
    let r = RagRequest::new("q".to_string(), None, None);
    assert_eq!(r.search_limit(), DEFAULT_SEARCH_LIMIT);
    assert_eq!(r.search_limit(), 10);
    assert_eq!(r.model(), DEFAULT_OPENAI_MODEL);
    assert_eq!(r.model(), "gpt-4.1");
    let r = RagRequest::new("q".to_string(), Some(3), Some("other".to_string()));
    assert_eq!(r.search_limit(), 3);
    assert_eq!(r.model(), "other");
}

#[test]
fn context_joins_passages() {
    assert_eq!(build_context(&vec![]), "");
    assert_eq!(build_context(&vec!["a".to_string()]), "a");
    assert_eq!(
        build_context(&vec!["a".to_string(), "b".to_string(), "c".to_string()]),
        "a\n\n---\n\nb\n\n---\n\nc"
    );
}

#[test]
fn prompt_template() {
    assert_eq!(
        build_prompt("ctx", "why?"),
        "Based on this context:\n\n```text\nctx\n```\n\n, reply to this query:\n\n```text\nwhy?\n```"
    );
}

#[test]
fn generation_input_grounds_the_query() {
    let r = RagRequest::new("q?".to_string(), None, None);
    let input = r.generation_input(&vec!["x".to_string(), "y".to_string()]);
    assert_eq!(
        input,
        "Based on this context:\n\n```text\nx\n\n---\n\ny\n```\n\n, reply to this query:\n\n```text\nq?\n```"
    );
}

#[test]
fn finish_without_output_is_an_error() {
    match finish(None, vec![]) {
        Err(e) => {
            assert_eq!(e.status_code, 500);
            assert_eq!(e.detail, "No response was generated by OpenAI");
        }
        Ok(_) => panic!("expected an error"),
    }
    assert!(finish(Some(String::new()), vec![]).is_err());
}

#[test]
fn failure_details() {
    let e: RagError = RagError::search_failed("timeout");
    assert_eq!(e.status_code, 500);
    assert_eq!(e.detail, "Could not retrieve results because of timeout");
    let e = RagError::request_failed("bad model");
    assert_eq!(e.detail, "Could not generate an OpenAI request because of bad model");
    let e = RagError::generation_failed("network");
    assert_eq!(e.detail, "Could not generate an OpenAI response because of network");
}

#[test]
fn serving_scenario_returns_the_retrieved_passage() {
    let d = VectorDB::new("u".to_string(), "docs".to_string());
    let hits = vec![Some("Paris is the capital of France.".to_string())];
    let request = RagRequest::new("What is the capital of France?".to_string(), Some(1), None);
    assert_eq!(request.search_limit(), 1);
    let retrieved = d.search_contents(&hits);
    let input = request.generation_input(&retrieved);
    assert!(input.contains("Paris is the capital of France."));
    assert!(input.contains("What is the capital of France?"));
    let reply: RagResponse = match finish(Some("Paris.".to_string()), retrieved) {
        Ok(r) => r,
        Err(_) => panic!("expected a response"),
    };
    assert_eq!(reply.retrieved, vec!["Paris is the capital of France.".to_string()]);
    assert!(!reply.response.is_empty());
}

#[test]
fn rag_response_new_keeps_fields() {
    let r = RagResponse::new("ans".to_string(), vec!["p".to_string()]);
    assert_eq!(r.response, "ans");
    assert_eq!(r.retrieved, vec!["p".to_string()]);
}

#[test]
fn search_stage_failure_is_an_error_reply() {
    let d = VectorDB::new("u".to_string(), "docs".to_string());
    match after_search(&d, Err("connection refused".to_string())) {
        Err(e) => {
            assert_eq!(e.status_code, 500);
            assert_eq!(e.detail, "Could not retrieve results because of connection refused");
        }
        Ok(_) => panic!("expected an error"),
    }
    let passages = after_search(&d, Ok(vec![None, Some("kept".to_string())]));
    assert_eq!(passages.ok(), Some(vec!["kept".to_string()]));
}

#[test]
fn generation_stage_outcomes() {
    let retrieved = vec!["p".to_string()];
    match after_generation(GenerationOutcome::InvalidRequest("no model".to_string()), vec![]) {
        Err(e) => assert_eq!(e.detail, "Could not generate an OpenAI request because of no model"),
        Ok(_) => panic!("expected an error"),
    }
    match after_generation(GenerationOutcome::Failed("timeout".to_string()), vec![]) {
        Err(e) => assert_eq!(e.detail, "Could not generate an OpenAI response because of timeout"),
        Ok(_) => panic!("expected an error"),
    }
    match after_generation(GenerationOutcome::Output(None), vec![]) {
        Err(e) => assert_eq!(e.detail, "No response was generated by OpenAI"),
        Ok(_) => panic!("expected an error"),
    }
    match after_generation(GenerationOutcome::Output(Some("yes".to_string())), retrieved) {
        Ok(r) => {
            assert_eq!(r.response, "yes");
            assert_eq!(r.retrieved, vec!["p".to_string()]);
        }
        Err(_) => panic!("expected a response"),
    }
}
