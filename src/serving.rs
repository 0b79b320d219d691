//! Query serving: server settings, the startup readiness gate, and the
//! steps of answering one query (defaults, context assembly, the
//! generation prompt, and the response or error returned).

use vstd::prelude::*;
use vstd::string::StringExecFns;

use crate::vectordb::{
    hit_contents, readiness_spec, state_of, CollectionState, ProbeReply, StoreError, VectorDB,
};

verus! {

pub const DEFAULT_PORT: u16 = 8000;

pub const DEFAULT_RATE_LIMIT: u32 = 100;

pub const DEFAULT_SEARCH_LIMIT: u64 = 10;

pub const DEFAULT_OPENAI_MODEL: &'static str = "gpt-4.1";

/// Seconds after which one request of a client's budget is given back.
pub const RATE_REPLENISH_SECS: u64 = 60;

/// Status code of every request-scoped failure.
pub const INTERNAL_ERROR: usize = 500;

/// The address the server listens on by default: all interfaces.
pub open spec fn default_host() -> [u8; 4] {
    [0u8, 0u8, 0u8, 0u8]
}

pub open spec fn default_model() -> Seq<char> {
    "gpt-4.1"@
}

pub open spec fn context_separator() -> Seq<char> {
    "\n\n---\n\n"@
}

pub open spec fn prompt_head() -> Seq<char> {
    "Based on this context:\n\n```text\n"@
}

pub open spec fn prompt_middle() -> Seq<char> {
    "\n```\n\n, reply to this query:\n\n```text\n"@
}

pub open spec fn prompt_tail() -> Seq<char> {
    "\n```"@
}

pub open spec fn no_output_detail() -> Seq<char> {
    "No response was generated by OpenAI"@
}

/// `parts` put together with `sep` between each two.
pub open spec fn joined(parts: Seq<Seq<char>>, sep: Seq<char>) -> Seq<char>
    decreases parts.len(),
{
    if parts.len() == 0 {
        Seq::empty()
    } else if parts.len() == 1 {
        parts[0]
    } else {
        joined(parts.drop_last(), sep) + sep + parts.last()
    }
}

/// The generation prompt: the context and the query in a fixed template.
pub open spec fn prompt_of(context: Seq<char>, query: Seq<char>) -> Seq<char> {
    prompt_head() + context + prompt_middle() + query + prompt_tail()
}

/// Logging verbosity of the server.
#[derive(Debug, PartialEq, Eq, Structural, Clone, Copy)]
pub enum LogLevel {
    Trace,
    Debug,
    Info,
    Warn,
    Error,
}

/// Why the server refuses to start.
#[derive(Debug, PartialEq, Eq, Structural, Clone, Copy)]
pub enum ServeError {
    /// The readiness check failed: the collection is missing or unreadable.
    Store(StoreError),
    /// The collection exists but holds no points.
    EmptyCollection,
    /// A budget of zero requests per minute cannot be enforced.
    InvalidRateLimit,
}

/// Per-client rate limit: a budget of `burst` requests, one of which is
/// given back every `replenish_secs` seconds.
#[derive(Debug, PartialEq, Eq, Structural, Clone, Copy)]
pub struct RateQuota {
    pub replenish_secs: u64,
    pub burst: u32,
}

/// The startup gate: the server starts only on a collection that holds
/// points, with a non-zero rate limit.
pub open spec fn startup_spec(ready: Result<bool, StoreError>, rate_limit: u32) -> Result<
    RateQuota,
    ServeError,
> {
    match ready {
        Err(e) => Err(ServeError::Store(e)),
        Ok(false) => Err(ServeError::EmptyCollection),
        Ok(true) => if rate_limit == 0 {
            Err(ServeError::InvalidRateLimit)
        } else {
            Ok(RateQuota { replenish_secs: RATE_REPLENISH_SECS, burst: rate_limit })
        },
    }
}

/// Settings of the query server.
pub struct RagServer {
    pub qdrant_url: String,
    pub openai_api_key: String,
    pub collection_name: String,
    pub port: u16,
    pub host: [u8; 4],
    pub rate_limit_per_minute: u32,
    pub cors: Option<String>,
    pub log_level: LogLevel,
    pub log_json: bool,
}

impl RagServer {
    pub fn new(
        qdrant_url: String,
        openai_api_key: String,
        collection_name: String,
        port: Option<u16>,
        host: Option<[u8; 4]>,
        rate_limit_per_minute: Option<u32>,
        cors: Option<String>,
        log_level: Option<LogLevel>,
        log_json: bool,
    ) -> (r: Self)
        ensures
            r.qdrant_url == qdrant_url,
            r.openai_api_key == openai_api_key,
            r.collection_name == collection_name,
            r.port == (match port {
                Some(p) => p,
                None => DEFAULT_PORT,
            }),
            r.host == (match host {
                Some(h) => h,
                None => default_host(),
            }),
            r.rate_limit_per_minute == (match rate_limit_per_minute {
                Some(n) => n,
                None => DEFAULT_RATE_LIMIT,
            }),
            r.cors == cors,
            r.log_level == (match log_level {
                Some(l) => l,
                None => LogLevel::Info,
            }),
            r.log_json == log_json,
    {
        let server_port = match port {
            Some(p) => p,
            None => DEFAULT_PORT,
        };
        let server_host = match host {
            Some(h) => h,
            None => [0u8, 0u8, 0u8, 0u8],
        };
        let server_rate_limit = match rate_limit_per_minute {
            Some(n) => n,
            None => DEFAULT_RATE_LIMIT,
        };
        let level = match log_level {
            Some(l) => l,
            None => LogLevel::Info,
        };
        RagServer {
            qdrant_url,
            openai_api_key,
            collection_name,
            port: server_port,
            host: server_host,
            rate_limit_per_minute: server_rate_limit,
            cors,
            log_level: level,
            log_json,
        }
    }

    /// The startup gate, from the readiness check made before serving: the
    /// server refuses to start on a missing, unreadable or empty collection,
    /// and otherwise gets its rate-limit quota.
    pub fn startup(&self, ready: Result<bool, StoreError>) -> (r: Result<RateQuota, ServeError>)
        ensures
            r == startup_spec(ready, self.rate_limit_per_minute),
    {
        match ready {
            Err(e) => Err(ServeError::Store(e)),
            Ok(false) => Err(ServeError::EmptyCollection),
            Ok(true) => if self.rate_limit_per_minute == 0 {
                Err(ServeError::InvalidRateLimit)
            } else {
                Ok(RateQuota { replenish_secs: RATE_REPLENISH_SECS, burst: self.rate_limit_per_minute })
            },
        }
    }
}

/// A collection that exists but holds no points never passes the startup
/// gate, whatever the rate limit.
pub proof fn lemma_unready_refused(reply: ProbeReply, rate_limit: u32)
    requires
        state_of(reply) == Some(CollectionState::Empty),
    ensures
        startup_spec(readiness_spec(reply), rate_limit) == Err::<RateQuota, ServeError>(
            ServeError::EmptyCollection,
        ),
{
}

/// One query: its text, and optionally how many passages to retrieve and
/// which generation model to use.
pub struct RagRequest {
    pub query: String,
    pub limit: Option<u64>,
    pub openai_model: Option<String>,
}

impl RagRequest {
    pub fn new(query: String, limit: Option<u64>, openai_model: Option<String>) -> (r: Self)
        ensures
            r.query == query,
            r.limit == limit,
            r.openai_model == openai_model,
    {
        RagRequest { query, limit, openai_model }
    }

    /// How many passages to retrieve.
    pub fn search_limit(&self) -> (r: u64)
        ensures
            r == (match self.limit {
                Some(l) => l,
                None => DEFAULT_SEARCH_LIMIT,
            }),
    {
        match self.limit {
            Some(l) => l,
            None => DEFAULT_SEARCH_LIMIT,
        }
    }

    /// Which generation model to use.
    pub fn model(&self) -> (r: String)
        ensures
            r@ == (match self.openai_model {
                Some(m) => m@,
                None => default_model(),
            }),
    {
        match &self.openai_model {
            Some(m) => m.clone(),
            None => DEFAULT_OPENAI_MODEL.to_owned(),
        }
    }

    /// The prompt for the generation call, grounded in the retrieved
    /// passages.
    pub fn generation_input(&self, retrieved: &Vec<String>) -> (r: String)
        ensures
            r@ == prompt_of(
                joined(retrieved@.map_values(|s: String| s@), context_separator()),
                self.query@,
            ),
    {
        let context = build_context(retrieved);
        build_prompt(context.as_str(), self.query.as_str())
    }
}

/// The answer to a query, with the passages it was grounded in.
pub struct RagResponse {
    pub response: String,
    pub retrieved: Vec<String>,
}

impl RagResponse {
    pub fn new(response: String, retrieved: Vec<String>) -> (r: Self)
        ensures
            r.response == response,
            r.retrieved == retrieved,
    {
        RagResponse { response, retrieved }
    }
}

/// A failed query: a status code and a readable detail.
pub struct RagError {
    pub status_code: usize,
    pub detail: String,
}

impl RagError {
    /// An internal failure, described by `detail` prefixed with `what`.
    fn internal(what: &str, detail: &str) -> (r: Self)
        ensures
            r.status_code == INTERNAL_ERROR,
            r.detail@ == what@ + detail@,
    {
        let mut d = String::new();
        d.append(what);
        d.append(detail);
        RagError { status_code: INTERNAL_ERROR, detail: d }
    }

    /// The search stage failed because of `reason`.
    pub fn search_failed(reason: &str) -> (r: Self)
        ensures
            r.status_code == INTERNAL_ERROR,
            r.detail@ == "Could not retrieve results because of "@ + reason@,
    {
        RagError::internal("Could not retrieve results because of ", reason)
    }

    /// The generation request could not be built because of `reason`.
    pub fn request_failed(reason: &str) -> (r: Self)
        ensures
            r.status_code == INTERNAL_ERROR,
            r.detail@ == "Could not generate an OpenAI request because of "@ + reason@,
    {
        RagError::internal("Could not generate an OpenAI request because of ", reason)
    }

    /// The generation call failed because of `reason`.
    pub fn generation_failed(reason: &str) -> (r: Self)
        ensures
            r.status_code == INTERNAL_ERROR,
            r.detail@ == "Could not generate an OpenAI response because of "@ + reason@,
    {
        RagError::internal("Could not generate an OpenAI response because of ", reason)
    }
}

/// The retrieved passages joined into one context, separated by a rule.
pub fn build_context(retrieved: &Vec<String>) -> (r: String)
    ensures
        r@ == joined(retrieved@.map_values(|s: String| s@), context_separator()),
{
    let ghost parts = retrieved@.map_values(|s: String| s@);
    let mut out = String::new();
    let mut i: usize = 0;
    while i < retrieved.len()
        invariant
            0 <= i <= retrieved@.len(),
            parts == retrieved@.map_values(|s: String| s@),
            out@ == joined(parts.take(i as int), context_separator()),
        decreases retrieved@.len() - i,
    {
        proof {
            assert(parts.take(i + 1).drop_last() =~= parts.take(i as int));
            assert(parts.take(i + 1).last() == retrieved@[i as int]@);
        }
        if i > 0 {
            out.append("\n\n---\n\n");
        } else {
            assert(parts.take(1) =~= seq![retrieved@[0]@]);
            assert(out@ =~= Seq::<char>::empty());
            assert(out@ + retrieved@[0]@ =~= retrieved@[0]@);
        }
        out.append(retrieved[i].as_str());
        i = i + 1;
    }
    assert(parts.take(retrieved@.len() as int) =~= parts);
    out
}

/// The generation prompt for `query` grounded in `context`.
pub fn build_prompt(context: &str, query: &str) -> (r: String)
    ensures
        r@ == prompt_of(context@, query@),
{
    let mut out = String::new();
    out.append("Based on this context:\n\n```text\n");
    out.append(context);
    out.append("\n```\n\n, reply to this query:\n\n```text\n");
    out.append(query);
    out.append("\n```");
    assert(out@ =~= prompt_of(context@, query@));
    out
}

/// How the generation stage ended.
pub enum GenerationOutcome {
    /// The request could not be built, for this reason.
    InvalidRequest(String),
    /// The call failed, for this reason.
    Failed(String),
    /// The call returned, with this text output if any.
    Output(Option<String>),
}

/// The search stage's result: the retrieved passages, in rank order, from
/// the hits the store returned; or, where the search failed because of
/// `reason`, the error reply that ends the request.
pub fn after_search(db: &VectorDB, outcome: Result<Vec<Option<String>>, String>) -> (r: Result<
    Vec<String>,
    RagError,
>)
    ensures
        match outcome {
            Ok(hits) => r matches Ok(passages) && passages@.map_values(|s: String| s@)
                == hit_contents(hits@),
            Err(reason) => r matches Err(e) && e.status_code == INTERNAL_ERROR && e.detail@
                == "Could not retrieve results because of "@ + reason@,
        },
{
    match outcome {
        Ok(hits) => Ok(db.search_contents(&hits)),
        Err(reason) => Err(RagError::search_failed(reason.as_str())),
    }
}

/// The reply to a query once the generation stage has ended: a failed
/// stage or an empty output is an error reply, and otherwise the answer
/// comes with the passages it was grounded in.
pub fn after_generation(outcome: GenerationOutcome, retrieved: Vec<String>) -> (r: Result<
    RagResponse,
    RagError,
>)
    ensures
        match outcome {
            GenerationOutcome::InvalidRequest(reason) => r matches Err(e) && e.status_code
                == INTERNAL_ERROR && e.detail@ == "Could not generate an OpenAI request because of "@
                + reason@,
            GenerationOutcome::Failed(reason) => r matches Err(e) && e.status_code == INTERNAL_ERROR
                && e.detail@ == "Could not generate an OpenAI response because of "@ + reason@,
            GenerationOutcome::Output(Some(text)) if text@.len() > 0 => r matches Ok(resp)
                && resp.response == text && resp.retrieved == retrieved,
            GenerationOutcome::Output(_) => r matches Err(e) && e.status_code == INTERNAL_ERROR
                && e.detail@ == no_output_detail(),
        },
{
    match outcome {
        GenerationOutcome::InvalidRequest(reason) => Err(RagError::request_failed(reason.as_str())),
        GenerationOutcome::Failed(reason) => Err(RagError::generation_failed(reason.as_str())),
        GenerationOutcome::Output(output) => finish(output, retrieved),
    }
}

/// The reply to a query once the generation call has returned `output`:
/// the answer with its passages, or an error where no text came back.
pub fn finish(output: Option<String>, retrieved: Vec<String>) -> (r: Result<RagResponse, RagError>)
    ensures
        match output {
            Some(text) if text@.len() > 0 => r matches Ok(resp) && resp.response == text
                && resp.retrieved == retrieved,
            _ => r matches Err(e) && e.status_code == INTERNAL_ERROR && e.detail@
                == no_output_detail(),
        },
{
    match output {
        Some(text) => {
            if !text.as_str().is_empty() {
                Ok(RagResponse::new(text, retrieved))
            } else {
                Err(no_output())
            }
        },
        None => Err(no_output()),
    }
}

fn no_output() -> (r: RagError)
    ensures
        r.status_code == INTERNAL_ERROR,
        r.detail@ == no_output_detail(),
{
    RagError { status_code: INTERNAL_ERROR, detail: "No response was generated by OpenAI".to_owned() }
}

} // verus!
