//! Document intake: which files of a directory are read and how, and the
//! decisions of the remote batch-parsing workflow (endpoints, the ids it
//! hands out, and when to stop polling a job).

use vstd::prelude::*;
use vstd::string::StringExecFns;
use vstd::utf8::encode_utf8;

verus! {

pub const LLAMA_CLOUD_BASE_URL: &'static str = "https://api.cloud.llamaindex.ai";

pub const LLAMA_CLOUD_EU_BASE_URL: &'static str = "https://api.cloud.eu.llamaindex.ai";

/// Seconds before a request to the parsing service is abandoned.
pub const DEFAULT_TIMEOUT: u64 = 180;

pub const DEFAULT_PAGE_SIZE: i32 = 100;

pub const DEFAULT_CONTINUE_AS_NEW_THRESHOLD: i32 = 10;

pub const DEFAULT_MAX_POLLING_ATTEMPTS: u64 = 180;

/// Seconds between two polls of a job.
pub const DEFAULT_POLLING_INTERVAL: u64 = 10;

/// How a file of the input directory is turned into text.
#[derive(Debug, PartialEq, Eq, Structural, Clone, Copy)]
pub enum DocumentKind {
    /// A binary document whose text must be extracted.
    Extractable,
    /// Plain text, read as it is.
    PlainText,
    /// Skipped with a warning.
    Unsupported,
}

/// Why a step of the remote workflow cannot be taken yet.
#[derive(Debug, PartialEq, Eq, Structural, Clone, Copy)]
pub enum ParseError {
    /// No directory has been created on the service.
    NoDirectory,
    /// No batch job has been created.
    NoBatchJob,
}

/// What one poll of a batch job returned.
pub enum JobReply {
    /// The service answered with an error status.
    Unavailable,
    /// The job's status.
    Status(String),
}

/// What to do after a poll.
#[derive(Debug, PartialEq, Eq, Structural, Clone, Copy)]
pub enum PollStep {
    /// The job has ended.
    Finished,
    /// Sleep this many seconds, then poll again.
    Wait(u64),
    /// No attempt is left: the job never ended.
    GiveUp,
}

/// Whether the bytes `s` end with the bytes `suffix`.
pub open spec fn ends_with(s: Seq<u8>, suffix: Seq<u8>) -> bool {
    suffix.len() <= s.len() && s.subrange(s.len() - suffix.len(), s.len() as int) == suffix
}

/// How a file is read, from the extension of its name.
pub open spec fn kind_of(name: Seq<char>) -> DocumentKind {
    let b = encode_utf8(name);
    if ends_with(b, encode_utf8(".pdf"@)) {
        DocumentKind::Extractable
    } else if ends_with(b, encode_utf8(".txt"@)) || ends_with(b, encode_utf8(".md"@)) {
        DocumentKind::PlainText
    } else {
        DocumentKind::Unsupported
    }
}

/// The job statuses after which a batch job makes no more progress.
pub open spec fn is_terminal(status: Seq<char>) -> bool {
    status == "completed"@ || status == "failed"@ || status == "cancelled"@
}

/// Whether the bytes of `s` end with the bytes of `suffix`.
fn has_suffix(s: &str, suffix: &str) -> (r: bool)
    ensures
        r == ends_with(encode_utf8(s@), encode_utf8(suffix@)),
{
    let sb = s.as_bytes();
    let tb = suffix.as_bytes();
    if tb.len() > sb.len() {
        return false;
    }
    let slen = sb.len();
    let off = slen - tb.len();
    let mut i: usize = 0;
    while i < tb.len()
        invariant
            sb@ == encode_utf8(s@),
            tb@ == encode_utf8(suffix@),
            slen == sb@.len(),
            tb@.len() <= sb@.len(),
            off == sb@.len() - tb@.len(),
            i <= tb@.len(),
            forall|k: int| 0 <= k < i ==> sb@[off + k] == tb@[k],
        decreases tb@.len() - i,
    {
        if sb[off + i] != tb[i] {
            assert(sb@.subrange(off as int, sb@.len() as int)[i as int] != tb@[i as int]);
            return false;
        }
        i = i + 1;
    }
    assert(sb@.subrange(off as int, sb@.len() as int) =~= tb@);
    true
}

/// How the file called `name` is turned into text.
pub fn document_kind(name: &str) -> (r: DocumentKind)
    ensures
        r == kind_of(name@),
{
    if has_suffix(name, ".pdf") {
        DocumentKind::Extractable
    } else if has_suffix(name, ".txt") || has_suffix(name, ".md") {
        DocumentKind::PlainText
    } else {
        DocumentKind::Unsupported
    }
}

/// Whether a job in `status` has ended.
pub fn is_terminal_status(status: &String) -> (r: bool)
    ensures
        r == is_terminal(status@),
{
    let completed = "completed".to_owned();
    let failed = "failed".to_owned();
    let cancelled = "cancelled".to_owned();
    *status == completed || *status == failed || *status == cancelled
}

/// Client of the remote batch-parsing service for one directory.
pub struct Parser {
    pub api_key: String,
    pub base_url: String,
    pub directory_id: Option<String>,
    pub batch_job_id: Option<String>,
    pub directory_path: String,
    pub directory_description: Option<String>,
    pub max_polling_attempts: u64,
    pub polling_interval: u64,
}

impl Parser {
    pub fn new(
        directory_path: String,
        directory_description: Option<String>,
        eu: bool,
        api_key: String,
        max_polling_attempts: Option<u64>,
        polling_interval: Option<u64>,
    ) -> (r: Self)
        ensures
            r.directory_path == directory_path,
            r.directory_description == directory_description,
            r.api_key == api_key,
            r.base_url@ == (if eu {
                "https://api.cloud.eu.llamaindex.ai"@
            } else {
                "https://api.cloud.llamaindex.ai"@
            }),
            r.directory_id.is_none(),
            r.batch_job_id.is_none(),
            r.max_polling_attempts == (match max_polling_attempts {
                Some(p) => p,
                None => DEFAULT_MAX_POLLING_ATTEMPTS,
            }),
            r.polling_interval == (match polling_interval {
                Some(p) => p,
                None => DEFAULT_POLLING_INTERVAL,
            }),
    {
        let base_url = if eu {
            LLAMA_CLOUD_EU_BASE_URL.to_owned()
        } else {
            LLAMA_CLOUD_BASE_URL.to_owned()
        };
        let pollings = match max_polling_attempts {
            Some(p) => p,
            None => DEFAULT_MAX_POLLING_ATTEMPTS,
        };
        let interval = match polling_interval {
            Some(p) => p,
            None => DEFAULT_POLLING_INTERVAL,
        };
        Parser {
            api_key,
            base_url,
            directory_id: None,
            batch_job_id: None,
            directory_path,
            directory_description,
            max_polling_attempts: pollings,
            polling_interval: interval,
        }
    }

    /// The value of the authorization header.
    pub fn authorization(&self) -> (r: String)
        ensures
            r@ == "Bearer "@ + self.api_key@,
    {
        let mut out = "Bearer ".to_owned();
        out.append(self.api_key.as_str());
        out
    }

    /// Where directories are created.
    pub fn directories_url(&self) -> (r: String)
        ensures
            r@ == self.base_url@ + "/api/v1/beta/directories"@,
    {
        let mut out = self.base_url.clone();
        out.append("/api/v1/beta/directories");
        out
    }

    /// Where batch jobs are created.
    pub fn batch_url(&self) -> (r: String)
        ensures
            r@ == self.base_url@ + "/api/v1/beta/batch-processing"@,
    {
        let mut out = self.base_url.clone();
        out.append("/api/v1/beta/batch-processing");
        out
    }

    /// The directory created on the service; files are uploaded to it and
    /// the batch job is created over it.
    pub fn require_directory(&self) -> (r: Result<&String, ParseError>)
        ensures
            match self.directory_id {
                Some(d) => r == Ok::<&String, ParseError>(&d),
                None => r == Err::<&String, ParseError>(ParseError::NoDirectory),
            },
    {
        match &self.directory_id {
            Some(d) => Ok(d),
            None => Err(ParseError::NoDirectory),
        }
    }

    /// Where the files of the directory are uploaded.
    pub fn upload_url(&self) -> (r: Result<String, ParseError>)
        ensures
            match self.directory_id {
                Some(d) => r matches Ok(u) && u@ == self.base_url@ + "/api/v1/beta/directories/"@
                    + d@ + "/files/upload"@,
                None => r == Err::<String, ParseError>(ParseError::NoDirectory),
            },
    {
        match &self.directory_id {
            Some(d) => {
                let mut out = self.base_url.clone();
                out.append("/api/v1/beta/directories/");
                out.append(d.as_str());
                out.append("/files/upload");
                Ok(out)
            },
            None => Err(ParseError::NoDirectory),
        }
    }

    /// Where the batch job is polled.
    pub fn job_url(&self) -> (r: Result<String, ParseError>)
        ensures
            match self.batch_job_id {
                Some(j) => r matches Ok(u) && u@ == self.base_url@
                    + "/api/v1/beta/batch-processing/"@ + j@,
                None => r == Err::<String, ParseError>(ParseError::NoBatchJob),
            },
    {
        match &self.batch_job_id {
            Some(j) => {
                let mut out = self.base_url.clone();
                out.append("/api/v1/beta/batch-processing/");
                out.append(j.as_str());
                Ok(out)
            },
            None => Err(ParseError::NoBatchJob),
        }
    }

    /// Records the directory the service created.
    pub fn set_directory_id(&mut self, id: String)
        ensures
            final(self).directory_id == Some(id),
            final(self).batch_job_id == old(self).batch_job_id,
            final(self).base_url == old(self).base_url,
            final(self).api_key == old(self).api_key,
            final(self).max_polling_attempts == old(self).max_polling_attempts,
            final(self).polling_interval == old(self).polling_interval,
    {
        self.directory_id = Some(id);
    }

    /// Records the batch job the service created.
    pub fn set_batch_job_id(&mut self, id: String)
        ensures
            final(self).batch_job_id == Some(id),
            final(self).directory_id == old(self).directory_id,
            final(self).base_url == old(self).base_url,
            final(self).api_key == old(self).api_key,
            final(self).max_polling_attempts == old(self).max_polling_attempts,
            final(self).polling_interval == old(self).polling_interval,
    {
        self.batch_job_id = Some(id);
    }

    /// What follows poll number `attempt` (from 0): an ended job is
    /// finished; otherwise the next poll comes after the interval, while
    /// attempts remain.
    pub fn poll_step(&self, attempt: u64, reply: &JobReply) -> (r: PollStep)
        requires
            attempt < self.max_polling_attempts,
        ensures
            match reply {
                JobReply::Status(s) if is_terminal(s@) => r == PollStep::Finished,
                _ => r == (if attempt + 1 < self.max_polling_attempts {
                    PollStep::Wait(self.polling_interval)
                } else {
                    PollStep::GiveUp
                }),
            },
    {
        let ended = match reply {
            JobReply::Status(s) => is_terminal_status(s),
            JobReply::Unavailable => false,
        };
        if ended {
            PollStep::Finished
        } else if attempt + 1 < self.max_polling_attempts {
            PollStep::Wait(self.polling_interval)
        } else {
            PollStep::GiveUp
        }
    }
}

} // verus!
