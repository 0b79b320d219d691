//! Vector-store gateway: the decisions around one named collection with a
//! single sparse-vector field. The remote calls are made by the caller, who
//! hands each reply back as a plain value.

use vstd::prelude::*;

use crate::chunking::Chunk;
use crate::embedding::{indices_of, term_indices};

verus! {

/// Name of the collection's one sparse-vector field.
pub const SPARSE_FIELD: &'static str = "text";

/// Payload key under which a point carries its chunk text.
pub const CONTENT_FIELD: &'static str = "content";

/// Why an operation on the collection failed.
#[derive(Debug, PartialEq, Eq, Structural, Clone, Copy)]
pub enum StoreError {
    /// The collection does not exist.
    Missing,
    /// The store returned no information about the collection.
    InfoUnavailable,
    /// The store did not say how many points the collection holds.
    CountUnavailable,
    /// The store refused to create the collection.
    CreateRejected,
    /// The readiness check made before an upload failed.
    HealthCheckFailed,
    /// The bulk upsert returned no result.
    NoUpsertResult,
    /// The bulk upsert was not applied.
    UpsertRejected,
}

/// What the store said when asked about the collection.
#[derive(Debug, PartialEq, Eq, Structural, Clone, Copy)]
pub enum ProbeReply {
    /// The collection does not exist.
    Missing,
    /// It exists, but no collection information came back.
    NoInfo,
    /// Information came back without a point count.
    NoCount,
    /// It exists and holds this many points.
    Points(u64),
}

/// The state of an update as the store reports it.
#[derive(Debug, PartialEq, Eq, Structural, Clone, Copy)]
pub enum UpdateState {
    Unknown,
    Acknowledged,
    Completed,
    ClockRejected,
    WaitTimeout,
}

/// The collection as observed through the gateway.
#[derive(Debug, PartialEq, Eq, Structural, Clone, Copy)]
pub enum CollectionState {
    Absent,
    Empty,
    Loaded,
}

/// What `create_collection` must do next.
#[derive(Debug, PartialEq, Eq, Structural, Clone, Copy)]
pub enum CreateStep {
    /// The collection is there already: nothing is written.
    AlreadyExists,
    /// Create it, with the single sparse field.
    Create,
}

/// One point to upsert: the chunk at `position`, under `id`, with the raw
/// term indices of its embedding merged into `indices` (unique, ascending).
/// The raw entry `k` contributes its weight to `indices[slots[k]]`.
pub struct PointPlan {
    pub id: u64,
    pub position: usize,
    pub raw: Vec<u32>,
    pub indices: Vec<u32>,
    pub slots: Vec<usize>,
}

/// What an upload does.
pub enum UploadPlan {
    /// The collection already holds points: nothing is written.
    AlreadyLoaded,
    /// Upsert these points, as one batch.
    Upsert(Vec<PointPlan>),
}

/// The collection state that a probe reply shows, where it shows one.
pub open spec fn state_of(reply: ProbeReply) -> Option<CollectionState> {
    match reply {
        ProbeReply::Missing => Some(CollectionState::Absent),
        ProbeReply::Points(p) => Some(if p > 0 { CollectionState::Loaded } else { CollectionState::Empty }),
        _ => None,
    }
}

/// Readiness as judged from a probe reply.
pub open spec fn readiness_spec(reply: ProbeReply) -> Result<bool, StoreError> {
    match reply {
        ProbeReply::Missing => Err(StoreError::Missing),
        ProbeReply::NoInfo => Err(StoreError::InfoUnavailable),
        ProbeReply::NoCount => Err(StoreError::CountUnavailable),
        ProbeReply::Points(p) => Ok(p > 0),
    }
}

/// What `create_collection` does: it creates only an absent collection.
pub open spec fn creation_spec(exists: bool) -> CreateStep {
    if exists {
        CreateStep::AlreadyExists
    } else {
        CreateStep::Create
    }
}

/// The outcome of a creation request that the store accepted or refused.
pub open spec fn creation_result_spec(accepted: bool) -> Result<(), StoreError> {
    if accepted {
        Ok(())
    } else {
        Err(StoreError::CreateRejected)
    }
}

/// The outcome of `create_collection` on a collection in state `s`, where
/// `accepted` is the store's answer to a creation request if one is made.
pub open spec fn create_outcome(s: CollectionState, accepted: bool) -> Result<(), StoreError> {
    match creation_spec(s != CollectionState::Absent) {
        CreateStep::AlreadyExists => Ok(()),
        CreateStep::Create => creation_result_spec(accepted),
    }
}

/// The state after `create_collection`: only an accepted creation request
/// changes it, from absent to empty.
pub open spec fn after_create(s: CollectionState, accepted: bool) -> CollectionState {
    match creation_spec(s != CollectionState::Absent) {
        CreateStep::AlreadyExists => s,
        CreateStep::Create => if accepted {
            CollectionState::Empty
        } else {
            s
        },
    }
}

/// Creating the collection a second time right after a successful first
/// creation writes nothing, succeeds whatever the store would answer, and leaves
/// the collection as the first call left it.
pub proof fn lemma_create_twice(s: CollectionState, first: bool, second: bool)
    requires
        create_outcome(s, first) is Ok,
    ensures
        after_create(s, first) != CollectionState::Absent,
        creation_spec(after_create(s, first) != CollectionState::Absent) == CreateStep::AlreadyExists,
        create_outcome(after_create(s, first), second) == Ok::<(), StoreError>(()),
        after_create(after_create(s, first), second) == after_create(s, first),
{
}

/// A collection that holds points reads as ready, so an upload made
/// against it is the no-op `UploadPlan::AlreadyLoaded`.
pub proof fn lemma_loaded_is_ready(reply: ProbeReply)
    requires
        state_of(reply) == Some(CollectionState::Loaded),
    ensures
        readiness_spec(reply) == Ok::<bool, StoreError>(true),
{
}

/// `indices` holds each value of `raw` once, in ascending order, and
/// `slots` sends every raw entry to the place of its value.
pub open spec fn merged(raw: Seq<u32>, indices: Seq<u32>, slots: Seq<usize>) -> bool {
    &&& forall|a: int, b: int| 0 <= a < b < indices.len() ==> indices[a] < indices[b]
    &&& forall|j: int| 0 <= j < indices.len() ==> raw.contains(#[trigger] indices[j])
    &&& slots.len() == raw.len()
    &&& forall|k: int| 0 <= k < raw.len() ==> {
        &&& (#[trigger] slots[k]) < indices.len()
        &&& indices[slots[k] as int] == raw[k]
    }
}

/// A chunk is uploaded when it carries a non-empty embedding.
pub open spec fn uploadable(c: Chunk) -> bool {
    match c.embedding {
        Some(e) => indices_of(e).len() > 0,
        None => false,
    }
}

/// The term indices of a chunk's embedding; none without one.
pub open spec fn chunk_indices(c: Chunk) -> Seq<u32> {
    match c.embedding {
        Some(e) => indices_of(e),
        None => Seq::empty(),
    }
}

/// Positions `0..n` of `chunks` whose chunk is uploaded.
pub open spec fn embedded_positions(chunks: Seq<Chunk>, n: int) -> Seq<int> {
    Seq::new(n as nat, |i: int| i).filter(|i: int| uploadable(chunks[i]))
}

/// `points` holds one point for each chunk with a non-empty embedding, in
/// order; a point's id is its chunk's 1-based position in the batch, and
/// its raw indices are those of the chunk's embedding.
pub open spec fn plans_points(chunks: Seq<Chunk>, points: Seq<PointPlan>) -> bool {
    let pos = embedded_positions(chunks, chunks.len() as int);
    &&& points.len() == pos.len()
    &&& forall|j: int| 0 <= j < points.len() ==> {
        &&& (#[trigger] points[j]).position == pos[j]
        &&& points[j].id == pos[j] + 1
        &&& points[j].raw@ == chunk_indices(chunks[pos[j]])
        &&& merged(points[j].raw@, points[j].indices@, points[j].slots@)
    }
}

/// The contents carried by the hits that have one, in hit order.
pub open spec fn hit_contents(hits: Seq<Option<String>>) -> Seq<Seq<char>>
    decreases hits.len(),
{
    if hits.len() == 0 {
        Seq::empty()
    } else {
        let rest = hit_contents(hits.drop_last());
        match hits.last() {
            Some(c) => rest.push(c@),
            None => rest,
        }
    }
}

/// Handle on one named collection of a vector index.
#[derive(Debug, Clone)]
pub struct VectorDB {
    pub collection_name: String,
    pub url: String,
}

impl VectorDB {
    pub fn new(url: String, collection_name: String) -> (r: Self)
        ensures
            r.url == url,
            r.collection_name == collection_name,
    {
        VectorDB { collection_name, url }
    }

    /// Creation is idempotent: only an absent collection is created.
    pub fn creation_step(&self, exists: bool) -> (r: CreateStep)
        ensures
            r == creation_spec(exists),
    {
        if exists {
            CreateStep::AlreadyExists
        } else {
            CreateStep::Create
        }
    }

    /// The outcome of a creation request that the store accepted or not.
    pub fn creation_result(&self, accepted: bool) -> (r: Result<(), StoreError>)
        ensures
            r == creation_result_spec(accepted),
    {
        if accepted {
            Ok(())
        } else {
            Err(StoreError::CreateRejected)
        }
    }

    /// Whether the collection exists and holds at least one point. A
    /// missing collection is an error; an empty one is `false`.
    pub fn readiness(&self, reply: ProbeReply) -> (r: Result<bool, StoreError>)
        ensures
            r == readiness_spec(reply),
    {
        match reply {
            ProbeReply::Missing => Err(StoreError::Missing),
            ProbeReply::NoInfo => Err(StoreError::InfoUnavailable),
            ProbeReply::NoCount => Err(StoreError::CountUnavailable),
            ProbeReply::Points(p) => Ok(p > 0),
        }
    }

    /// Decides an upload from the readiness check made just before it: a
    /// failed check fails the upload, a loaded collection makes it a no-op,
    /// and otherwise every chunk with a non-empty embedding becomes a point;
    /// the others are skipped.
    pub fn upload_plan(&self, ready: Result<bool, StoreError>, chunks: &Vec<Chunk>) -> (r: Result<
        UploadPlan,
        StoreError,
    >)
        ensures
            ready is Err ==> r == Err::<UploadPlan, StoreError>(StoreError::HealthCheckFailed),
            ready == Ok::<bool, StoreError>(true) ==> r matches Ok(UploadPlan::AlreadyLoaded),
            ready == Ok::<bool, StoreError>(false) ==> (r matches Ok(UploadPlan::Upsert(points))
                && plans_points(chunks@, points@)),
    {
        match ready {
            Err(_) => Err(StoreError::HealthCheckFailed),
            Ok(true) => Ok(UploadPlan::AlreadyLoaded),
            Ok(false) => Ok(UploadPlan::Upsert(plan_points(chunks))),
        }
    }

    /// The outcome of the bulk upsert, from the state it reported.
    pub fn upsert_result(&self, state: Option<UpdateState>) -> (r: Result<(), StoreError>)
        ensures
            r == (match state {
                None => Err(StoreError::NoUpsertResult),
                Some(UpdateState::Acknowledged) => Ok(()),
                Some(UpdateState::Completed) => Ok(()),
                Some(_) => Err(StoreError::UpsertRejected),
            }),
    {
        match state {
            None => Err(StoreError::NoUpsertResult),
            Some(UpdateState::Acknowledged) => Ok(()),
            Some(UpdateState::Completed) => Ok(()),
            Some(_) => Err(StoreError::UpsertRejected),
        }
    }

    /// The retrieved texts, in rank order: the `content` of each hit that
    /// has one; hits without it are dropped.
    pub fn search_contents(&self, hits: &Vec<Option<String>>) -> (r: Vec<String>)
        ensures
            r@.map_values(|s: String| s@) == hit_contents(hits@),
    {
        let mut out: Vec<String> = Vec::new();
        let mut i: usize = 0;
        while i < hits.len()
            invariant
                0 <= i <= hits@.len(),
                out@.map_values(|s: String| s@) == hit_contents(hits@.take(i as int)),
            decreases hits@.len() - i,
        {
            proof {
                assert(hits@.take(i + 1).drop_last() =~= hits@.take(i as int));
            }
            let ghost before = out@.map_values(|s: String| s@);
            match &hits[i] {
                Some(c) => {
                    out.push(c.clone());
                    assert(out@.map_values(|s: String| s@) =~= before.push(c@));
                },
                None => {},
            }
            i = i + 1;
        }
        assert(hits@.take(hits@.len() as int) =~= hits@);
        out
    }
}

/// One point per chunk with a non-empty embedding, in order.
fn plan_points(chunks: &Vec<Chunk>) -> (r: Vec<PointPlan>)
    ensures
        plans_points(chunks@, r@),
{
    let mut out: Vec<PointPlan> = Vec::new();
    let mut i: usize = 0;
    while i < chunks.len()
        invariant
            0 <= i <= chunks@.len(),
            ({
                let pos = embedded_positions(chunks@, i as int);
                &&& out@.len() == pos.len()
                &&& forall|j: int| 0 <= j < out@.len() ==> {
                    &&& (#[trigger] out@[j]).position == pos[j]
                    &&& out@[j].id == pos[j] + 1
                    &&& out@[j].raw@ == chunk_indices(chunks@[pos[j]])
                    &&& merged(out@[j].raw@, out@[j].indices@, out@[j].slots@)
                }
            }),
        decreases chunks@.len() - i,
    {
        let ghost prev = embedded_positions(chunks@, i as int);
        proof {
            let s = Seq::new((i + 1) as nat, |k: int| k);
            assert(s.drop_last() =~= Seq::new(i as nat, |k: int| k));
            assert(s.last() == i as int);
            reveal(Seq::filter);
            assert(embedded_positions(chunks@, i + 1) == (if uploadable(chunks@[i as int]) {
                prev.push(i as int)
            } else {
                prev
            }));
        }
        match &chunks[i] {
            Chunk { embedding: Some(e), .. } => {
                let raw = term_indices(e);
                if raw.len() > 0 {
                    let (indices, slots) = merge_indices(&raw);
                    out.push(PointPlan { id: i as u64 + 1, position: i, raw, indices, slots });
                    assert(embedded_positions(chunks@, i + 1) == prev.push(i as int));
                } else {
                    assert(embedded_positions(chunks@, i + 1) == prev);
                }
            },
            _ => {
                assert(embedded_positions(chunks@, i + 1) == prev);
            },
        }
        i = i + 1;
    }
    out
}

/// The first place in the ascending `indices` whose value is at least `v`.
fn lower_bound(indices: &Vec<u32>, v: u32) -> (r: usize)
    requires
        forall|a: int, b: int| 0 <= a < b < indices@.len() ==> indices@[a] < indices@[b],
    ensures
        r <= indices@.len(),
        forall|j: int| 0 <= j < r ==> indices@[j] < v,
        r < indices@.len() ==> v <= indices@[r as int],
{
    let mut j: usize = 0;
    while j < indices.len() && indices[j] < v
        invariant
            j <= indices@.len(),
            forall|k: int| 0 <= k < j ==> indices@[k] < v,
        decreases indices@.len() - j,
    {
        j = j + 1;
    }
    j
}

/// Merges duplicate term indices: the distinct values of `raw` in
/// ascending order, and for each raw entry the place of its value.
pub fn merge_indices(raw: &Vec<u32>) -> (r: (Vec<u32>, Vec<usize>))
    ensures
        merged(raw@, r.0@, r.1@),
{
    let mut indices: Vec<u32> = Vec::new();
    let mut i: usize = 0;
    while i < raw.len()
        invariant
            0 <= i <= raw@.len(),
            forall|a: int, b: int| 0 <= a < b < indices@.len() ==> indices@[a] < indices@[b],
            forall|j: int| 0 <= j < indices@.len() ==> raw@.contains(#[trigger] indices@[j]),
            forall|k: int| 0 <= k < i ==> indices@.contains(#[trigger] raw@[k]),
        decreases raw@.len() - i,
    {
        let v = raw[i];
        let p = lower_bound(&indices, v);
        if p < indices.len() && indices[p] == v {
            assert(indices@.contains(raw@[i as int]));
        } else {
            let ghost old_indices = indices@;
            indices.insert(p, v);
            assert(indices@ == old_indices.insert(p as int, v));
            assert forall|a: int, b: int| 0 <= a < b < indices@.len() implies indices@[a]
                < indices@[b] by {
                if b < p {
                } else if a < p && b == p {
                } else if a < p {
                    assert(indices@[b] == old_indices[b - 1]);
                } else if a == p {
                    assert(indices@[b] == old_indices[b - 1]);
                    assert(old_indices[p as int] >= v);
                    assert(b - 1 == p || old_indices[p as int] < old_indices[b - 1]);
                } else {
                    assert(indices@[a] == old_indices[a - 1]);
                    assert(indices@[b] == old_indices[b - 1]);
                }
            }
            assert forall|j: int| 0 <= j < indices@.len() implies raw@.contains(
                #[trigger] indices@[j],
            ) by {
                if j < p {
                    assert(indices@[j] == old_indices[j]);
                } else if j == p {
                    assert(raw@[i as int] == v);
                } else {
                    assert(indices@[j] == old_indices[j - 1]);
                }
            }
            assert forall|k: int| 0 <= k <= i implies indices@.contains(#[trigger] raw@[k]) by {
                if k == i {
                    assert(indices@[p as int] == v);
                } else {
                    let w = choose|w: int| 0 <= w < old_indices.len() && old_indices[w] == raw@[k];
                    if w < p {
                        assert(indices@[w] == raw@[k]);
                    } else {
                        assert(indices@[w + 1] == raw@[k]);
                    }
                }
            }
        }
        i = i + 1;
    }
    let mut slots: Vec<usize> = Vec::new();
    let mut k: usize = 0;
    while k < raw.len()
        invariant
            0 <= k <= raw@.len(),
            forall|a: int, b: int| 0 <= a < b < indices@.len() ==> indices@[a] < indices@[b],
            forall|j: int| 0 <= j < raw@.len() ==> indices@.contains(#[trigger] raw@[j]),
            slots@.len() == k,
            forall|j: int| 0 <= j < k ==> {
                &&& (#[trigger] slots@[j]) < indices@.len()
                &&& indices@[slots@[j] as int] == raw@[j]
            },
        decreases raw@.len() - k,
    {
        let v = raw[k];
        let p = lower_bound(&indices, v);
        proof {
            assert(indices@.contains(raw@[k as int]));
            let w = choose|w: int| 0 <= w < indices@.len() && indices@[w] == v;
            if w < p {
            } else if w > p {
                assert(indices@[p as int] < indices@[w]);
            }
        }
        slots.push(p);
        k = k + 1;
    }
    (indices, slots)
}

} // verus!
