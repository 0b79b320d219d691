//! Content cache configuration and the segmentation of cached content
//! into fixed-size writes.

use vstd::prelude::*;

verus! {

/// Directory used when no cache directory is configured.
pub const DEFAULT_CACHE_DIR: &'static str = "./.rag-rs-cache";

/// Segment size used when none is configured.
pub const DEFAULT_CHUNK_SIZE: usize = 1024;

pub open spec fn default_cache_dir() -> Seq<char> {
    "./.rag-rs-cache"@
}

/// The fixed-size segments in which `s` is written: every segment holds
/// `n` bytes but the last, which holds what remains.
pub open spec fn segments_of(s: Seq<u8>, n: nat) -> Seq<Seq<u8>>
    decreases s.len(),
{
    if s.len() == 0 || n == 0 {
        Seq::empty()
    } else if s.len() <= n {
        seq![s]
    } else {
        seq![s.take(n as int)] + segments_of(s.skip(n as int), n)
    }
}

/// Content-addressable store settings: where entries live and how large
/// each write is.
pub struct Cache {
    pub directory: String,
    pub chunk_size: usize,
}

impl Cache {
    pub fn new(directory: Option<String>, chunk_size: Option<usize>) -> (r: Self)
        ensures
            r.directory@ == (match directory {
                Some(d) => d@,
                None => default_cache_dir(),
            }),
            r.chunk_size == (match chunk_size {
                Some(c) => c,
                None => DEFAULT_CHUNK_SIZE,
            }),
    {
        let cache_dir = match directory {
            Some(s) => s,
            None => {
                proof {
                    reveal_strlit("./.rag-rs-cache");
                }
                DEFAULT_CACHE_DIR.to_owned()
            },
        };
        let cache_chunk_size = match chunk_size {
            Some(c) => c,
            None => DEFAULT_CHUNK_SIZE,
        };
        Cache { directory: cache_dir, chunk_size: cache_chunk_size }
    }

    /// Splits `content` into the successive writes made when it is stored.
    pub fn segments(&self, content: &[u8]) -> (r: Vec<Vec<u8>>)
        requires
            self.chunk_size > 0,
        ensures
            r@.map_values(|v: Vec<u8>| v@) == segments_of(content@, self.chunk_size as nat),
    {
        let n = self.chunk_size;
        let len = content.len();
        let mut out: Vec<Vec<u8>> = Vec::new();
        let mut pos: usize = 0;
        proof {
            assert(content@.subrange(0, len as int) =~= content@);
            assert(out@.map_values(|v: Vec<u8>| v@) + segments_of(content@, n as nat)
                =~= segments_of(content@, n as nat));
        }
        while pos < len
            invariant
                n == self.chunk_size,
                n > 0,
                len == content@.len(),
                pos <= len,
                segments_of(content@, n as nat) == out@.map_values(|v: Vec<u8>| v@)
                    + segments_of(content@.subrange(pos as int, len as int), n as nat),
            decreases len - pos,
        {
            let end: usize = if len - pos <= n { len } else { pos + n };
            let piece = copy_range(content, pos, end);
            proof {
                let rest = content@.subrange(pos as int, len as int);
                if len - pos <= n {
                    assert(piece@ =~= rest);
                    assert(content@.subrange(end as int, len as int) =~= Seq::<u8>::empty());
                    assert(segments_of(rest, n as nat) == seq![rest]);
                } else {
                    assert(piece@ =~= rest.take(n as int));
                    assert(content@.subrange(end as int, len as int) =~= rest.skip(n as int));
                }
            }
            let ghost before = out@.map_values(|v: Vec<u8>| v@);
            out.push(piece);
            proof {
                assert(out@.map_values(|v: Vec<u8>| v@) =~= before.push(piece@));
                let tail = segments_of(content@.subrange(end as int, len as int), n as nat);
                assert(before.push(piece@) + tail =~= before + (seq![piece@] + tail));
            }
            pos = end;
        }
        proof {
            assert(content@.subrange(len as int, len as int) =~= Seq::<u8>::empty());
            assert(out@.map_values(|v: Vec<u8>| v@) + Seq::<Seq<u8>>::empty()
                =~= out@.map_values(|v: Vec<u8>| v@));
        }
        out
    }
}

/// The bytes of `content` from `start` up to `end`.
fn copy_range(content: &[u8], start: usize, end: usize) -> (r: Vec<u8>)
    requires
        start <= end <= content@.len(),
    ensures
        r@ == content@.subrange(start as int, end as int),
{
    let mut r: Vec<u8> = Vec::new();
    let mut i = start;
    while i < end
        invariant
            start <= i <= end <= content@.len(),
            r@ == content@.subrange(start as int, i as int),
        decreases end - i,
    {
        r.push(content[i]);
        assert(r@ =~= content@.subrange(start as int, i + 1));
        i = i + 1;
    }
    r
}

/// Whatever segment size is configured, the segments written for `s`
/// put back together give `s` again.
pub proof fn lemma_segments_rejoin(s: Seq<u8>, n: nat)
    requires
        n > 0,
    ensures
        segments_of(s, n).flatten() == s,
    decreases s.len(),
{
    if s.len() == 0 {
        assert(segments_of(s, n) =~= Seq::<Seq<u8>>::empty());
        assert(s =~= Seq::<u8>::empty());
    } else if s.len() <= n {
        let ss = segments_of(s, n);
        assert(ss.drop_first() =~= Seq::<Seq<u8>>::empty());
        assert(ss.drop_first().flatten() =~= Seq::<u8>::empty());
        assert(ss.first() + Seq::<u8>::empty() =~= s);
    } else {
        lemma_segments_rejoin(s.skip(n as int), n);
        let ss = segments_of(s, n);
        assert(ss.drop_first() =~= segments_of(s.skip(n as int), n));
        assert(s.take(n as int) + s.skip(n as int) =~= s);
    }
}

} // verus!
