//! Splitting extracted text into contiguous chunks ready for embedding.

use vstd::prelude::*;
use vstd::utf8::{decode_utf8, encode_utf8, valid_utf8};

verus! {

/// The bytes after which memchunk splits by default: newline, period and
/// question mark.
pub open spec fn is_delimiter(x: u8) -> bool {
    x == 10u8 || x == 46u8 || x == 63u8
}

/// Where memchunk cuts a window whose last byte is at `j`: just after the
/// last delimiter at a position from 1 to `j`, or else at `size`.
pub open spec fn cut_in(b: Seq<u8>, j: int, size: int) -> int
    decreases j,
{
    if j <= 0 {
        size
    } else if is_delimiter(b[j]) {
        j + 1
    } else {
        cut_in(b, j - 1, size)
    }
}

/// The pieces into which memchunk splits `b` for target size `size`: what
/// remains once it fits in `size` bytes, else the front of the next
/// `size`-byte window, cut after its last delimiter past the first byte.
pub open spec fn chunk_pieces(b: Seq<u8>, size: nat) -> Seq<Seq<u8>>
    decreases b.len(),
{
    if b.len() == 0 || size == 0 {
        Seq::empty()
    } else if b.len() <= size {
        seq![b]
    } else {
        let c = cut_in(b, size - 1, size as int);
        let cut = if 1 <= c <= size { c } else { size as int };
        seq![b.take(cut)] + chunk_pieces(b.skip(cut), size)
    }
}

/// The byte sequences the chunks of `b` are decoded from: memchunk's
/// pieces, or the empty text itself.
pub open spec fn chunk_sources(b: Seq<u8>, size: nat) -> Seq<Seq<u8>> {
    if b.len() == 0 {
        seq![b]
    } else {
        chunk_pieces(b, size)
    }
}

/// The text that lossy UTF-8 decoding makes of `b`.
pub uninterp spec fn lossy_utf8(b: Seq<u8>) -> Seq<char>;

/// The pieces are non-empty, at most `size` bytes long, and in order make
/// up `b`; a non-empty input that fits in `size` is one piece.
pub open spec fn pieces_partition(b: Seq<u8>, size: nat, pieces: Seq<Seq<u8>>) -> bool {
    &&& pieces.flatten() == b
    &&& forall|i: int| 0 <= i < pieces.len() ==> 0 < (#[trigger] pieces[i]).len() <= size
    &&& (0 < b.len() <= size ==> pieces == seq![b])
}

proof fn lemma_cut_bounds(b: Seq<u8>, j: int, size: int)
    requires
        0 <= j < size,
    ensures
        1 <= cut_in(b, j, size) <= size,
    decreases j,
{
    if j > 0 && !is_delimiter(b[j]) {
        lemma_cut_bounds(b, j - 1, size);
    }
}

/// memchunk's pieces partition the input.
pub proof fn lemma_pieces_partition(b: Seq<u8>, size: nat)
    requires
        size > 0,
    ensures
        pieces_partition(b, size, chunk_pieces(b, size)),
    decreases b.len(),
{
    let ps = chunk_pieces(b, size);
    if b.len() == 0 {
        assert(ps =~= Seq::<Seq<u8>>::empty());
        assert(b =~= Seq::<u8>::empty());
    } else if b.len() <= size {
        assert(ps.drop_first() =~= Seq::<Seq<u8>>::empty());
        assert(ps.drop_first().flatten() =~= Seq::<u8>::empty());
        assert(ps.first() + Seq::<u8>::empty() =~= b);
    } else {
        lemma_cut_bounds(b, size - 1, size as int);
        let cut = cut_in(b, size - 1, size as int);
        let rest = chunk_pieces(b.skip(cut), size);
        lemma_pieces_partition(b.skip(cut), size);
        assert(ps == seq![b.take(cut)] + rest);
        assert(ps.drop_first() =~= rest);
        assert(b.take(cut) + b.skip(cut) =~= b);
        assert forall|i: int| 0 <= i < ps.len() implies 0 < (#[trigger] ps[i]).len() <= size by {
            if i > 0 {
                assert(ps[i] == rest[i - 1]);
            }
        }
    }
}

/// Relies on memchunk::chunk(..).size(size) with its default delimiters:
/// `Chunker::next` returns what remains once it fits in `size` bytes, and
/// otherwise cuts the next `size`-byte window after its last newline,
/// period or question mark past the window's first byte, or at `size`
/// where there is none. With a size of zero it never returns.
#[verifier::external_body]
fn split_pieces(text: &[u8], size: usize) -> (r: Vec<Vec<u8>>)
    requires
        size > 0,
    ensures
        r@.map_values(|v: Vec<u8>| v@) == chunk_pieces(text@, size as nat),
{
    memchunk::chunk(text).size(size).map(|piece| piece.to_vec()).collect()
}

/// Relies on String::from_utf8_lossy: invalid sequences become U+FFFD, and
/// valid UTF-8 is decoded unchanged.
#[verifier::external_body]
fn decode_lossy(b: &[u8]) -> (r: String)
    ensures
        r@ == lossy_utf8(b@),
        valid_utf8(b@) ==> r@ == decode_utf8(b@),
{
    String::from_utf8_lossy(b).into_owned()
}

/// A segment of a source document, with its embedding once computed.
pub struct Chunk {
    pub content: String,
    pub embedding: Option<bm25::Embedding>,
}

impl Chunk {
    pub fn from_content(content: String) -> (r: Self)
        ensures
            r.content == content,
            r.embedding.is_none(),
    {
        Chunk { content, embedding: None }
    }
}

/// The contents of a sequence of chunks, in order.
pub open spec fn contents(chunks: Seq<Chunk>) -> Seq<Seq<char>> {
    chunks.map_values(|c: Chunk| c.content@)
}

/// Splits `text` into chunks of at most `size` bytes each, in text order.
/// Every chunk is the lossy decoding of one memchunk piece of the text's
/// UTF-8 bytes (the empty text is one empty chunk); the pieces make up
/// those bytes exactly. Where every piece is valid UTF-8 the contents put
/// together give back `text`, and a text of at most `size` bytes is one
/// chunk equal to it.
pub fn chunk_text(text: String, size: usize) -> (r: Vec<Chunk>)
    requires
        size > 0,
    ensures
        ({
            let b = encode_utf8(text@);
            let sources = chunk_sources(b, size as nat);
            &&& pieces_partition(b, size as nat, chunk_pieces(b, size as nat))
            &&& r@.len() == sources.len()
            &&& forall|i: int| 0 <= i < r@.len() ==> #[trigger] r@[i].content@ == lossy_utf8(sources[i])
            &&& forall|i: int| 0 <= i < r@.len() ==> (#[trigger] r@[i].embedding).is_none()
            &&& sources.flatten() == b
            &&& (forall|i: int| 0 <= i < sources.len() ==> valid_utf8(#[trigger] sources[i]))
                ==> contents(r@).flatten() == text@
            &&& b.len() <= size ==> (r@.len() == 1 && r@[0].content@ == text@)
        }),
{
    let bytes = text.as_str().as_bytes();
    let ghost b = encode_utf8(text@);
    let mut sources = split_pieces(bytes, size);
    proof {
        lemma_pieces_partition(b, size as nat);
    }
    if bytes.len() == 0 {
        sources.push(Vec::new());
    }
    let ghost pv = sources@.map_values(|v: Vec<u8>| v@);
    proof {
        if b.len() == 0 {
            assert(pv =~= seq![b]);
        }
        assert(pv == chunk_sources(b, size as nat));
    }
    let mut out: Vec<Chunk> = Vec::new();
    let mut i: usize = 0;
    while i < sources.len()
        invariant
            0 <= i <= sources@.len(),
            pv == sources@.map_values(|v: Vec<u8>| v@),
            out@.len() == i,
            forall|j: int| 0 <= j < i ==> #[trigger] out@[j].content@ == lossy_utf8(pv[j]),
            forall|j: int| 0 <= j < i ==> (#[trigger] out@[j].embedding).is_none(),
            forall|j: int|
                0 <= j < i && valid_utf8(#[trigger] pv[j]) ==> lossy_utf8(pv[j]) == decode_utf8(pv[j]),
        decreases sources@.len() - i,
    {
        let piece = sources[i].as_slice();
        assert(piece@ == pv[i as int]);
        let content = decode_lossy(piece);
        out.push(Chunk::from_content(content));
        assert(out@[i as int].content@ == lossy_utf8(pv[i as int]));
        i = i + 1;
    }
    proof {
        assert(bytes@ == b);
        vstd::utf8::encode_utf8_valid_utf8(text@);
        vstd::utf8::encode_utf8_decode_utf8(text@);
        if b.len() == 0 {
            assert(pv.drop_first() =~= Seq::<Seq<u8>>::empty());
            assert(pv.drop_first().flatten() =~= Seq::<u8>::empty());
            assert(pv.flatten() =~= b);
            assert(valid_utf8(pv[0]));
            assert(decode_utf8(pv[0]) =~= Seq::<char>::empty());
            assert(text@ =~= Seq::<char>::empty());
        }
        if forall|k: int| 0 <= k < pv.len() ==> valid_utf8(#[trigger] pv[k]) {
            assert(contents(out@) =~= pv.map_values(|p: Seq<u8>| decode_utf8(p)));
            lemma_decode_pieces(pv);
        }
        if 0 < b.len() <= size {
            assert(pv == seq![b]);
        }
    }
    out
}

/// Decoding valid UTF-8 pieces one by one and joining the texts is the
/// same as decoding the joined bytes.
proof fn lemma_decode_pieces(pieces: Seq<Seq<u8>>)
    requires
        forall|k: int| 0 <= k < pieces.len() ==> valid_utf8(#[trigger] pieces[k]),
    ensures
        valid_utf8(pieces.flatten()),
        pieces.map_values(|p: Seq<u8>| decode_utf8(p)).flatten() == decode_utf8(pieces.flatten()),
    decreases pieces.len(),
{
    if pieces.len() == 0 {
        assert(pieces.map_values(|p: Seq<u8>| decode_utf8(p)) =~= Seq::<Seq<char>>::empty());
        assert(decode_utf8(Seq::<u8>::empty()) =~= Seq::<char>::empty());
    } else {
        let rest = pieces.drop_first();
        assert forall|k: int| 0 <= k < rest.len() implies valid_utf8(#[trigger] rest[k]) by {
            assert(rest[k] == pieces[k + 1]);
        }
        lemma_decode_pieces(rest);
        assert(pieces.map_values(|p: Seq<u8>| decode_utf8(p)).drop_first()
            =~= rest.map_values(|p: Seq<u8>| decode_utf8(p)));
        assert(valid_utf8(pieces[0]));
        vstd::utf8::valid_utf8_concat(pieces[0], rest.flatten());
        lemma_decode_concat(pieces[0], rest.flatten());
    }
}

/// Decoding the concatenation of two valid UTF-8 sequences decodes each.
proof fn lemma_decode_concat(b1: Seq<u8>, b2: Seq<u8>)
    requires
        valid_utf8(b1),
        valid_utf8(b2),
    ensures
        decode_utf8(b1 + b2) == decode_utf8(b1) + decode_utf8(b2),
    decreases b1.len(),
{
    if b1.len() == 0 {
        assert(b1 + b2 =~= b2);
        assert(decode_utf8(b1) =~= Seq::<char>::empty());
        assert(decode_utf8(b1) + decode_utf8(b2) =~= decode_utf8(b2));
    } else {
        let rest = vstd::utf8::pop_first_scalar(b1);
        assert(vstd::utf8::length_of_first_scalar(b1) <= b1.len());
        assert(rest.len() < b1.len());
        vstd::utf8::valid_utf8_concat(rest, b2);
        vstd::utf8::valid_utf8_concat(b1, b2);
        lemma_decode_concat(rest, b2);
        assert(vstd::utf8::pop_first_scalar(b1 + b2) =~= rest + b2);
        assert(vstd::utf8::decode_first_scalar(b1 + b2) == vstd::utf8::decode_first_scalar(b1));
        assert(decode_utf8(b1 + b2) =~= decode_utf8(b1) + decode_utf8(b2));
    }
}

} // verus!
