//! The mathematical model of the chunked resume algorithm.
//!
//! A download or upload builds the destination as a prefix of the source
//! that grows by one chunk per Transfer step, each chunk starting at the
//! destination's currently observed length.  `completed_from` is that loop
//! over sequences; the lemmas state that it reconstructs the source exactly
//! from any starting prefix, which is what makes resumption safe: a
//! truncated or half-written destination is completed, never corrupted.

use vstd::prelude::*;

verus! {

/// Index one past the last byte served for a chunk request starting at
/// `from`: `chunk` bytes, or whatever remains of the source.
pub open spec fn chunk_end(src_len: int, from: int, chunk: int) -> int {
    if from + chunk <= src_len {
        from + chunk
    } else {
        src_len
    }
}

/// The bytes a server serves for a chunk request: up to `chunk` bytes of the
/// source, starting at byte `from`.
pub open spec fn chunk_at(src: Seq<u8>, from: int, chunk: int) -> Seq<u8>
    recommends
        0 <= from <= src.len(),
        1 <= chunk,
{
    src.subrange(from, chunk_end(src.len() as int, from, chunk))
}

/// The destination a transfer loop leaves behind: starting from `dest`, it
/// appends the chunk at the destination's current length until the
/// destination is at least as long as the source.
pub open spec fn completed_from(src: Seq<u8>, dest: Seq<u8>, chunk: int) -> Seq<u8>
    decreases src.len() - dest.len(),
{
    if dest.len() >= src.len() || chunk < 1 {
        dest
    } else {
        completed_from(src, dest + chunk_at(src, dest.len() as int, chunk), chunk)
    }
}

/// Resume correctness: from a destination holding any prefix of the source
/// — the empty one, one byte short of complete, or anything between — the
/// transfer loop reproduces the source bit for bit.
pub proof fn lemma_resume_correct(src: Seq<u8>, prefix_len: int, chunk: int)
    requires
        0 <= prefix_len <= src.len(),
        1 <= chunk,
    ensures
        completed_from(src, src.take(prefix_len), chunk) == src,
    decreases src.len() - prefix_len,
{
    let dest = src.take(prefix_len);
    if prefix_len == src.len() {
        assert(dest =~= src);
    } else {
        let end = chunk_end(src.len() as int, prefix_len, chunk);
        assert(dest + chunk_at(src, prefix_len, chunk) =~= src.take(end));
        lemma_resume_correct(src, end, chunk);
    }
}

/// Round-trip integrity, on the bytes: a transfer into an empty destination
/// — a fresh download of an uploaded file, or the reverse — reproduces the
/// source exactly, the zero-length source included.
pub proof fn lemma_round_trip(src: Seq<u8>, chunk: int)
    requires
        1 <= chunk,
    ensures
        completed_from(src, Seq::empty(), chunk) == src,
{
    assert(Seq::<u8>::empty() =~= src.take(0));
    lemma_resume_correct(src, 0, chunk);
}

/// Idempotent resume, on the bytes: a destination that already equals the
/// source is left untouched by the transfer loop.
pub proof fn lemma_resume_idempotent(src: Seq<u8>, chunk: int)
    requires
        1 <= chunk,
    ensures
        completed_from(src, src, chunk) == src,
{
}

} // verus!
