//! Segment plans: slicing a buffer into chunks of at most the maximum
//! segment size.

use vstd::prelude::*;

verus! {

/// How many chunks a buffer of `len` bytes yields at segment size `seg`:
/// zero for an empty buffer, otherwise one full chunk per whole segment
/// plus one for any remainder (the ceiling of `len / seg`).
pub open spec fn chunk_count(len: int, seg: int) -> int
    recommends
        seg > 0,
    decreases len when seg > 0
{
    if len <= 0 {
        0
    } else if len <= seg {
        1
    } else {
        1 + chunk_count(len - seg, seg)
    }
}

/// The length of chunk `i`: a full segment, except that the last chunk
/// carries only what remains of the buffer.
pub open spec fn chunk_len(len: int, seg: int, i: int) -> int {
    if len - i * seg < seg {
        len - i * seg
    } else {
        seg
    }
}

/// Chunk `i` of plan `p` is the right slice of a buffer of `len` bytes at
/// segment size `seg`: it starts where the previous chunk ended, is no
/// larger than a segment, is non-empty, and stays inside the buffer.
pub open spec fn plan_chunk_ok(p: Seq<(usize, usize)>, len: int, seg: int, i: int) -> bool {
    &&& p[i].0 == i * seg
    &&& p[i].1 == chunk_len(len, seg, i)
    &&& 0 < p[i].1 <= seg
    &&& p[i].0 + p[i].1 <= len
}

/// Sum of the chunk lengths of a plan of (offset, length) pairs.
pub open spec fn plan_bytes(p: Seq<(usize, usize)>) -> int
    decreases p.len(),
{
    if p.len() == 0 {
        0
    } else {
        plan_bytes(p.drop_last()) + p.last().1
    }
}

/// A buffer never yields a negative number of chunks, and a non-empty one
/// yields at least one.
pub proof fn lemma_chunk_count_nonneg(len: int, seg: int)
    requires
        seg > 0,
    ensures
        chunk_count(len, seg) >= 0,
        len > 0 ==> chunk_count(len, seg) >= 1,
    decreases len,
{
    if len > seg {
        lemma_chunk_count_nonneg(len - seg, seg);
    }
}

/// The chunk count is the ceiling of `len / seg`: for a non-empty buffer it
/// is the unique count whose chunks cover the buffer while the count below
/// it would leave bytes over.
pub proof fn lemma_chunk_count_bounds(len: int, seg: int)
    requires
        seg > 0,
        len > 0,
    ensures
        chunk_count(len, seg) >= 1,
        (chunk_count(len, seg) - 1) * seg < len,
        len <= chunk_count(len, seg) * seg,
    decreases len,
{
    if len <= seg {
        assert(chunk_count(len, seg) == 1);
    } else {
        lemma_chunk_count_bounds(len - seg, seg);
        let c = chunk_count(len - seg, seg);
        assert((c + 1 - 1) * seg == (c - 1) * seg + seg) by (nonlinear_arith);
        assert((c + 1) * seg == c * seg + seg) by (nonlinear_arith);
    }
}

/// The chunk count written as a division: it equals the rounded-up
/// quotient `(len + seg - 1) / seg`.
pub proof fn lemma_chunk_count_is_ceil(len: int, seg: int)
    requires
        seg > 0,
        len >= 0,
    ensures
        chunk_count(len, seg) == (len + seg - 1) / seg,
    decreases len,
{
    if len == 0 {
        vstd::arithmetic::div_mod::lemma_basic_div(seg - 1, seg);
    } else if len <= seg {
        vstd::arithmetic::div_mod::lemma_div_plus_one(len - 1, seg);
        vstd::arithmetic::div_mod::lemma_basic_div(len - 1, seg);
        assert(len + seg - 1 == seg + (len - 1));
    } else {
        lemma_chunk_count_is_ceil(len - seg, seg);
        vstd::arithmetic::div_mod::lemma_div_plus_one(len - 1, seg);
        assert(len + seg - 1 == seg + (len - 1));
        assert((len - seg) + seg - 1 == len - 1);
    }
}

/// Build the segment plan for a buffer of `buf_len` bytes: consecutive
/// (offset, length) pairs, each length at most `segment_size`, covering the
/// buffer exactly, with exactly `chunk_count` chunks.
pub fn segment_plan(buf_len: usize, segment_size: usize) -> (r: Vec<(usize, usize)>)
    requires
        segment_size > 0,
    ensures
        r@.len() == chunk_count(buf_len as int, segment_size as int),
        forall|i: int| 0 <= i < r@.len()
            ==> #[trigger] plan_chunk_ok(r@, buf_len as int, segment_size as int, i),
        plan_bytes(r@) == buf_len,
{
    let mut out: Vec<(usize, usize)> = Vec::new();
    let mut off: usize = 0;
    proof {
        assert(out@.len() == 0);
        assert(out@.len() * segment_size == 0) by (nonlinear_arith)
            requires out@.len() == 0;
    }
    while off < buf_len
        invariant
            segment_size > 0,
            off <= buf_len,
            off == (if out@.len() * segment_size < buf_len {
                out@.len() * segment_size
            } else {
                buf_len as int
            }),
            out@.len() as int + chunk_count(buf_len - off, segment_size as int)
                == chunk_count(buf_len as int, segment_size as int),
            forall|i: int| 0 <= i < out@.len()
                ==> #[trigger] plan_chunk_ok(out@, buf_len as int, segment_size as int, i),
            plan_bytes(out@) == off,
        decreases buf_len - off,
    {
        let left = buf_len - off;
        let pkt_len = if left < segment_size { left } else { segment_size };
        let ghost prev = out@;
        let ghost k = out@.len() as int;
        let ghost seg = segment_size as int;
        let ghost len = buf_len as int;
        out.push((off, pkt_len));
        proof {
            assert(out@.drop_last() =~= prev);
            assert(k * seg < len);
            assert(chunk_len(len, seg, k) == pkt_len);
            assert((k + 1) * seg == k * seg + seg) by (nonlinear_arith);
            assert(plan_chunk_ok(out@, len, seg, k));
            assert(forall|i: int| 0 <= i < k && plan_chunk_ok(prev, len, seg, i)
                ==> #[trigger] plan_chunk_ok(out@, len, seg, i));
        }
        off = off + pkt_len;
    }
    out
}

} // verus!
