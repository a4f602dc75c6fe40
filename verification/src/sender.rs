//! Transmission dispatch: strategy selection, the slicing loop state, and
//! the plans a caller executes against the kernel socket.

use vstd::prelude::*;
use crate::corrector::Corrector;
use crate::plan::chunk_count;
use crate::plan::chunk_len;
use crate::plan::plan_chunk_ok;
use crate::plan::segment_plan;
use crate::ticks::MonotonicTime;
use crate::ticks::std_time_to_u64;

verus! {

/// The three transmission strategies.
pub enum TxPath {
    /// One kernel call for the whole buffer, with segmentation, departure
    /// time and pacing rate handed to the kernel.
    OffloadPacing,
    /// One kernel call per chunk, each carrying its own departure time.
    PerPacketPacing,
    /// One plain kernel call per chunk, no timing annotation.
    Plain,
}

/// Pick the transmission strategy from the caller's configuration. The
/// offload path is selected exactly when pacing is requested and the
/// offload capability was reported available.
pub fn select_path(pacing_enabled: bool, offload_enabled: bool) -> (p: TxPath)
    ensures
        (p is OffloadPacing) <==> (pacing_enabled && offload_enabled),
        (p is PerPacketPacing) <==> (pacing_enabled && !offload_enabled),
        (p is Plain) <==> !pacing_enabled,
{
    if pacing_enabled {
        if offload_enabled {
            TxPath::OffloadPacing
        } else {
            TxPath::PerPacketPacing
        }
    } else {
        TxPath::Plain
    }
}

/// The running state of a slicing loop: how far into the buffer the next
/// chunk starts, how many bytes the kernel has accepted so far, and how
/// many chunks are done. The caller performs one kernel call per chunk and
/// feeds the accepted count back through `advance`.
pub struct SendLoop {
    pub buf_len: usize,
    pub segment_size: usize,
    pub off: usize,
    pub written: usize,
    pub chunks_done: usize,
}

impl SendLoop {
    /// The offset always sits at the chunk boundary given by the number of
    /// chunks done, and the bytes accepted never exceed the bytes handed to
    /// the kernel.
    pub open spec fn wf(self) -> bool {
        &&& self.segment_size > 0
        &&& self.off == (if self.chunks_done * self.segment_size < self.buf_len {
            self.chunks_done * self.segment_size
        } else {
            self.buf_len as int
        })
        &&& self.written <= self.off
    }

    pub fn new(buf_len: usize, segment_size: usize) -> (s: SendLoop)
        requires
            segment_size > 0,
        ensures
            s.wf(),
            s.buf_len == buf_len,
            s.segment_size == segment_size,
            s.off == 0,
            s.written == 0,
            s.chunks_done == 0,
    {
        let s = SendLoop { buf_len, segment_size, off: 0, written: 0, chunks_done: 0 };
        proof {
            assert(s.chunks_done * s.segment_size == 0) by (nonlinear_arith)
                requires s.chunks_done == 0;
        }
        s
    }

    /// Whether the buffer is exhausted.
    pub fn done(&self) -> (d: bool)
        requires
            self.wf(),
        ensures
            d <==> self.off == self.buf_len,
    {
        self.off == self.buf_len
    }

    /// The next chunk to hand to the kernel, as an (offset, length) pair,
    /// or None once the buffer is exhausted.
    pub fn next_chunk(&self) -> (c: Option<(usize, usize)>)
        requires
            self.wf(),
        ensures
            (c is Some) <==> self.off < self.buf_len,
            c matches Some(ch) ==> {
                &&& ch.0 == self.off
                &&& ch.1 == chunk_len(
                    self.buf_len as int,
                    self.segment_size as int,
                    self.chunks_done as int,
                )
                &&& 0 < ch.1 <= self.segment_size
                &&& ch.0 + ch.1 <= self.buf_len
            },
    {
        if self.off < self.buf_len {
            let left = self.buf_len - self.off;
            let l = if left < self.segment_size { left } else { self.segment_size };
            Some((self.off, l))
        } else {
            None
        }
    }

    /// Record the outcome of one kernel call: the loop moves past the
    /// current chunk and the accepted byte count joins the running total.
    /// When every call accepts its whole chunk the total tracks the offset,
    /// so a loop that exhausts the buffer reports exactly the buffer
    /// length.
    pub fn advance(&mut self, accepted: usize)
        requires
            old(self).wf(),
            old(self).off < old(self).buf_len,
            accepted <= chunk_len(
                old(self).buf_len as int,
                old(self).segment_size as int,
                old(self).chunks_done as int,
            ),
        ensures
            final(self).buf_len == old(self).buf_len,
            final(self).segment_size == old(self).segment_size,
            final(self).off == old(self).off + chunk_len(
                old(self).buf_len as int,
                old(self).segment_size as int,
                old(self).chunks_done as int,
            ),
            final(self).written == old(self).written + accepted,
            final(self).chunks_done == old(self).chunks_done + 1,
            final(self).wf(),
            accepted == chunk_len(
                old(self).buf_len as int,
                old(self).segment_size as int,
                old(self).chunks_done as int,
            ) && old(self).written == old(self).off
                ==> final(self).written == final(self).off,
    {
        let ghost k = self.chunks_done as int;
        let ghost seg = self.segment_size as int;
        let ghost len = self.buf_len as int;
        let left = self.buf_len - self.off;
        let l = if left < self.segment_size { left } else { self.segment_size };
        proof {
            assert(k * seg < len);
            assert(chunk_len(len, seg, k) == l);
            assert(k <= k * seg) by (nonlinear_arith)
                requires k >= 0, seg >= 1;
            assert((k + 1) * seg == k * seg + seg) by (nonlinear_arith);
        }
        self.off = self.off + l;
        self.written = self.written + accepted;
        self.chunks_done = self.chunks_done + 1;
    }
}

/// Law: a segmented send on a socket that never errors reports exactly the
/// buffer length. Every `advance` whose chunk was accepted in full keeps
/// the running total equal to the consumed offset, so a loop that exhausts
/// the buffer ends with the total equal to the buffer length.
pub proof fn lemma_error_free_send_total(s: SendLoop)
    requires
        s.wf(),
        s.written == s.off,
        s.off == s.buf_len,
    ensures
        s.written == s.buf_len,
{
}

/// Kernel-level hints for one offload transmission: the segment size the
/// kernel splits at, the corrected departure tick, and the pacing rate in
/// bytes per second.
pub struct TxHints {
    pub segment_size: u16,
    pub departure_ticks: u64,
    pub pacing_rate: u64,
}

/// Build the per-chunk paced plan: one (offset, length, departure tick)
/// triple per chunk, the tick taken from the caller-supplied timestamp for
/// that chunk. Fails fast with None when fewer timestamps than chunks were
/// supplied, never truncating the buffer.
pub fn paced_plan(
    buf_len: usize,
    segment_size: usize,
    tstamps: &Vec<MonotonicTime>,
) -> (r: Option<Vec<(usize, usize, u64)>>)
    requires
        segment_size > 0,
        forall|i: int| 0 <= i < tstamps@.len() ==> (#[trigger] tstamps@[i]).wf(),
    ensures
        (r is None) <==> tstamps@.len() < chunk_count(buf_len as int, segment_size as int),
        r matches Some(p) ==> {
            &&& p@.len() == chunk_count(buf_len as int, segment_size as int)
            &&& forall|i: int| 0 <= i < p@.len() ==> {
                &&& (#[trigger] p@[i]).0 == i * segment_size
                &&& p@[i].1 == chunk_len(buf_len as int, segment_size as int, i)
                &&& 0 < p@[i].1 <= segment_size
                &&& p@[i].0 + p@[i].1 <= buf_len
                &&& p@[i].2 == tstamps@[i].ticks()
            }
        },
{
    let mut out: Vec<(usize, usize, u64)> = Vec::new();
    let mut off: usize = 0;
    proof {
        assert(out@.len() * segment_size == 0) by (nonlinear_arith)
            requires out@.len() == 0;
    }
    while off < buf_len
        invariant
            segment_size > 0,
            forall|i: int| 0 <= i < tstamps@.len() ==> (#[trigger] tstamps@[i]).wf(),
            off <= buf_len,
            out@.len() <= tstamps@.len(),
            off == (if out@.len() * segment_size < buf_len {
                out@.len() * segment_size
            } else {
                buf_len as int
            }),
            out@.len() as int + chunk_count(buf_len - off, segment_size as int)
                == chunk_count(buf_len as int, segment_size as int),
            forall|i: int| 0 <= i < out@.len() ==> {
                &&& (#[trigger] out@[i]).0 == i * segment_size
                &&& out@[i].1 == chunk_len(buf_len as int, segment_size as int, i)
                &&& 0 < out@[i].1 <= segment_size
                &&& out@[i].0 + out@[i].1 <= buf_len
                &&& out@[i].2 == tstamps@[i].ticks()
            },
        decreases buf_len - off,
    {
        let idx = out.len();
        if idx >= tstamps.len() {
            proof {
                crate::plan::lemma_chunk_count_nonneg(buf_len - off, segment_size as int);
            }
            return None;
        }
        let left = buf_len - off;
        let pkt_len = if left < segment_size { left } else { segment_size };
        let t = std_time_to_u64(&tstamps[idx]);
        let ghost k = out@.len() as int;
        let ghost seg = segment_size as int;
        let ghost len = buf_len as int;
        out.push((off, pkt_len, t));
        proof {
            assert(k * seg < len);
            assert(chunk_len(len, seg, k) == pkt_len);
            assert((k + 1) * seg == k * seg + seg) by (nonlinear_arith);
        }
        off = off + pkt_len;
    }
    Some(out)
}

/// A ready-to-execute transmission plan: which kernel calls to make, with
/// which slices and hints. Executing it is one call for the whole buffer on
/// the offload path, or one call per listed chunk otherwise.
pub enum SendPlan {
    /// Transmit the whole buffer in one call, with these hints.
    Offload(TxHints),
    /// Transmit chunk (offset, length) with the given departure tick.
    Paced(Vec<(usize, usize, u64)>),
    /// Transmit chunk (offset, length) with no timing annotation.
    Plain(Vec<(usize, usize)>),
}

/// The transmission dispatcher: pick the strategy for one buffer and build
/// the plan the caller executes. The offload path corrects the requested
/// departure time through the corrector state; the other paths leave the
/// corrector untouched. None only when the offload path could not read the
/// clock; the corrector is then unchanged.
pub fn plan_send(
    corr: &mut Corrector,
    buf_len: usize,
    requested_time: &MonotonicTime,
    rate: u64,
    segment_size: usize,
    pacing_enabled: bool,
    offload_enabled: bool,
    tstamps: &Vec<MonotonicTime>,
) -> (r: Option<SendPlan>)
    requires
        old(corr).wf(),
        segment_size > 0,
        requested_time.wf(),
        pacing_enabled && offload_enabled ==> segment_size <= 0xffff,
        forall|i: int| 0 <= i < tstamps@.len() ==> (#[trigger] tstamps@[i]).wf(),
        pacing_enabled && !offload_enabled
            ==> tstamps@.len() >= chunk_count(buf_len as int, segment_size as int),
    ensures
        r matches Some(SendPlan::Offload(h)) ==> {
            &&& pacing_enabled && offload_enabled
            &&& h.segment_size == segment_size
            &&& h.pacing_rate == rate
            &&& h.departure_ticks == requested_time.ticks() + final(corr).offset
            &&& h.departure_ticks >= requested_time.ticks()
            &&& final(corr).last_send_time == h.departure_ticks
            &&& final(corr).wf()
        },
        pacing_enabled && offload_enabled ==> (r is Some ==> r matches Some(
            SendPlan::Offload(_),
        )),
        pacing_enabled && offload_enabled ==> (r is None ==> *final(corr) == *old(corr)),
        pacing_enabled && !offload_enabled ==> {
            &&& *final(corr) == *old(corr)
            &&& r matches Some(SendPlan::Paced(p))
            &&& p@.len() == chunk_count(buf_len as int, segment_size as int)
            &&& forall|i: int| 0 <= i < p@.len() ==> {
                &&& (#[trigger] p@[i]).0 == i * segment_size
                &&& p@[i].1 == chunk_len(buf_len as int, segment_size as int, i)
                &&& p@[i].2 == tstamps@[i].ticks()
            }
        },
        !pacing_enabled ==> {
            &&& *final(corr) == *old(corr)
            &&& r matches Some(SendPlan::Plain(p))
            &&& p@.len() == chunk_count(buf_len as int, segment_size as int)
            &&& forall|i: int| 0 <= i < p@.len()
                ==> #[trigger] plan_chunk_ok(p@, buf_len as int, segment_size as int, i)
        },
        !(pacing_enabled && offload_enabled) ==> !(r matches Some(SendPlan::Offload(_))),
{
    match select_path(pacing_enabled, offload_enabled) {
        TxPath::OffloadPacing => {
            let req = std_time_to_u64(requested_time);
            match corr.adjust_send_time_for_etf_v2(req) {
                Some(ticks) => Some(SendPlan::Offload(TxHints {
                    segment_size: segment_size as u16,
                    departure_ticks: ticks,
                    pacing_rate: rate,
                })),
                None => None,
            }
        },
        TxPath::PerPacketPacing => {
            // enough timestamps were required, so the paced plan never fails here
            match paced_plan(buf_len, segment_size, tstamps) {
                Some(p) => Some(SendPlan::Paced(p)),
                None => None,
            }
        },
        TxPath::Plain => Some(SendPlan::Plain(segment_plan(buf_len, segment_size))),
    }
}

} // verus!
