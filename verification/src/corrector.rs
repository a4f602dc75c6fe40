//! Departure-time correction.
//!
//! Hardware earliest-departure-time scheduling silently mis-handles packets
//! whose requested departure time is too close to "now". The corrector
//! pushes such requests forward by a decaying offset so every corrected
//! time keeps a minimum lead over the clock reading taken at correction
//! time.

use vstd::prelude::*;
use crate::clock::read_tai_ticks;
use crate::ticks::TICK_LIMIT;

verus! {

/// Minimum lead, in nanosecond ticks, that a corrected departure time keeps
/// over the clock reading taken at correction time.
pub const LEAD_TIME_FLOOR: u64 = 400_000;

/// Once a requested time runs this far past the last corrected time, the
/// accumulated offset is no longer needed and resets to zero.
pub const OFFSET_RESET_GAP: u64 = 1_000_000;

/// State the corrector carries across consecutive sends: the cumulative
/// forward adjustment currently in effect and the last corrected departure
/// time issued. Owned by the caller, one instance per serialized send
/// context.
pub struct Corrector {
    pub offset: i64,
    pub last_send_time: i64,
}

impl Corrector {
    /// The offset never goes negative and stays small enough that adding it
    /// to an in-range requested time cannot overflow.
    pub open spec fn wf(self) -> bool {
        &&& 0 <= self.offset <= TICK_LIMIT + LEAD_TIME_FLOOR
        &&& 0 <= self.last_send_time <= 2 * TICK_LIMIT + LEAD_TIME_FLOOR
    }

    /// The offset in effect after correcting a request of `requested` ticks
    /// against a clock reading of `now` ticks: raised when the request is
    /// under the lead floor, reset once enough slack has passed, kept
    /// otherwise.
    pub open spec fn next_offset(self, requested: int, now: int) -> int {
        if requested - now < LEAD_TIME_FLOOR {
            if self.offset >= LEAD_TIME_FLOOR - (requested - now) {
                self.offset as int
            } else {
                LEAD_TIME_FLOOR - (requested - now)
            }
        } else if requested >= self.last_send_time + OFFSET_RESET_GAP {
            0
        } else {
            self.offset as int
        }
    }

    pub fn new() -> (c: Corrector)
        ensures
            c.wf(),
            c.offset == 0,
            c.last_send_time == 0,
    {
        Corrector { offset: 0, last_send_time: 0 }
    }

    /// Correct a requested departure time against a given clock reading.
    /// The result always keeps the lead floor over `now_ticks`, never moves
    /// the request backwards, and becomes the new last corrected time.
    pub fn correct(&mut self, requested_ticks: u64, now_ticks: u64) -> (r: u64)
        requires
            old(self).wf(),
            requested_ticks <= TICK_LIMIT,
            now_ticks <= TICK_LIMIT,
        ensures
            final(self).offset == old(self).next_offset(
                requested_ticks as int,
                now_ticks as int,
            ),
            r == requested_ticks + final(self).offset,
            final(self).last_send_time == r,
            r >= now_ticks + LEAD_TIME_FLOOR,
            r >= requested_ticks,
            requested_ticks >= old(self).last_send_time
                ==> final(self).last_send_time >= old(self).last_send_time,
            final(self).wf(),
    {
        let requested = requested_ticks as i64;
        let now = now_ticks as i64;
        let delta: i64 = requested - now;
        if delta < LEAD_TIME_FLOOR as i64 {
            let bump: i64 = LEAD_TIME_FLOOR as i64 - delta;
            if bump > self.offset {
                self.offset = bump;
            }
        } else if requested >= self.last_send_time + OFFSET_RESET_GAP as i64 {
            self.offset = 0;
        }
        let corrected: i64 = requested + self.offset;
        self.last_send_time = corrected;
        corrected as u64
    }

    /// Stateful correction against the clock: reads the TAI clock and
    /// corrects `send_time` against that reading. None when the clock
    /// cannot be read; the state is then unchanged. Whatever reading came
    /// back, a corrected time never moves the request backwards, never
    /// falls below the lead floor, and keeps the state well formed.
    pub fn adjust_send_time_for_etf_v2(&mut self, send_time: u64) -> (r: Option<u64>)
        requires
            old(self).wf(),
            send_time <= TICK_LIMIT,
        ensures
            r matches Some(c) ==> {
                &&& c == send_time + final(self).offset
                &&& final(self).last_send_time == c
                &&& c >= send_time
                &&& c >= LEAD_TIME_FLOOR
                &&& final(self).wf()
            },
            r is None ==> *final(self) == *old(self),
    {
        match read_tai_ticks() {
            Some(now) => Some(self.correct(send_time, now)),
            None => None,
        }
    }
}

/// Stateless correction: clamp a requested departure time up to the lead
/// floor over a given clock reading, leaving it alone when it already has
/// enough lead.
pub fn clamp_to_lead_floor(send_time: u64, now_ticks: u64) -> (r: u64)
    requires
        send_time <= TICK_LIMIT,
        now_ticks <= TICK_LIMIT,
    ensures
        send_time - now_ticks < LEAD_TIME_FLOOR ==> r == now_ticks + LEAD_TIME_FLOOR,
        send_time - now_ticks >= LEAD_TIME_FLOOR ==> r == send_time,
        r >= now_ticks + LEAD_TIME_FLOOR,
        r >= send_time,
{
    if send_time < now_ticks + LEAD_TIME_FLOOR {
        now_ticks + LEAD_TIME_FLOOR
    } else {
        send_time
    }
}

/// Stateless correction against the clock: reads the TAI clock and clamps
/// `send_time` to the lead floor over that reading. None when the clock
/// cannot be read; a clamped time never moves the request backwards and
/// never falls below the lead floor itself.
pub fn adjust_send_time_for_etf(send_time: u64) -> (r: Option<u64>)
    requires
        send_time <= TICK_LIMIT,
    ensures
        r matches Some(c) ==> {
            &&& c >= send_time
            &&& c >= LEAD_TIME_FLOOR
            &&& c <= TICK_LIMIT + LEAD_TIME_FLOOR
        },
{
    match read_tai_ticks() {
        Some(now) => Some(clamp_to_lead_floor(send_time, now)),
        None => None,
    }
}

} // verus!
