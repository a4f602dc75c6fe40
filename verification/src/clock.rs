//! Reading the hardware clock and converting raw readings to ticks.

use vstd::prelude::*;
use crate::ticks::NANOS_PER_SEC;
use crate::ticks::TICK_LIMIT;

verus! {

/// A seconds value at or above this cap yields a tick count past
/// `TICK_LIMIT`, so the conversion saturates there.
const SEC_CLAMP: u64 = 4_000_000_000;

/// What a raw clock reading of (seconds, nanoseconds) yields as ticks:
/// seconds times one billion plus nanoseconds, clamped into
/// `[0, TICK_LIMIT]`. A sane clock never hits either clamp.
pub open spec fn clamped_ticks(sec: int, nsec: int) -> int {
    if sec < 0 || nsec < 0 {
        0
    } else if sec * NANOS_PER_SEC + nsec >= TICK_LIMIT {
        TICK_LIMIT as int
    } else {
        sec * NANOS_PER_SEC + nsec
    }
}

/// Relies on nix::time::clock_gettime with the TAI clock: returns the
/// current reading as (seconds, nanoseconds), or None when the clock cannot
/// be read. Nothing is assumed about the values a read yields.
#[verifier::external_body]
fn read_tai_clock() -> (r: Option<(i64, i64)>) {
    match nix::time::clock_gettime(nix::time::ClockId::CLOCK_TAI) {
        Ok(ts) => Some((ts.tv_sec(), ts.tv_nsec())),
        Err(_) => None,
    }
}

/// Total conversion from a raw (seconds, nanoseconds) clock reading to a
/// tick count in range, whatever values the clock handed back.
pub fn ticks_from_timespec(sec: i64, nsec: i64) -> (r: u64)
    ensures
        r == clamped_ticks(sec as int, nsec as int),
        r <= TICK_LIMIT,
{
    if sec < 0 || nsec < 0 {
        return 0;
    }
    let su = sec as u64;
    let nu = nsec as u64;
    if su >= SEC_CLAMP {
        return TICK_LIMIT;
    }
    let t = su * NANOS_PER_SEC + nu;
    if t >= TICK_LIMIT {
        TICK_LIMIT
    } else {
        t
    }
}

/// The current TAI clock reading as ticks, or None when the clock cannot be
/// read. The result is in tick range whatever the clock returned.
pub fn read_tai_ticks() -> (r: Option<u64>)
    ensures
        r matches Some(t) ==> t <= TICK_LIMIT,
{
    match read_tai_clock() {
        Some((s, n)) => Some(ticks_from_timespec(s, n)),
        None => None,
    }
}

} // verus!
