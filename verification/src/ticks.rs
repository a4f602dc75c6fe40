//! Tick values and the clock adapter.

use vstd::prelude::*;

verus! {

/// Number of nanoseconds in one second.
pub const NANOS_PER_SEC: u64 = 1_000_000_000;

/// Upper bound on the tick values the subsystem works with. Any monotonic
/// clock reading in normal operation stays far below it (it corresponds to
/// roughly a century of nanoseconds), and keeping requested times under this
/// bound keeps the corrector's arithmetic inside `i64`/`u64` range.
pub const TICK_LIMIT: u64 = 0x3000_0000_0000_0000;

/// A monotonic high-resolution timestamp, split into whole seconds and the
/// sub-second nanosecond remainder. Tick values derived from it are only
/// meaningful for relative comparisons within one process run.
pub struct MonotonicTime {
    pub secs: u64,
    pub nanos: u32,
}

impl MonotonicTime {
    /// The timestamp as a count of nanosecond ticks.
    pub open spec fn ticks(self) -> int {
        self.secs * NANOS_PER_SEC + self.nanos
    }

    /// A normalized timestamp: the nanosecond remainder is below one second
    /// and the whole value is in tick range.
    pub open spec fn wf(self) -> bool {
        self.nanos < NANOS_PER_SEC && self.ticks() <= TICK_LIMIT
    }
}

/// Clock adapter: the seconds component times one billion plus the
/// sub-second nanosecond remainder, as the unsigned 64-bit wire format for
/// kernel timing hints.
pub fn std_time_to_u64(time: &MonotonicTime) -> (r: u64)
    requires
        time.wf(),
    ensures
        r == time.ticks(),
        r <= TICK_LIMIT,
{
    time.secs * NANOS_PER_SEC + (time.nanos as u64)
}

} // verus!
