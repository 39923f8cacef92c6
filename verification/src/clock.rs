//! Pacing of the interpreter and timer clocks, in nanoseconds.

use vstd::prelude::*;

verus! {

/// Rate of the timer clock, in ticks per second.
pub const TIMER_RATE_HZ: u32 = 60;

/// Nanoseconds in one second.
pub const NANOS_PER_SECOND: u64 = 1_000_000_000;

/// The length of one cycle of a clock that runs at `rate_hz` cycles per
/// second, in whole nanoseconds, or `None` for a rate of zero.
pub fn cycle_nanos(rate_hz: u32) -> (period: Option<u64>)
    ensures
        period == (if rate_hz == 0 {
            None
        } else {
            Some((1_000_000_000int / rate_hz as int) as u64)
        }),
{
    if rate_hz == 0 {
        None
    } else {
        Some(NANOS_PER_SECOND / (rate_hz as u64))
    }
}

/// How long a cycle of length `period` still has to sleep after the work
/// of the cycle has taken `elapsed`: the rest of the period, and nothing
/// once the work has used it up.
pub fn remaining_nanos(period: u64, elapsed: u64) -> (rest: u64)
    ensures
        rest == (if elapsed >= period {
            0
        } else {
            period - elapsed
        }),
{
    period.saturating_sub(elapsed)
}

} // verus!
