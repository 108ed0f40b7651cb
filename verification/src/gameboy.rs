//! Pacing: how many machine cycles the host owes the processor.
use vstd::prelude::*;

verus! {

/// Clock ticks per second.
pub const CPU_CLOCK_HZ: u128 = 4_194_304;

/// Clock ticks per machine cycle.
pub const M_CYCLE_CLOCK: u128 = 4;

/// Whole nanoseconds per machine cycle.
pub const M_CYCLE_NANOS: u128 = M_CYCLE_CLOCK * 1_000_000_000 / CPU_CLOCK_HZ;

/// The number of whole machine cycles between `elapsed`, the time already
/// run, and `now`, both in nanoseconds since the start; none when `now`
/// lies before `elapsed`.
pub fn cycles_due(now: u128, elapsed: u128) -> (n: u128)
    ensures
        M_CYCLE_NANOS == 953,
        now >= elapsed ==> n == (now - elapsed) / 953,
        now < elapsed ==> n == 0,
{
    if now >= elapsed {
        (now - elapsed) / M_CYCLE_NANOS
    } else {
        0
    }
}

} // verus!
