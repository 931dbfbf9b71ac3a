//! The engine's clock.

use vstd::prelude::*;

verus! {

/// Resource that stores engine time info. Instants and durations are
/// counted in nanoseconds.
#[derive(Debug, Clone, Copy, PartialEq, Eq, Structural)]
pub struct Clock {
    /// Number of times the clock has been ticked.
    pub ticks: u64,
    /// Instant of time the clock was last ticked.
    pub ticked_at: u64,
    /// Time between the latest tick and the previous tick.
    pub delta_time: u64,
}

/// A clock that has not ticked yet, started at the given instant.
pub fn setup(now: u64) -> (res: Clock)
    ensures
        res == (Clock { ticks: 0, ticked_at: now, delta_time: 0 }),
{
    Clock { ticks: 0, ticked_at: now, delta_time: 0 }
}

/// Ticks the clock at the given instant, which is not before the last
/// tick.
pub fn tick(clock: &mut Clock, now: u64)
    requires
        old(clock).ticks < u64::MAX,
        old(clock).ticked_at <= now,
    ensures
        final(clock).ticks == old(clock).ticks + 1,
        final(clock).delta_time == now - old(clock).ticked_at,
        final(clock).ticked_at == now,
{
    clock.ticks = clock.ticks + 1;
    clock.delta_time = now - clock.ticked_at;
    clock.ticked_at = now;
}

} // verus!
