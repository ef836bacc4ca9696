//! Time in ticks of the scheduler.
use vstd::prelude::*;

verus! {

/// The number of ticks to wait for a delay of `ms` milliseconds, on a
/// scheduler with `tick_rate_hz` ticks per second: `ms` divided by the whole
/// milliseconds that a tick takes. The rate must be between 1 and 1000, so
/// that a tick takes a millisecond at least.
pub fn delay_ms(ms: usize, tick_rate_hz: usize) -> (ticks: usize)
    requires
        1 <= tick_rate_hz <= 1000,
    ensures
        ticks == ms / (1000usize / tick_rate_hz),
{
    assert(1000usize / tick_rate_hz >= 1) by (nonlinear_arith)
        requires
            1 <= tick_rate_hz <= 1000,
    ;
    ms / (1000 / tick_rate_hz)
}

} // verus!
