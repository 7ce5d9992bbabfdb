//! The basic timer (TIM6) used for the periodic interrupt.

use vstd::prelude::*;

verus! {

/// Prescaler written to TIM6_PSC: the counter ticks once every 17 clock cycles.
pub const TIMER_PRESCALER: u32 = 16;

/// Auto-reload value written to TIM6_ARR: the full 16-bit count.
pub const TIMER_AUTO_RELOAD: u32 = 0xFFFF;

/// A handle on the configured timer.
pub struct Timer {
    timeout: u32,
}

impl Timer {
    pub closed spec fn spec_timeout(&self) -> u32 {
        self.timeout
    }

    /// A timer with no timeout recorded yet.
    pub fn new() -> (r: Timer)
        ensures
            r.spec_timeout() == 0,
    {
        Timer { timeout: 0 }
    }
}

} // verus!
