//! The count-up clock wrapped by the clock display state object.

use crate::primitive::TimePrimitive;
use crate::primitive::TimerMode;
use crate::primitive::spec_duration_after_tick;
use vstd::prelude::*;

verus! {

/// A count-up clock. The caller owns the start instant and hands every
/// tick the milliseconds elapsed since it.
#[derive(Clone, Copy, Debug)]
pub struct TauriClock {
    pub timer: TimePrimitive,
}

impl TauriClock {
    /// A clock that has seen no elapsed time yet.
    pub fn new() -> (r: TauriClock)
        ensures
            r.timer.mode == TimerMode::Clock,
            r.timer.duration_ms == 0,
    {
        TauriClock { timer: TimePrimitive::clock() }
    }

    /// Advances the clock to `elapsed_ms` milliseconds past its start
    /// instant.
    pub fn corner_clock_call(&mut self, elapsed_ms: u64)
        ensures
            final(self).timer.mode == old(self).timer.mode,
            final(self).timer.target_ms == old(self).timer.target_ms,
            final(self).timer.duration_ms == spec_duration_after_tick(old(self).timer, elapsed_ms),
    {
        self.timer.tick(elapsed_ms);
    }
}

} // verus!
