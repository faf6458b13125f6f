//! The four state entities the application shares between workers and
//! request handlers, plus the guard that keeps a listener session from
//! spawning a second broadcaster.

use crate::clock::TauriClock;
use crate::primitive::TimerMode;
use crate::primitive::spec_hours_display;
use crate::primitive::spec_minutes;
use crate::primitive::spec_seconds;
use crate::primitive::spec_sub_millis;
use crate::timer::TauriTimer;
use vstd::prelude::*;

verus! {

/// The power counter: an integer percentage, kept in `[0, 100]` by every
/// mutation reducing modulo 101.
#[derive(Clone, Copy, Debug)]
pub struct SystemState {
    pub power: i32,
}

impl SystemState {
    /// The invariant every mutation preserves: the counter is a
    /// percentage.
    pub open spec fn wf(&self) -> bool {
        0 <= self.power <= 100
    }
}

impl Default for SystemState {
    /// The process starts at full power.
    fn default() -> (r: Self)
        ensures
            r.power == 100,
            r.wf(),
    {
        Self { power: 100 }
    }
}

/// The authentication flag.
#[derive(Clone, Copy, Debug)]
pub struct AuthState {
    pub logged_in: bool,
}

impl Default for AuthState {
    /// The process starts logged out.
    fn default() -> (r: Self)
        ensures
            !r.logged_in,
    {
        Self { logged_in: false }
    }
}

/// The wall-clock display: a count-up clock and the digits materialized
/// from it by the clock ticker worker.
#[derive(Clone, Copy, Debug)]
pub struct SystemClock {
    pub clock: TauriClock,
    pub hours: u8,
    pub minutes: u8,
    pub seconds: u8,
    pub milliseconds: usize,
}

impl SystemClock {
    /// True when the display fields carry exactly the digits of the
    /// clock's current duration.
    pub open spec fn digits_materialized(&self) -> bool {
        &&& self.hours == spec_hours_display(self.clock.timer.duration_ms as int)
        &&& self.minutes == spec_minutes(self.clock.timer.duration_ms as int)
        &&& self.seconds == spec_seconds(self.clock.timer.duration_ms as int)
        &&& self.milliseconds == spec_sub_millis(self.clock.timer.duration_ms as int)
    }

    /// Recomputes the display digits from the clock's current duration;
    /// the clock itself stays as it is.
    pub fn fill_timer(&mut self)
        ensures
            final(self).clock == old(self).clock,
            final(self).digits_materialized(),
    {
        let (hours, minutes, seconds) = self.clock.timer.get_digits();
        let milliseconds = self.clock.timer.get_millis();
        self.hours = hours;
        self.minutes = minutes;
        self.seconds = seconds;
        self.milliseconds = milliseconds;
    }
}

impl Default for SystemClock {
    /// A clock bound to its start instant, with zeroed display digits.
    fn default() -> (r: Self)
        ensures
            r.clock.timer.mode == TimerMode::Clock,
            r.clock.timer.duration_ms == 0,
            r.hours == 0,
            r.minutes == 0,
            r.seconds == 0,
            r.milliseconds == 0,
    {
        Self { clock: TauriClock::new(), hours: 0, minutes: 0, seconds: 0, milliseconds: 0 }
    }
}

/// The append-only list of count-down timers, in creation order.
#[derive(Clone, Debug)]
pub struct TimerList {
    pub timers: Vec<TauriTimer>,
}

impl TimerList {
    /// The invariant the push handler maintains: the timer at position `i`
    /// carries the one-based identifier `i + 1`, so identifiers are the
    /// insertion positions and are never reused.
    pub open spec fn wf(&self) -> bool {
        forall|i: int| 0 <= i < self.timers@.len() ==> #[trigger] self.timers@[i].id == i + 1
    }

    /// Appends a timer at the end of the list.
    pub fn push_timer(&mut self, timer: TauriTimer)
        ensures
            final(self).timers@ == old(self).timers@.push(timer),
    {
        self.timers.push(timer);
    }

    /// An independent copy of the whole list, safe to hand to a caller.
    pub fn snapshot(&self) -> (r: TimerList)
        ensures
            r.timers@ == self.timers@,
    {
        let mut copied: Vec<TauriTimer> = Vec::new();
        let mut i: usize = 0;
        while i < self.timers.len()
            invariant
                i <= self.timers@.len(),
                copied@ == self.timers@.subrange(0, i as int),
            decreases self.timers@.len() - i,
        {
            copied.push(self.timers[i]);
            i = i + 1;
            proof {
                assert(copied@ =~= self.timers@.subrange(0, i as int));
            }
        }
        proof {
            assert(copied@ =~= self.timers@);
        }
        TimerList { timers: copied }
    }
}

impl Default for TimerList {
    /// The list starts empty.
    fn default() -> (r: Self)
        ensures
            r.timers@.len() == 0,
            r.wf(),
    {
        Self { timers: Vec::new() }
    }
}

/// Guards the one-time listener setup: remembers whether a broadcaster was
/// already spawned for the session, so a repeated setup call can be turned
/// away instead of spawning a second one.
#[derive(Clone, Copy, Debug)]
pub struct SetupGuard {
    pub started: bool,
}

impl SetupGuard {
    /// A guard for a session with no broadcaster yet.
    pub fn new() -> (r: SetupGuard)
        ensures
            !r.started,
    {
        SetupGuard { started: false }
    }

    /// Claims the right to spawn the session's broadcaster: true on the
    /// first call, false on every later one.
    pub fn try_start(&mut self) -> (r: bool)
        ensures
            final(self).started,
            r == !old(self).started,
    {
        let already = self.started;
        self.started = true;
        !already
    }
}

} // verus!
