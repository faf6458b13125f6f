//! The duration-tracking primitive behind the clock display and the
//! count-down timers. It works on plain elapsed milliseconds handed in by
//! the caller, so its whole behaviour — ticking and digit decomposition —
//! is stated and proved here; only reading the real clock stays outside.

use vstd::arithmetic::div_mod::lemma_fundamental_div_mod_converse;
use vstd::prelude::*;

verus! {

/// Milliseconds in one second.
pub const MILLIS_PER_SECOND: u64 = 1000;

/// Milliseconds in one minute.
pub const MILLIS_PER_MINUTE: u64 = 60000;

/// Milliseconds in one hour.
pub const MILLIS_PER_HOUR: u64 = 3600000;

/// Whether the primitive counts up from its start (a clock) or down toward
/// zero from an initial budget (a timer).
#[derive(Clone, Copy, Debug, PartialEq, Eq, Structural)]
pub enum TimerMode {
    Clock,
    Timer,
}

/// A duration tracker: in `Clock` mode `duration_ms` is the time elapsed
/// since the start instant; in `Timer` mode it is the time remaining out of
/// an initial budget of `target_ms`, floored at zero.
#[derive(Clone, Copy, Debug, PartialEq, Eq, Structural)]
pub struct TimePrimitive {
    pub mode: TimerMode,
    pub target_ms: u64,
    pub duration_ms: u64,
}

/// Whole hours in a duration of `ms` milliseconds (no day rollover: hours
/// keep growing past 24).
pub open spec fn spec_hours(ms: int) -> int {
    ms / (MILLIS_PER_HOUR as int)
}

/// The hours digit as displayed: whole hours, saturated at the largest
/// value an eight-bit display field can carry.
pub open spec fn spec_hours_display(ms: int) -> int {
    if spec_hours(ms) > 255 {
        255
    } else {
        spec_hours(ms)
    }
}

/// The minutes digit: whole minutes past the hour, in `[0, 60)`.
pub open spec fn spec_minutes(ms: int) -> int {
    (ms / (MILLIS_PER_MINUTE as int)) % 60
}

/// The seconds digit: whole seconds past the minute, in `[0, 60)`.
pub open spec fn spec_seconds(ms: int) -> int {
    (ms / (MILLIS_PER_SECOND as int)) % 60
}

/// The sub-second remainder in whole milliseconds, in `[0, 1000)`.
pub open spec fn spec_sub_millis(ms: int) -> int {
    ms % (MILLIS_PER_SECOND as int)
}

/// The duration a primitive holds after a tick that observes `elapsed_ms`
/// milliseconds since the start instant: a clock accumulates without bound,
/// a count-down timer saturates at zero once the budget is spent.
pub open spec fn spec_duration_after_tick(p: TimePrimitive, elapsed_ms: u64) -> int {
    match p.mode {
        TimerMode::Clock => elapsed_ms as int,
        TimerMode::Timer => if elapsed_ms >= p.target_ms {
            0
        } else {
            p.target_ms - elapsed_ms
        },
    }
}

impl TimePrimitive {
    /// A count-up primitive starting at zero elapsed time.
    pub fn clock() -> (r: TimePrimitive)
        ensures
            r.mode == TimerMode::Clock,
            r.target_ms == 0,
            r.duration_ms == 0,
    {
        TimePrimitive { mode: TimerMode::Clock, target_ms: 0, duration_ms: 0 }
    }

    /// A count-down primitive with a budget of `seconds` whole seconds,
    /// initially untouched.
    pub fn from_secs(seconds: usize) -> (r: TimePrimitive)
        requires
            seconds * (MILLIS_PER_SECOND as int) <= u64::MAX,
        ensures
            r.mode == TimerMode::Timer,
            r.target_ms == seconds * (MILLIS_PER_SECOND as int),
            r.duration_ms == r.target_ms,
    {
        let target_ms: u64 = (seconds as u64) * MILLIS_PER_SECOND;
        TimePrimitive { mode: TimerMode::Timer, target_ms, duration_ms: target_ms }
    }

    /// Recomputes the held duration from the time elapsed since the start
    /// instant. The mode and the budget never change.
    pub fn tick(&mut self, elapsed_ms: u64)
        ensures
            final(self).mode == old(self).mode,
            final(self).target_ms == old(self).target_ms,
            final(self).duration_ms == spec_duration_after_tick(*old(self), elapsed_ms),
    {
        match self.mode {
            TimerMode::Clock => {
                self.duration_ms = elapsed_ms;
            },
            TimerMode::Timer => {
                if elapsed_ms >= self.target_ms {
                    self.duration_ms = 0;
                } else {
                    self.duration_ms = self.target_ms - elapsed_ms;
                }
            },
        }
    }

    /// The display digits of the held duration: hours (saturated at 255),
    /// minutes and seconds, truncated to whole units.
    pub fn get_digits(&self) -> (r: (u8, u8, u8))
        ensures
            r.0 == spec_hours_display(self.duration_ms as int),
            r.1 == spec_minutes(self.duration_ms as int),
            r.2 == spec_seconds(self.duration_ms as int),
    {
        let whole_hours: u64 = self.duration_ms / MILLIS_PER_HOUR;
        let hours: u8 = if whole_hours > 255 {
            255
        } else {
            whole_hours as u8
        };
        let minutes: u8 = ((self.duration_ms / MILLIS_PER_MINUTE) % 60) as u8;
        let seconds: u8 = ((self.duration_ms / MILLIS_PER_SECOND) % 60) as u8;
        (hours, minutes, seconds)
    }

    /// The sub-second remainder of the held duration in whole milliseconds.
    pub fn get_millis(&self) -> (r: usize)
        ensures
            r == spec_sub_millis(self.duration_ms as int),
    {
        (self.duration_ms % MILLIS_PER_SECOND) as usize
    }
}

/// A duration assembled from digits decomposes back to exactly those
/// digits: `h` hours, `m` minutes, `s` seconds and `ms` milliseconds, with
/// the minute, second and millisecond parts in range, are recovered exactly
/// by the digit functions.
pub proof fn lemma_digits_round_trip(h: u8, m: u8, s: u8, ms: u16)
    requires
        m < 60,
        s < 60,
        ms < 1000,
    ensures
        spec_hours(h * 3600000 + m * 60000 + s * 1000 + ms) == h,
        spec_minutes(h * 3600000 + m * 60000 + s * 1000 + ms) == m,
        spec_seconds(h * 3600000 + m * 60000 + s * 1000 + ms) == s,
        spec_sub_millis(h * 3600000 + m * 60000 + s * 1000 + ms) == ms,
{
    let d: int = h * 3600000 + m * 60000 + s * 1000 + ms;
    let secs: int = h * 3600 + m * 60 + s;
    assert(d == secs * 1000 + ms) by (nonlinear_arith)
        requires
            d == h * 3600000 + m * 60000 + s * 1000 + ms,
            secs == h * 3600 + m * 60 + s,
    ;
    lemma_fundamental_div_mod_converse(d, 1000, secs, ms as int);
    assert(d / 1000 == secs);
    assert(d % 1000 == ms);
    assert(secs == (h * 60 + m) * 60 + s) by (nonlinear_arith)
        requires
            secs == h * 3600 + m * 60 + s,
    ;
    lemma_fundamental_div_mod_converse(secs, 60, h * 60 + m, s as int);
    assert(secs % 60 == s);
    assert(d == (h * 60 + m) * 60000 + (s * 1000 + ms)) by (nonlinear_arith)
        requires
            d == h * 3600000 + m * 60000 + s * 1000 + ms,
    ;
    assert(0 <= s * 1000 + ms < 60000) by (nonlinear_arith)
        requires
            s < 60,
            ms < 1000,
    ;
    lemma_fundamental_div_mod_converse(d, 60000, h * 60 + m, s * 1000 + ms);
    assert(d / 60000 == h * 60 + m);
    lemma_fundamental_div_mod_converse(h * 60 + m, 60, h as int, m as int);
    assert((h * 60 + m) % 60 == m);
    assert(d == h * 3600000 + (m * 60000 + s * 1000 + ms)) by (nonlinear_arith)
        requires
            d == h * 3600000 + m * 60000 + s * 1000 + ms,
    ;
    assert(0 <= m * 60000 + s * 1000 + ms < 3600000) by (nonlinear_arith)
        requires
            m < 60,
            s < 60,
            ms < 1000,
    ;
    lemma_fundamental_div_mod_converse(d, 3600000, h as int, m * 60000 + s * 1000 + ms);
    assert(d / 3600000 == h);
}

} // verus!
