//! One count-down timer of the timer list: the primitive plus the display
//! digits materialized from it and the timer's list-assigned identifier.

use crate::primitive::MILLIS_PER_SECOND;
use crate::primitive::TimePrimitive;
use crate::primitive::TimerMode;
use crate::primitive::spec_duration_after_tick;
use crate::primitive::spec_hours_display;
use crate::primitive::spec_minutes;
use crate::primitive::spec_seconds;
use crate::primitive::spec_sub_millis;
use vstd::prelude::*;

verus! {

/// A count-down timer with its display digits and its identifier within
/// the timer list (zero until the list assigns one).
#[derive(Clone, Copy, Debug)]
pub struct TauriTimer {
    pub timer: TimePrimitive,
    pub hours: u8,
    pub minutes: u8,
    pub seconds: u8,
    pub milliseconds: usize,
    pub id: usize,
}

impl TauriTimer {
    /// True when the display fields carry exactly the digits of the held
    /// duration.
    pub open spec fn digits_materialized(&self) -> bool {
        &&& self.hours == spec_hours_display(self.timer.duration_ms as int)
        &&& self.minutes == spec_minutes(self.timer.duration_ms as int)
        &&& self.seconds == spec_seconds(self.timer.duration_ms as int)
        &&& self.milliseconds == spec_sub_millis(self.timer.duration_ms as int)
    }

    /// A fresh count-down timer with a budget of `seconds` whole seconds,
    /// its digits already materialized and no identifier yet.
    pub fn new(seconds: usize) -> (r: TauriTimer)
        requires
            seconds * (MILLIS_PER_SECOND as int) <= u64::MAX,
        ensures
            r.timer.mode == TimerMode::Timer,
            r.timer.target_ms == seconds * (MILLIS_PER_SECOND as int),
            r.timer.duration_ms == r.timer.target_ms,
            r.digits_materialized(),
            r.id == 0,
    {
        let timer = TimePrimitive::from_secs(seconds);
        let (hours, minutes, seconds) = timer.get_digits();
        let milliseconds = timer.get_millis();
        TauriTimer { timer, hours, minutes, seconds, milliseconds, id: 0 }
    }

    /// Recomputes the display digits from the primitive's current
    /// duration; the primitive and the identifier stay as they were.
    pub fn fill_timer(&mut self)
        ensures
            final(self).timer == old(self).timer,
            final(self).id == old(self).id,
            final(self).digits_materialized(),
    {
        let (hours, minutes, seconds) = self.timer.get_digits();
        let milliseconds = self.timer.get_millis();
        self.hours = hours;
        self.minutes = minutes;
        self.seconds = seconds;
        self.milliseconds = milliseconds;
    }

    /// Advances the primitive to `elapsed_ms` milliseconds past the start
    /// instant; the display digits are not refreshed here.
    pub fn timer_call(&mut self, elapsed_ms: u64)
        ensures
            final(self).timer.mode == old(self).timer.mode,
            final(self).timer.target_ms == old(self).timer.target_ms,
            final(self).timer.duration_ms == spec_duration_after_tick(old(self).timer, elapsed_ms),
            final(self).hours == old(self).hours,
            final(self).minutes == old(self).minutes,
            final(self).seconds == old(self).seconds,
            final(self).milliseconds == old(self).milliseconds,
            final(self).id == old(self).id,
    {
        self.timer.tick(elapsed_ms);
    }

    /// Assigns the timer's identifier within the list.
    pub fn set_id(&mut self, id: usize)
        ensures
            *final(self) == (TauriTimer { id, ..*old(self) }),
    {
        self.id = id;
    }
}

} // verus!
