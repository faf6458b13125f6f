//! The request handlers and the per-iteration steps of the background
//! workers. Each handler works on the state object its caller has already
//! locked, mutates or reads it, and returns an independent snapshot; the
//! locking itself, and the mapping of a poisoned lock to
//! [`Error::PoisonedLock`], stay with the caller.

use crate::error::Error;
use crate::primitive::MILLIS_PER_SECOND;
use crate::primitive::TimerMode;
use crate::primitive::spec_duration_after_tick;
use crate::state::AuthState;
use crate::state::SystemClock;
use crate::state::SystemState;
use crate::state::TimerList;
use crate::timer::TauriTimer;
use vstd::prelude::*;

verus! {

/// The seed the power mutator hands the noise generator on every tick; a
/// fixed seed keeps the perturbation sequence reproducible per run.
pub const POWER_SEED: u32 = 127;

/// The exclusive upper bound on a power perturbation draw.
pub const POWER_DRAW_LIMIT: u32 = 100;

/// What the squirrel noise generator yields for one draw below `limit`
/// when freshly seeded with `seed`: a pure function of the two arguments.
pub uninterp spec fn squirrel_draw(seed: u32, limit: u32) -> u32;

/// Relies on squirrel_rng::SquirrelRng: `with_seed(seed)` followed by one
/// `gen_range(0..limit)` computes the deterministic squirrel3 noise of
/// position 0 and `seed` (pure integer mixing, no process or machine
/// state), reduced to `[0, limit)`; with `limit >= 1` it neither panics
/// nor leaves that range.
#[verifier::external_body]
fn draw_noise(seed: u32, limit: u32) -> (r: u32)
    requires
        1 <= limit,
    ensures
        r == squirrel_draw(seed, limit),
        r < limit,
{
    let mut rng = squirrel_rng::SquirrelRng::with_seed(seed);
    rng.gen_range(0..limit)
}

/// The bounded pseudo-random perturbation the power mutator applies on one
/// tick, for a caller-chosen seed.
pub fn power_perturbation(seed: u32) -> (r: u32)
    ensures
        r == squirrel_draw(seed, POWER_DRAW_LIMIT),
        r < POWER_DRAW_LIMIT,
{
    draw_noise(seed, POWER_DRAW_LIMIT)
}

/// Sets the login flag and returns the new snapshot.
pub fn login(state: &mut AuthState) -> (r: AuthState)
    ensures
        final(state).logged_in,
        r == *final(state),
{
    state.logged_in = true;
    *state
}

/// Clears the login flag and returns the new snapshot.
pub fn logout(state: &mut AuthState) -> (r: AuthState)
    ensures
        !final(state).logged_in,
        r == *final(state),
{
    state.logged_in = false;
    *state
}

/// Returns the current authentication snapshot without mutating it.
pub fn get_login(state: &AuthState) -> (r: AuthState)
    ensures
        r == *state,
{
    *state
}

/// Returns the current clock snapshot, digits as the ticker last
/// materialized them.
pub fn get_clock(state: &SystemClock) -> (r: SystemClock)
    ensures
        r == *state,
{
    *state
}

/// Sets the power counter to zero and returns the new snapshot.
pub fn reset_power(state: &mut SystemState) -> (r: SystemState)
    ensures
        final(state).power == 0,
        final(state).wf(),
        r == *final(state),
{
    state.power = 0;
    *state
}

/// Returns the current power snapshot without mutating it.
pub fn get_power(state: &SystemState) -> (r: SystemState)
    ensures
        r == *state,
{
    *state
}

/// Builds a count-down timer from `seconds`, assigns it the one-based
/// position it will occupy, appends it and returns a copy of the inserted
/// element.
pub fn push_timer(list: &mut TimerList, seconds: usize) -> (r: TauriTimer)
    requires
        seconds * (MILLIS_PER_SECOND as int) <= u64::MAX,
        old(list).timers@.len() < usize::MAX,
    ensures
        final(list).timers@ == old(list).timers@.push(r),
        r.id == old(list).timers@.len() + 1,
        r.timer.mode == TimerMode::Timer,
        r.timer.target_ms == seconds * (MILLIS_PER_SECOND as int),
        r.timer.duration_ms == r.timer.target_ms,
        r.digits_materialized(),
        old(list).wf() ==> final(list).wf(),
{
    let mut new_timer = TauriTimer::new(seconds);
    let list_size = list.timers.len();
    new_timer.set_id(list_size + 1);
    let timer_clone = new_timer;
    list.push_timer(new_timer);
    proof {
        if old(list).wf() {
            assert forall|i: int| 0 <= i < list.timers@.len() implies #[trigger] list.timers@[i].id
                == i + 1 by {
                if i < old(list).timers@.len() {
                    assert(old(list).timers@[i].id == i + 1);
                }
            }
        }
    }
    timer_clone
}

/// Returns an independent copy of the full timer list.
pub fn get_timer_list(list: &TimerList) -> (r: TimerList)
    ensures
        r.timers@ == list.timers@,
{
    list.snapshot()
}

/// Returns the timer at `index`, or the not-found error exactly when
/// `index` is past the end of the list.
pub fn get_timer_by_index(list: &TimerList, index: usize) -> (r: Result<TauriTimer, Error>)
    ensures
        match r {
            Ok(timer) => index < list.timers@.len() && timer == list.timers@[index as int],
            Err(e) => index >= list.timers@.len() && e.is_not_found(),
        },
{
    if index < list.timers.len() {
        Ok(list.timers[index])
    } else {
        Err(Error::not_found_index())
    }
}

/// One iteration of the clock ticker worker: advance the clock to
/// `elapsed_ms` past its start instant and rematerialize the display
/// digits.
pub fn clock_worker_step(clock: &mut SystemClock, elapsed_ms: u64)
    ensures
        final(clock).clock.timer.mode == old(clock).clock.timer.mode,
        final(clock).clock.timer.target_ms == old(clock).clock.timer.target_ms,
        final(clock).clock.timer.duration_ms == spec_duration_after_tick(
            old(clock).clock.timer,
            elapsed_ms,
        ),
        final(clock).digits_materialized(),
{
    clock.clock.corner_clock_call(elapsed_ms);
    clock.fill_timer();
}

/// Adds a perturbation draw to the power counter and reduces modulo 101,
/// so the counter stays a percentage.
pub fn apply_perturbation(power: i32, draw: u32) -> (r: i32)
    requires
        0 <= power <= 100,
        draw <= 100,
    ensures
        r == (power + draw) % 101,
        0 <= r <= 100,
{
    (power + (draw as i32)) % 101
}

/// One iteration of the power mutator worker: draw the seeded noise below
/// [`POWER_DRAW_LIMIT`] and fold it into the counter modulo 101.
pub fn power_worker_step(state: &mut SystemState, seed: u32)
    requires
        old(state).wf(),
    ensures
        final(state).wf(),
        final(state).power == (old(state).power + squirrel_draw(seed, POWER_DRAW_LIMIT)) % 101,
{
    let draw = draw_noise(seed, POWER_DRAW_LIMIT);
    state.power = apply_perturbation(state.power, draw);
}

/// One iteration of the broadcaster worker's bounded critical section:
/// clone the state to emit. Emission itself, and staying alive through a
/// transient emission failure, belong to the caller's loop.
pub fn broadcast_snapshot(state: &SystemState) -> (r: SystemState)
    ensures
        r == *state,
{
    *state
}

} // verus!
