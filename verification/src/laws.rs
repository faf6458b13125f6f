//! The library-wide guarantees that relate whole sequences of operations,
//! proved over the same models the handlers' contracts use.

use crate::state::TimerList;
use vstd::prelude::*;

verus! {

/// One mutation of the power counter: a worker tick folding in a bounded
/// draw, or an explicit reset.
pub enum PowerMutation {
    Perturb(u32),
    Reset,
}

/// The power counter after one mutation.
pub open spec fn power_step(power: int, m: PowerMutation) -> int {
    match m {
        PowerMutation::Perturb(draw) => (power + draw) % 101,
        PowerMutation::Reset => 0,
    }
}

/// The power counter after a whole sequence of mutations, applied in
/// order from `init`.
pub open spec fn power_after(init: int, muts: Seq<PowerMutation>) -> int
    decreases muts.len(),
{
    if muts.len() == 0 {
        init
    } else {
        power_step(power_after(init, muts.drop_last()), muts.last())
    }
}

/// For every sequence of power mutations, the counter stays in `[0, 100]`
/// at every observation point: whatever prefix of ticks and resets has
/// run, the value observed is a percentage.
pub proof fn lemma_power_always_bounded(init: int, muts: Seq<PowerMutation>)
    requires
        0 <= init <= 100,
    ensures
        0 <= power_after(init, muts) <= 100,
    decreases muts.len(),
{
    if muts.len() > 0 {
        lemma_power_always_bounded(init, muts.drop_last());
    }
}

/// Identifiers in a well-formed timer list are strictly increasing along
/// the list, so no identifier is ever repeated, and a removal added later
/// could not make one reappear.
pub proof fn lemma_timer_ids_strictly_increasing(list: TimerList)
    requires
        list.wf(),
    ensures
        forall|i: int, j: int|
            0 <= i < j < list.timers@.len() ==> #[trigger] list.timers@[i].id
                < #[trigger] list.timers@[j].id,
{
    assert forall|i: int, j: int|
        0 <= i < j < list.timers@.len() implies #[trigger] list.timers@[i].id
        < #[trigger] list.timers@[j].id by {
        assert(list.timers@[i].id == i + 1);
        assert(list.timers@[j].id == j + 1);
    }
}

/// One completed call against the authentication state that writes it.
pub enum AuthOp {
    Login,
    Logout,
}

/// The login flag after one completed call.
pub open spec fn auth_step(logged_in: bool, op: AuthOp) -> bool {
    match op {
        AuthOp::Login => true,
        AuthOp::Logout => false,
    }
}

/// The login flag after a whole sequence of completed calls, applied in
/// order from `init`.
pub open spec fn auth_after(init: bool, ops: Seq<AuthOp>) -> bool
    decreases ops.len(),
{
    if ops.len() == 0 {
        init
    } else {
        auth_step(auth_after(init, ops.drop_last()), ops.last())
    }
}

/// However many completed login and logout calls are interleaved, the
/// observed flag is never a torn value: it is exactly what the last
/// completed writing call set (or the initial value when none has
/// completed), never anything no call wrote.
pub proof fn lemma_auth_last_writer_wins(init: bool, ops: Seq<AuthOp>)
    ensures
        ops.len() == 0 ==> auth_after(init, ops) == init,
        ops.len() > 0 ==> auth_after(init, ops) == (ops.last() is Login),
{
}

} // verus!
