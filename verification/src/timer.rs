//! The sync timer: a repeating interval that says when the dispatcher is
//! due. Time is counted in nanoseconds.

use bevy::time::{Timer, TimerMode};
use std::time::Duration;
use vstd::prelude::*;

verus! {

/// A timer that tracks elapsed time against a duration.
#[verifier::external_type_specification]
#[verifier::external_body]
pub struct ExTimer(Timer);

/// The time that the timer has counted since it last started over, in
/// nanoseconds.
pub uninterp spec fn timer_elapsed(timer: Timer) -> nat;

/// The timer's duration, in nanoseconds.
pub uninterp spec fn timer_period(timer: Timer) -> nat;

/// How many times the timer reached its duration in its last tick.
pub uninterp spec fn timer_laps(timer: Timer) -> nat;

/// Whether the timer starts over when it reaches its duration.
pub uninterp spec fn timer_repeating(timer: Timer) -> bool;

/// Whether the timer is paused.
pub uninterp spec fn timer_paused(timer: Timer) -> bool;

/// What one step of the sync timer does: from the time counted so far, the
/// period and the time that passed, the time counted afterwards and whether
/// the dispatcher is due. It is due exactly when the period is reached, and
/// the count then starts over from zero.
pub open spec fn spec_advance(elapsed: nat, period: nat, delta: nat) -> (nat, bool) {
    if elapsed + delta >= period {
        (0, true)
    } else {
        (elapsed + delta, false)
    }
}

/// The time counted after feeding `deltas` one after the other.
pub open spec fn elapsed_after(elapsed: nat, period: nat, deltas: Seq<nat>) -> nat
    decreases deltas.len(),
{
    if deltas.len() == 0 {
        elapsed
    } else {
        spec_advance(elapsed_after(elapsed, period, deltas.drop_last()), period, deltas.last()).0
    }
}

/// How many times the dispatcher came due while feeding `deltas` one after
/// the other.
pub open spec fn fires(elapsed: nat, period: nat, deltas: Seq<nat>) -> nat
    decreases deltas.len(),
{
    if deltas.len() == 0 {
        0
    } else {
        let before = deltas.drop_last();
        let due = spec_advance(elapsed_after(elapsed, period, before), period, deltas.last()).1;
        fires(elapsed, period, before) + if due {
            1nat
        } else {
            0nat
        }
    }
}

/// The sum of `deltas`.
pub open spec fn total(deltas: Seq<nat>) -> nat
    decreases deltas.len(),
{
    if deltas.len() == 0 {
        0
    } else {
        total(deltas.drop_last()) + deltas.last()
    }
}

/// Feeding a fresh timer exactly its period makes the dispatcher due
/// exactly once, and the count starts over.
pub proof fn lemma_exact_period_fires_once(period: nat)
    ensures
        fires(0, period, seq![period]) == 1,
        elapsed_after(0, period, seq![period]) == 0,
{
    let deltas = seq![period];
    assert(deltas.drop_last() =~= Seq::<nat>::empty());
    assert(deltas.last() == period);
    assert(elapsed_after(0, period, deltas.drop_last()) == 0);
    assert(fires(0, period, deltas.drop_last()) == 0);
}

/// Feeding a fresh timer less than its period, in any number of steps,
/// never makes the dispatcher due; the timer has then counted the sum.
pub proof fn lemma_below_period_never_fires(period: nat, deltas: Seq<nat>)
    requires
        total(deltas) < period,
    ensures
        fires(0, period, deltas) == 0,
        elapsed_after(0, period, deltas) == total(deltas),
    decreases deltas.len(),
{
    if deltas.len() > 0 {
        lemma_below_period_never_fires(period, deltas.drop_last());
    }
}

/// The sync timer.
pub struct DojoSyncTime {
    timer: Timer,
    period: u64,
}

impl DojoSyncTime {
    /// The timer repeats, is not paused, has the period it was made with,
    /// which is not zero, and has not reached it.
    #[verifier::type_invariant]
    spec fn wf(&self) -> bool {
        &&& self.period > 0
        &&& timer_period(self.timer) == self.period
        &&& timer_repeating(self.timer)
        &&& !timer_paused(self.timer)
        &&& timer_elapsed(self.timer) < self.period
    }

    /// The period, in nanoseconds.
    pub closed spec fn spec_period(&self) -> nat {
        self.period as nat
    }

    /// The time counted since the dispatcher was last due, in nanoseconds.
    pub closed spec fn spec_elapsed(&self) -> nat {
        timer_elapsed(self.timer)
    }

    /// A timer with the given period in nanoseconds that has counted
    /// nothing yet. A period of zero gives no timer.
    pub fn from_nanos(period_nanos: u64) -> (out: Option<DojoSyncTime>)
        ensures
            out is Some <==> period_nanos > 0,
            out matches Some(sync) ==> sync.spec_period() == period_nanos && sync.spec_elapsed()
                == 0,
    {
        if period_nanos == 0 {
            None
        } else {
            Some(DojoSyncTime { timer: new_repeating_timer(period_nanos), period: period_nanos })
        }
    }

    /// The period, in nanoseconds.
    pub fn period(&self) -> (period: u64)
        ensures
            period == self.spec_period(),
    {
        self.period
    }

    /// The time counted since the dispatcher was last due, in nanoseconds.
    pub fn elapsed(&self) -> (elapsed: u64)
        ensures
            elapsed == self.spec_elapsed(),
            elapsed < self.spec_period(),
    {
        proof {
            use_type_invariant(self);
        }
        timer_elapsed_nanos(&self.timer) as u64
    }

    /// Counts `delta_nanos` more and says whether the dispatcher is due. It
    /// is due exactly when the time counted reaches the period; the count
    /// then starts over from zero, and what went beyond the period is not
    /// carried over.
    pub fn advance(&mut self, delta_nanos: u64) -> (due: bool)
        ensures
            final(self).spec_period() == old(self).spec_period(),
            (final(self).spec_elapsed(), due) == spec_advance(
                old(self).spec_elapsed(),
                old(self).spec_period(),
                delta_nanos as nat,
            ),
    {
        proof {
            use_type_invariant(&*self);
        }
        let counted: u64 = timer_elapsed_nanos(&self.timer) as u64;
        let left: u64 = self.period - counted;
        let step: u64 = if delta_nanos < left {
            delta_nanos
        } else {
            left
        };
        proof {
            let period = self.period as int;
            assert(period / period == 1 && period * 1 == period) by (nonlinear_arith)
                requires
                    period > 0,
            ;
            assert(1int % 0x1_0000_0000 == 1);
        }
        timer_tick(&mut self.timer, step);
        if timer_just_finished(&self.timer) {
            timer_reset(&mut self.timer);
            true
        } else {
            false
        }
    }
}

/// Calls `Timer::new` with `Duration::from_nanos(period_nanos)` and
/// `TimerMode::Repeating`. Claimed: the new timer repeats, is not paused,
/// has that duration, and has counted nothing.
#[verifier::external_body]
fn new_repeating_timer(period_nanos: u64) -> (timer: Timer)
    ensures
        timer_elapsed(timer) == 0,
        timer_period(timer) == period_nanos,
        timer_laps(timer) == 0,
        timer_repeating(timer),
        !timer_paused(timer),
{
    Timer::new(Duration::from_nanos(period_nanos), TimerMode::Repeating)
}

/// Calls `Timer::elapsed` and `Duration::as_nanos` on what it gives.
/// Claimed: it is the time that the timer has counted.
#[verifier::external_body]
fn timer_elapsed_nanos(timer: &Timer) -> (nanos: u128)
    ensures
        nanos == timer_elapsed(*timer),
{
    timer.elapsed().as_nanos()
}

/// Calls `Timer::tick` with `Duration::from_nanos(delta_nanos)`, on a
/// repeating timer that is not paused. Claimed: the time counted grows by
/// the delta; where it reaches the duration, the timer notes how many times
/// it did, as a 32-bit number, and takes the duration off that many times;
/// duration, mode and pause stay. A duration of zero makes `tick` divide by
/// zero and is left out, and so is a sum beyond 64 bits, which is far below
/// what a `Duration` holds.
#[verifier::external_body]
fn timer_tick(timer: &mut Timer, delta_nanos: u64)
    requires
        timer_repeating(*old(timer)),
        !timer_paused(*old(timer)),
        timer_period(*old(timer)) > 0,
        timer_elapsed(*old(timer)) + delta_nanos <= u64::MAX,
    ensures
        timer_period(*final(timer)) == timer_period(*old(timer)),
        timer_repeating(*final(timer)),
        !timer_paused(*final(timer)),
        ({
            let sum = (timer_elapsed(*old(timer)) + delta_nanos) as int;
            let period = timer_period(*old(timer)) as int;
            if sum >= period {
                &&& timer_laps(*final(timer)) == (sum / period) % 0x1_0000_0000
                &&& timer_elapsed(*final(timer)) == sum - period * timer_laps(*final(timer))
            } else {
                &&& timer_laps(*final(timer)) == 0
                &&& timer_elapsed(*final(timer)) == sum
            }
        }),
    no_unwind
{
    timer.tick(Duration::from_nanos(delta_nanos));
}

/// Calls `Timer::just_finished`. Claimed: it says whether the timer reached
/// its duration in its last tick.
#[verifier::external_body]
fn timer_just_finished(timer: &Timer) -> (due: bool)
    ensures
        due == (timer_laps(*timer) > 0),
{
    timer.just_finished()
}

/// Calls `Timer::reset`. Claimed: the timer has counted nothing afterwards
/// and is not in a tick that reached the duration; duration, mode and pause
/// stay.
#[verifier::external_body]
fn timer_reset(timer: &mut Timer)
    ensures
        timer_elapsed(*final(timer)) == 0,
        timer_laps(*final(timer)) == 0,
        timer_period(*final(timer)) == timer_period(*old(timer)),
        timer_repeating(*final(timer)) == timer_repeating(*old(timer)),
        timer_paused(*final(timer)) == timer_paused(*old(timer)),
    no_unwind
{
    timer.reset();
}

} // verus!
