//! One-shot countdowns in whole milliseconds: the shot cooldown, the weapon-switch
//! cooldown and the reload timer.
use vstd::prelude::*;
use crate::shooting::{spec_fires, ShootInput};
use crate::weapons::{WeaponState, WeaponStats};

verus! {

/// A countdown that runs once: it finishes when `duration_millis` have elapsed.
#[derive(Clone, Copy, Debug, PartialEq, Eq, Structural)]
pub struct OnceTimer {
    pub duration_millis: u32,
    pub elapsed_millis: u32,
}

impl OnceTimer {
    pub open spec fn well_formed(self) -> bool {
        self.elapsed_millis <= self.duration_millis
    }

    pub open spec fn spec_finished(self) -> bool {
        self.elapsed_millis >= self.duration_millis
    }

    /// A countdown of `duration_millis` that has just started.
    pub fn new(duration_millis: u32) -> (t: OnceTimer)
        ensures
            t == (OnceTimer { duration_millis, elapsed_millis: 0 }),
            t.well_formed(),
    {
        OnceTimer { duration_millis, elapsed_millis: 0 }
    }

    /// Whether the countdown has run out.
    pub fn finished(&self) -> (f: bool)
        ensures
            f == self.spec_finished(),
    {
        self.elapsed_millis >= self.duration_millis
    }

    /// Advances the countdown by `delta_millis`, stopping at its duration. Returns whether
    /// it ran out during this step.
    pub fn tick(&mut self, delta_millis: u32) -> (just_finished: bool)
        requires
            old(self).well_formed(),
        ensures
            final(self).well_formed(),
            final(self).duration_millis == old(self).duration_millis,
            final(self).elapsed_millis == spec_ticked_elapsed(*old(self), delta_millis as int),
            // The step is added to the elapsed time, which stops at the duration.
            old(self).elapsed_millis + delta_millis <= old(self).duration_millis
                ==> final(self).elapsed_millis == old(self).elapsed_millis + delta_millis,
            old(self).elapsed_millis + delta_millis >= old(self).duration_millis
                ==> final(self).elapsed_millis == old(self).duration_millis,
            just_finished == (!old(self).spec_finished() && final(self).spec_finished()),
    {
        let was_finished = self.elapsed_millis >= self.duration_millis;
        let remaining = self.duration_millis - self.elapsed_millis;
        if delta_millis >= remaining {
            self.elapsed_millis = self.duration_millis;
        } else {
            self.elapsed_millis = self.elapsed_millis + delta_millis;
        }
        !was_finished && self.elapsed_millis >= self.duration_millis
    }
}

pub open spec fn spec_ticked_elapsed(t: OnceTimer, delta: int) -> int {
    if t.elapsed_millis + delta >= t.duration_millis {
        t.duration_millis as int
    } else {
        t.elapsed_millis + delta
    }
}

/// A countdown that has run for less than its duration in total has not finished, and
/// one that has run for at least its duration has.
pub proof fn lemma_timer_finishes_after_duration(duration: u32, first: int, second: int)
    requires
        first >= 0,
        second >= 0,
    ensures
        ({
            let t0 = OnceTimer { duration_millis: duration, elapsed_millis: 0 };
            let t1 = OnceTimer { duration_millis: duration, elapsed_millis: spec_ticked_elapsed(t0, first) as u32 };
            let t2 = OnceTimer { duration_millis: duration, elapsed_millis: spec_ticked_elapsed(t1, second) as u32 };
            &&& t2.spec_finished() <==> first + second >= duration
        }),
{
}

/// The sum of a sequence of steps.
pub open spec fn steps_total(steps: Seq<nat>) -> int
    decreases steps.len(),
{
    if steps.len() == 0 { 0 } else { steps_total(steps.drop_last()) + steps.last() }
}

/// The timer after ticking through `steps` in order.
pub open spec fn run_ticks(t: OnceTimer, steps: Seq<nat>) -> OnceTimer
    decreases steps.len(),
{
    if steps.len() == 0 {
        t
    } else {
        let before = run_ticks(t, steps.drop_last());
        OnceTimer {
            duration_millis: before.duration_millis,
            elapsed_millis: spec_ticked_elapsed(before, steps.last() as int) as u32,
        }
    }
}

/// Ticking through any sequence of steps leaves the elapsed time at the initial elapsed
/// time plus the sum of the steps, capped at the duration; so the timer has finished
/// exactly when the steps add up to what was left of it.
pub proof fn lemma_ticks_accumulate(t: OnceTimer, steps: Seq<nat>)
    requires
        t.well_formed(),
    ensures
        run_ticks(t, steps).duration_millis == t.duration_millis,
        run_ticks(t, steps).well_formed(),
        t.elapsed_millis + steps_total(steps) <= t.duration_millis
            ==> run_ticks(t, steps).elapsed_millis == t.elapsed_millis + steps_total(steps),
        t.elapsed_millis + steps_total(steps) >= t.duration_millis
            ==> run_ticks(t, steps).elapsed_millis == t.duration_millis,
        run_ticks(t, steps).spec_finished() <==> t.elapsed_millis + steps_total(steps) >= t.duration_millis,
    decreases steps.len(),
{
    if steps.len() > 0 {
        lemma_ticks_accumulate(t, steps.drop_last());
    }
}

/// Two ticks in a row end where one tick by their sum ends.
pub proof fn lemma_tick_additive(t: OnceTimer, a: nat, b: nat)
    requires
        t.well_formed(),
    ensures
        ({
            let after_a = OnceTimer { duration_millis: t.duration_millis, elapsed_millis: spec_ticked_elapsed(t, a as int) as u32 };
            spec_ticked_elapsed(after_a, b as int) == spec_ticked_elapsed(t, (a + b) as int)
        }),
{
}

/// While the cooldown that a shot started is still running, no further round is fired:
/// firing needs `cooldown_active` to be false.
pub proof fn lemma_no_shot_before_fire_delay(
    cooldown: OnceTimer,
    input: ShootInput,
    stats: WeaponStats,
    state: WeaponState,
    reloading: bool,
)
    requires
        cooldown.well_formed(),
        input.cooldown_active == !cooldown.spec_finished(),
        cooldown.elapsed_millis < cooldown.duration_millis,
    ensures
        !spec_fires(input, stats, state, reloading),
{
}

} // verus!
