//! Debounced ground / line presence sensing.
//!
//! A ground sensor watches one digital input line and keeps the time since
//! the line last read active.  It reports a presence while that idle time
//! stays under a fixed debounce threshold, so brief signal dropouts do not
//! flicker the reading off.

use vstd::prelude::*;

verus! {

/// Idle time, in microseconds, at which the sensor stops reporting a
/// presence (0.2 s).
pub const DEBOUNCE_US: u64 = 200_000;

/// Debounced presence detector over one digital input line.
///
/// `idle_us` is the time since the line last read active.  It is capped at
/// `DEBOUNCE_US`: beyond the threshold its exact value makes no difference
/// to `sensing`, and the cap keeps the accumulator from ever overflowing.
pub struct GroundSensor {
    pub idle_us: u64,
}

impl GroundSensor {
    pub open spec fn wf(self) -> bool {
        self.idle_us <= DEBOUNCE_US
    }

    /// The idle accumulator after one tick: reset on an active read,
    /// otherwise grown by the tick's elapsed time and capped.
    pub open spec fn spec_update(idle: int, active: bool, dt: int) -> int {
        if active {
            0
        } else if idle + dt >= DEBOUNCE_US {
            DEBOUNCE_US as int
        } else {
            idle + dt
        }
    }

    /// Whether the sensor currently reports a presence.
    pub open spec fn spec_sensing(self) -> bool {
        self.idle_us < DEBOUNCE_US
    }

    /// A fresh sensor starts with an empty accumulator, so it reports a
    /// presence until the line has been idle for the debounce time.
    pub fn new() -> (s: GroundSensor)
        ensures
            s.wf(),
            s.idle_us == 0,
    {
        GroundSensor { idle_us: 0 }
    }

    /// Feed one tick: `active` is the level read from the line this tick,
    /// `dt_us` the time elapsed since the previous tick.
    pub fn update(&mut self, active: bool, dt_us: u64)
        requires
            old(self).wf(),
        ensures
            final(self).wf(),
            final(self).idle_us == Self::spec_update(old(self).idle_us as int, active, dt_us as int),
    {
        if active {
            self.idle_us = 0;
        } else if dt_us >= DEBOUNCE_US || self.idle_us >= DEBOUNCE_US - dt_us {
            self.idle_us = DEBOUNCE_US;
        } else {
            self.idle_us = self.idle_us + dt_us;
        }
    }

    /// True iff the line has read active within the debounce window.
    pub fn sensing(&self) -> (r: bool)
        ensures
            r == self.spec_sensing(),
    {
        self.idle_us < DEBOUNCE_US
    }
}

/// The idle accumulator after a whole run of ticks.
pub open spec fn run_idle(idle: int, steps: Seq<(bool, u64)>) -> int
    decreases steps.len(),
{
    if steps.len() == 0 {
        idle
    } else {
        run_idle(
            GroundSensor::spec_update(idle, steps[0].0, steps[0].1 as int),
            steps.drop_first(),
        )
    }
}

/// Total elapsed time of a run of inactive ticks.
pub open spec fn sum_dt(steps: Seq<(bool, u64)>) -> int
    decreases steps.len(),
{
    if steps.len() == 0 {
        0
    } else {
        steps[0].1 + sum_dt(steps.drop_first())
    }
}

pub proof fn lemma_sum_dt_nonneg(steps: Seq<(bool, u64)>)
    ensures
        sum_dt(steps) >= 0,
    decreases steps.len(),
{
    if steps.len() > 0 {
        lemma_sum_dt_nonneg(steps.drop_first());
    }
}

/// On a run with no active read, the idle accumulator is the starting idle
/// time plus the run's total elapsed time, capped at the debounce
/// threshold.
pub proof fn lemma_idle_accumulates(idle: int, steps: Seq<(bool, u64)>)
    requires
        0 <= idle <= DEBOUNCE_US,
        forall|i: int| 0 <= i < steps.len() ==> !(#[trigger] steps[i]).0,
    ensures
        run_idle(idle, steps) == if idle + sum_dt(steps) >= DEBOUNCE_US {
            DEBOUNCE_US as int
        } else {
            idle + sum_dt(steps)
        },
    decreases steps.len(),
{
    if steps.len() > 0 {
        let next = GroundSensor::spec_update(idle, steps[0].0, steps[0].1 as int);
        assert(forall|i: int|
            0 <= i < steps.drop_first().len() ==> !(#[trigger] steps.drop_first()[i]).0);
        lemma_sum_dt_nonneg(steps.drop_first());
        lemma_idle_accumulates(next, steps.drop_first());
    }
}

/// Presence decay: immediately after an active read the sensor reports a
/// presence; it keeps reporting one over any run of idle ticks whose
/// cumulative elapsed time stays under the debounce threshold, and stops
/// reporting one once that time reaches the threshold.
pub proof fn lemma_presence_decay(steps: Seq<(bool, u64)>)
    requires
        forall|i: int| 0 <= i < steps.len() ==> !(#[trigger] steps[i]).0,
    ensures
        (GroundSensor { idle_us: 0 }).spec_sensing(),
        sum_dt(steps) < DEBOUNCE_US ==> run_idle(0, steps) < DEBOUNCE_US,
        sum_dt(steps) >= DEBOUNCE_US ==> run_idle(0, steps) == DEBOUNCE_US,
{
    lemma_idle_accumulates(0, steps);
}

} // verus!
