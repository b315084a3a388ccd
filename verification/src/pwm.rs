//! Software-timed pulse-width modulation.
//!
//! A `PwmChannel` generates a square wave on one digital output line with
//! no hardware timer: every tick the caller reports how much time passed
//! and the channel accumulates it in a phase timer, driving the line low
//! once the on-time of the period has elapsed and high again once the
//! off-time has.  Duty cycles are held in ten-thousandths of full scale
//! (`DUTY_SCALE`), periods and timers in microseconds.

use vstd::prelude::*;
use vstd::arithmetic::mul::lemma_mul_inequality;
use vstd::arithmetic::mul::lemma_mul_upper_bound;
use vstd::arithmetic::mul::lemma_mul_nonnegative;
use vstd::arithmetic::mul::lemma_mul_is_distributive_add_other_way;
use vstd::arithmetic::mul::lemma_mul_is_distributive_sub_other_way;
use vstd::arithmetic::div_mod::lemma_div_is_ordered;
use vstd::arithmetic::div_mod::lemma_div_pos_is_pos;
use vstd::arithmetic::div_mod::lemma_div_multiples_vanish;
use vstd::arithmetic::div_mod::lemma_fundamental_div_mod;
use vstd::arithmetic::div_mod::lemma_mod_bound;

verus! {

/// Duty-cycle units per full scale: a duty of `DUTY_SCALE` keeps the line
/// high for the whole period.
pub const DUTY_SCALE: u32 = 10_000;

/// Duty magnitudes at or under this (one ten-thousandth of full scale) put
/// the channel in its stopped sub-state: the line is forced low and no
/// pulse is generated, which avoids degenerate on-times as the duty
/// approaches zero.
pub const STOP_DUTY: u32 = 1;

/// Upper bound on a configured period (1000 s), so that on-time
/// computations stay within machine integers.
pub const MAX_PERIOD_US: u64 = 1_000_000_000;

/// The period used for the motor channels (1 kHz).
pub const MOTOR_PERIOD_US: u64 = 1_000;

/// One software-timed PWM channel.
///
/// `duty` is the magnitude of the active duty cycle; `on` is the phase
/// flag; `line_high` is the level the channel drives on its output line.
/// The caller copies `line_high` to the hardware after each call.
pub struct PwmChannel {
    pub duty: u32,
    pub period_us: u64,
    pub timer_us: u64,
    pub on: bool,
    pub line_high: bool,
}

impl PwmChannel {
    /// Well-formedness: the duty is a fraction of full scale, the period
    /// is positive and bounded, the phase timer never reaches a full
    /// period, a stopped channel holds its line low, and a running
    /// channel's line follows its phase flag.
    pub open spec fn wf(self) -> bool {
        &&& self.duty <= DUTY_SCALE
        &&& 1 <= self.period_us <= MAX_PERIOD_US
        &&& self.timer_us < self.period_us
        &&& self.duty <= STOP_DUTY ==> !self.line_high
        &&& self.duty > STOP_DUTY ==> self.line_high == self.on
    }

    /// Time the line stays high in each period, in microseconds.
    pub open spec fn spec_on_time(self) -> int {
        self.duty * self.period_us / (DUTY_SCALE as int)
    }

    /// Time the line stays low in each period, in microseconds.
    pub open spec fn spec_off_time(self) -> int {
        (DUTY_SCALE - self.duty) * self.period_us / (DUTY_SCALE as int)
    }

    /// A fresh channel: no duty, line low, at the start of its off phase.
    pub fn new(period_us: u64) -> (s: PwmChannel)
        requires
            1 <= period_us <= MAX_PERIOD_US,
        ensures
            s.wf(),
            s == (PwmChannel { duty: 0, period_us, timer_us: 0, on: false, line_high: false }),
    {
        PwmChannel { duty: 0, period_us, timer_us: 0, on: false, line_high: false }
    }

    /// Request a new duty cycle.  `None` means "no command this tick" and
    /// leaves the channel unchanged.  A present value is clamped to
    /// `[-DUTY_SCALE, DUTY_SCALE]`; its magnitude becomes the active duty
    /// and the channel begins a fresh on phase, asserting the line high
    /// unless the new duty leaves it stopped.
    pub fn set_duty(&mut self, d: Option<i32>)
        requires
            old(self).wf(),
        ensures
            final(self).wf(),
            *final(self) == spec_set_duty(*old(self), d),
    {
        match d {
            None => {},
            Some(v) => {
                let hi = DUTY_SCALE as i32;
                let c: i32 = if v > hi {
                    hi
                } else if v < -hi {
                    -hi
                } else {
                    v
                };
                let mag: u32 = if c >= 0 {
                    c as u32
                } else {
                    (-c) as u32
                };
                self.duty = mag;
                self.timer_us = 0;
                self.on = true;
                self.line_high = mag > STOP_DUTY;
            },
        }
    }

    /// On-time of the current configuration, as a machine integer.
    fn on_time_us(&self) -> (r: u64)
        requires
            self.wf(),
        ensures
            r == self.spec_on_time(),
            r <= self.period_us,
    {
        proof {
            lemma_phase_times_bounded(*self);
        }
        (self.duty as u64) * self.period_us / (DUTY_SCALE as u64)
    }

    /// Off-time of the current configuration, as a machine integer.
    fn off_time_us(&self) -> (r: u64)
        requires
            self.wf(),
        ensures
            r == self.spec_off_time(),
            r <= self.period_us,
    {
        proof {
            lemma_phase_times_bounded(*self);
        }
        ((DUTY_SCALE - self.duty) as u64) * self.period_us / (DUTY_SCALE as u64)
    }

    /// Advance the phase timer by `dt_us` microseconds of elapsed time.
    ///
    /// A stopped channel only forces its line low.  Otherwise, once the
    /// timer crosses the current phase's length the line toggles, the
    /// phase flips and the timer resets; until then the line keeps its
    /// level.
    pub fn advance(&mut self, dt_us: u64)
        requires
            old(self).wf(),
        ensures
            final(self).wf(),
            *final(self) == spec_advance(*old(self), dt_us as int),
            old(self).duty <= STOP_DUTY ==> !final(self).line_high,
    {
        if self.duty <= STOP_DUTY {
            self.line_high = false;
        } else if self.on {
            let on_t = self.on_time_us();
            if dt_us >= on_t || self.timer_us >= on_t - dt_us {
                self.on = false;
                self.line_high = false;
                self.timer_us = 0;
            } else {
                self.timer_us = self.timer_us + dt_us;
            }
        } else {
            let off_t = self.off_time_us();
            if dt_us >= off_t || self.timer_us >= off_t - dt_us {
                self.on = true;
                self.line_high = true;
                self.timer_us = 0;
            } else {
                self.timer_us = self.timer_us + dt_us;
            }
        }
    }
}

/// Clamp a requested duty to `[-DUTY_SCALE, DUTY_SCALE]`.
pub open spec fn spec_clamp_duty(v: int) -> int {
    if v > DUTY_SCALE {
        DUTY_SCALE as int
    } else if v < -(DUTY_SCALE as int) {
        -(DUTY_SCALE as int)
    } else {
        v
    }
}

pub open spec fn spec_abs(v: int) -> int {
    if v >= 0 {
        v
    } else {
        -v
    }
}

/// The channel after a duty request: unchanged on `None`; otherwise the
/// clamped magnitude becomes the duty and a fresh on phase begins, with
/// the line high exactly when the channel is not stopped.
pub open spec fn spec_set_duty(s: PwmChannel, d: Option<i32>) -> PwmChannel {
    match d {
        None => s,
        Some(v) => {
            let mag = spec_abs(spec_clamp_duty(v as int));
            PwmChannel {
                duty: mag as u32,
                period_us: s.period_us,
                timer_us: 0,
                on: true,
                line_high: mag > STOP_DUTY,
            }
        },
    }
}

/// The channel after one advance by `dt` microseconds.
pub open spec fn spec_advance(s: PwmChannel, dt: int) -> PwmChannel {
    if s.duty <= STOP_DUTY {
        PwmChannel {
            duty: s.duty,
            period_us: s.period_us,
            timer_us: s.timer_us,
            on: s.on,
            line_high: false,
        }
    } else if s.on {
        if s.timer_us + dt >= s.spec_on_time() {
            PwmChannel {
                duty: s.duty,
                period_us: s.period_us,
                timer_us: 0,
                on: false,
                line_high: false,
            }
        } else {
            PwmChannel {
                duty: s.duty,
                period_us: s.period_us,
                timer_us: (s.timer_us + dt) as u64,
                on: true,
                line_high: true,
            }
        }
    } else {
        if s.timer_us + dt >= s.spec_off_time() {
            PwmChannel {
                duty: s.duty,
                period_us: s.period_us,
                timer_us: 0,
                on: true,
                line_high: true,
            }
        } else {
            PwmChannel {
                duty: s.duty,
                period_us: s.period_us,
                timer_us: (s.timer_us + dt) as u64,
                on: false,
                line_high: false,
            }
        }
    }
}

/// Both phase times are between zero and the period.
pub proof fn lemma_phase_times_bounded(s: PwmChannel)
    requires
        s.wf(),
    ensures
        0 <= s.spec_on_time() <= s.period_us,
        0 <= s.spec_off_time() <= s.period_us,
        s.duty * s.period_us <= DUTY_SCALE * MAX_PERIOD_US,
        (DUTY_SCALE - s.duty) * s.period_us <= DUTY_SCALE * MAX_PERIOD_US,
{
    let d = s.duty as int;
    let p = s.period_us as int;
    let scale = DUTY_SCALE as int;
    lemma_mul_nonnegative(d, p);
    lemma_mul_nonnegative(scale - d, p);
    lemma_div_pos_is_pos(d * p, scale);
    lemma_div_pos_is_pos((scale - d) * p, scale);
    lemma_mul_inequality(d, scale, p);
    lemma_mul_inequality(scale - d, scale, p);
    lemma_div_is_ordered(d * p, scale * p, scale);
    lemma_div_is_ordered((scale - d) * p, scale * p, scale);
    lemma_div_multiples_vanish(p, scale);
    lemma_mul_upper_bound(d, scale, p, MAX_PERIOD_US as int);
    lemma_mul_upper_bound(scale - d, scale, p, MAX_PERIOD_US as int);
}

/// Rounding of the phase times: the on-time is the integer part of
/// duty/DUTY_SCALE of a period, and one on phase plus one off phase cover
/// the period up to at most one microsecond lost to rounding.
pub proof fn lemma_phase_times_rounding(s: PwmChannel)
    requires
        s.wf(),
    ensures
        DUTY_SCALE * s.spec_on_time() <= s.duty * s.period_us,
        s.duty * s.period_us < DUTY_SCALE * (s.spec_on_time() + 1),
        s.period_us - 1 <= s.spec_on_time() + s.spec_off_time() <= s.period_us,
{
    let d = s.duty as int;
    let p = s.period_us as int;
    let scale = DUTY_SCALE as int;
    let q1 = d * p / scale;
    let r1 = d * p % scale;
    let q2 = (scale - d) * p / scale;
    let r2 = (scale - d) * p % scale;
    lemma_fundamental_div_mod(d * p, scale);
    lemma_fundamental_div_mod((scale - d) * p, scale);
    lemma_mod_bound(d * p, scale);
    lemma_mod_bound((scale - d) * p, scale);
    lemma_mul_is_distributive_sub_other_way(p, scale, d);
    assert(d * p + (scale - d) * p == scale * p);
    lemma_div_multiples_vanish(p, scale);
    assert(scale * p == scale * q1 + r1 + scale * q2 + r2);
    assert(scale * (p - q1 - q2) == r1 + r2) by {
        assert(scale * (p - q1 - q2) == scale * p - scale * q1 - scale * q2);
    }
    assert(0 <= r1 + r2 < 2 * scale);
    assert(p - q1 - q2 == 0 || p - q1 - q2 == 1);
}

/// The channel after a whole run of advances.
pub open spec fn run_pwm(s: PwmChannel, dts: Seq<u64>) -> PwmChannel
    decreases dts.len(),
{
    if dts.len() == 0 {
        s
    } else {
        run_pwm(spec_advance(s, dts[0] as int), dts.drop_first())
    }
}

/// Simulated time the line is high over a run of advances: each step
/// contributes its whole elapsed time when the line was high as the step
/// began.
pub open spec fn high_time(s: PwmChannel, dts: Seq<u64>) -> int
    decreases dts.len(),
{
    if dts.len() == 0 {
        0
    } else {
        (if s.line_high {
            dts[0] as int
        } else {
            0
        }) + high_time(spec_advance(s, dts[0] as int), dts.drop_first())
    }
}

/// Total simulated time of a run of advances.
pub open spec fn total_time(dts: Seq<u64>) -> int
    decreases dts.len(),
{
    if dts.len() == 0 {
        0
    } else {
        dts[0] + total_time(dts.drop_first())
    }
}

/// Stopped-channel law: with the duty magnitude at or under the stop
/// threshold and the line low, no run of advances ever raises the line or
/// changes the channel, so the line spends no time high.
pub proof fn lemma_stopped_stays_low(s: PwmChannel, dts: Seq<u64>)
    requires
        s.duty <= STOP_DUTY,
        !s.line_high,
    ensures
        run_pwm(s, dts) == s,
        high_time(s, dts) == 0,
    decreases dts.len(),
{
    if dts.len() > 0 {
        assert(spec_advance(s, dts[0] as int) == s);
        lemma_stopped_stays_low(s, dts.drop_first());
    }
}

/// Runs distribute over concatenation of schedules.
pub proof fn lemma_run_append(s: PwmChannel, a: Seq<u64>, b: Seq<u64>)
    ensures
        run_pwm(s, a + b) == run_pwm(run_pwm(s, a), b),
        high_time(s, a + b) == high_time(s, a) + high_time(run_pwm(s, a), b),
        total_time(a + b) == total_time(a) + total_time(b),
    decreases a.len(),
{
    if a.len() == 0 {
        assert(a + b =~= b);
    } else {
        assert((a + b)[0] == a[0]);
        assert((a + b).drop_first() =~= a.drop_first() + b);
        lemma_run_append(spec_advance(s, a[0] as int), a.drop_first(), b);
    }
}

/// Advancing a running channel at its two phase boundaries completes one
/// full period: the line is high for exactly the on-time, and the channel
/// returns to the start of a fresh on phase.
pub proof fn lemma_one_cycle(s: PwmChannel)
    requires
        s.wf(),
        STOP_DUTY < s.duty,
        s.on,
        s.timer_us == 0,
    ensures
        ({
            let dts = seq![s.spec_on_time() as u64, s.spec_off_time() as u64];
            &&& run_pwm(s, dts) == s
            &&& high_time(s, dts) == s.spec_on_time()
            &&& total_time(dts) == s.spec_on_time() + s.spec_off_time()
        }),
{
    lemma_phase_times_bounded(s);
    let on_us = s.spec_on_time() as u64;
    let off_us = s.spec_off_time() as u64;
    let dts = seq![on_us, off_us];
    let s1 = spec_advance(s, on_us as int);
    let s2 = spec_advance(s1, off_us as int);
    assert(dts.drop_first() =~= seq![off_us]);
    assert(seq![off_us].drop_first() =~= Seq::<u64>::empty());
    assert(s1.spec_off_time() == s.spec_off_time());
    assert(s2 == s);
    assert(run_pwm(s, dts) == run_pwm(s1, seq![off_us]));
    assert(run_pwm(s1, seq![off_us]) == run_pwm(s2, Seq::<u64>::empty()));
    assert(high_time(s, dts) == on_us + high_time(s1, seq![off_us]));
    assert(high_time(s1, seq![off_us]) == high_time(s2, Seq::<u64>::empty()));
    assert(total_time(dts) == on_us + total_time(seq![off_us]));
    assert(total_time(seq![off_us]) == off_us + total_time(Seq::<u64>::empty()));
}

/// A schedule of `n` periods, advancing at each phase boundary.
pub open spec fn cycle_schedule(on_us: u64, off_us: u64, n: nat) -> Seq<u64>
    decreases n,
{
    if n == 0 {
        Seq::empty()
    } else {
        seq![on_us, off_us] + cycle_schedule(on_us, off_us, (n - 1) as nat)
    }
}

/// Duty-fraction law: over a run of `n` full periods sampled at the phase
/// boundaries, a running channel is high for exactly `n` times its
/// on-time, out of `n` times its on-time plus off-time of total simulated
/// time — so the high fraction is the channel's integer approximation of
/// the requested duty fraction (see `lemma_phase_times_rounding` for how
/// close that approximation is), and the run ends back in its starting
/// state.
pub proof fn lemma_duty_fraction(s: PwmChannel, n: nat)
    requires
        s.wf(),
        STOP_DUTY < s.duty < DUTY_SCALE,
        s.on,
        s.timer_us == 0,
    ensures
        ({
            let dts = cycle_schedule(s.spec_on_time() as u64, s.spec_off_time() as u64, n);
            &&& run_pwm(s, dts) == s
            &&& high_time(s, dts) == n * s.spec_on_time()
            &&& total_time(dts) == n * (s.spec_on_time() + s.spec_off_time())
        }),
    decreases n,
{
    lemma_phase_times_bounded(s);
    let on_us = s.spec_on_time() as u64;
    let off_us = s.spec_off_time() as u64;
    let dts = cycle_schedule(on_us, off_us, n);
    if n == 0 {
        assert(high_time(s, dts) == 0);
        assert(total_time(dts) == 0);
    } else {
        let head = seq![on_us, off_us];
        let rest = cycle_schedule(on_us, off_us, (n - 1) as nat);
        lemma_one_cycle(s);
        lemma_run_append(s, head, rest);
        lemma_duty_fraction(s, (n - 1) as nat);
        lemma_mul_is_distributive_add_other_way(s.spec_on_time(), 1, n - 1);
        lemma_mul_is_distributive_add_other_way(s.spec_on_time() + s.spec_off_time(), 1, n - 1);
    }
}

} // verus!
