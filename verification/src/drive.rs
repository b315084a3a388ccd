//! Differential-drive kinematics.
//!
//! A `DifferentialDrive` owns two PWM channels (left and right wheel) and
//! one pair of direction lines per side.  A drive command of a forward
//! speed and a turn rate, both in duty units, becomes two signed wheel
//! duties: `left = -(speed + turn)` and `right = -(speed - turn)`, the
//! sign inverted to match the physical wiring, each clamped to full
//! scale.  The magnitude drives the wheel's PWM channel; the sign decides
//! which of the side's two direction lines is asserted — never both.

use vstd::prelude::*;
use crate::pwm::PwmChannel;
use crate::pwm::spec_set_duty;
use crate::pwm::spec_advance;
use crate::pwm::spec_abs;
use crate::pwm::spec_clamp_duty;
use crate::pwm::DUTY_SCALE;
use crate::pwm::STOP_DUTY;
use crate::pwm::MAX_PERIOD_US;

verus! {

/// The two direction lines of one wheel.  Positive wheel duty asserts
/// `in1`, negative asserts `in0`; a stopped wheel asserts neither.
#[derive(PartialEq, Eq, Structural, Clone, Copy, Debug)]
pub struct DirectionLines {
    pub in0_high: bool,
    pub in1_high: bool,
}

/// The direction lines encoding the sign of a clamped wheel duty.
pub open spec fn spec_direction(duty: int) -> DirectionLines {
    if spec_abs(duty) <= STOP_DUTY {
        DirectionLines { in0_high: false, in1_high: false }
    } else if duty > 0 {
        DirectionLines { in0_high: false, in1_high: true }
    } else {
        DirectionLines { in0_high: true, in1_high: false }
    }
}

/// Two PWM channels plus direction-sign logic for a two-wheeled chassis.
pub struct DifferentialDrive {
    pub left: PwmChannel,
    pub right: PwmChannel,
    pub left_dir: DirectionLines,
    pub right_dir: DirectionLines,
    pub left_duty: i32,
    pub right_duty: i32,
}

impl DifferentialDrive {
    /// Well-formedness: both channels are well formed, each stored wheel
    /// duty is clamped, each channel runs at the magnitude of its wheel's
    /// duty, each side's direction lines encode its duty's sign, and no
    /// side asserts both direction lines.
    pub open spec fn wf(self) -> bool {
        &&& self.left.wf()
        &&& self.right.wf()
        &&& -(DUTY_SCALE as int) <= self.left_duty <= DUTY_SCALE
        &&& -(DUTY_SCALE as int) <= self.right_duty <= DUTY_SCALE
        &&& self.left.duty == spec_abs(self.left_duty as int)
        &&& self.right.duty == spec_abs(self.right_duty as int)
        &&& self.left_dir == spec_direction(self.left_duty as int)
        &&& self.right_dir == spec_direction(self.right_duty as int)
        &&& !(self.left_dir.in0_high && self.left_dir.in1_high)
        &&& !(self.right_dir.in0_high && self.right_dir.in1_high)
    }

    /// A fresh drive: both wheels stopped, all lines low.
    pub fn new(period_us: u64) -> (d: DifferentialDrive)
        requires
            1 <= period_us <= MAX_PERIOD_US,
        ensures
            d.wf(),
            d == (DifferentialDrive {
                left: PwmChannel { duty: 0, period_us, timer_us: 0, on: false, line_high: false },
                right: PwmChannel { duty: 0, period_us, timer_us: 0, on: false, line_high: false },
                left_dir: DirectionLines { in0_high: false, in1_high: false },
                right_dir: DirectionLines { in0_high: false, in1_high: false },
                left_duty: 0,
                right_duty: 0,
            }),
    {
        DifferentialDrive {
            left: PwmChannel::new(period_us),
            right: PwmChannel::new(period_us),
            left_dir: DirectionLines { in0_high: false, in1_high: false },
            right_dir: DirectionLines { in0_high: false, in1_high: false },
            left_duty: 0,
            right_duty: 0,
        }
    }

    /// Issue a drive command.  `speed` and `turn` are unconstrained duty
    /// units; the wheel duties are `-(speed + turn)` on the left and
    /// `-(speed - turn)` on the right, clamped to full scale, and each
    /// wheel begins a fresh on phase at its new magnitude.
    pub fn set_drive(&mut self, speed: i32, turn: i32)
        requires
            old(self).wf(),
        ensures
            final(self).wf(),
            *final(self) == spec_set_drive(*old(self), speed as int, turn as int),
            final(self).left_duty == spec_clamp_duty(-(speed + turn)),
            final(self).right_duty == spec_clamp_duty(-(speed - turn)),
    {
        let l = clamp_command(-((speed as i64) + (turn as i64)));
        let r = clamp_command(-((speed as i64) - (turn as i64)));
        self.left.set_duty(Some(l));
        self.right.set_duty(Some(r));
        self.left_dir = direction_lines(l);
        self.right_dir = direction_lines(r);
        self.left_duty = l;
        self.right_duty = r;
    }

    /// Advance both wheels' PWM timers by the tick's elapsed time.
    pub fn update(&mut self, dt_us: u64)
        requires
            old(self).wf(),
        ensures
            final(self).wf(),
            *final(self) == (DifferentialDrive {
                left: spec_advance(old(self).left, dt_us as int),
                right: spec_advance(old(self).right, dt_us as int),
                ..*old(self)
            }),
    {
        self.left.advance(dt_us);
        self.right.advance(dt_us);
    }

    /// Shutdown hook: force both wheels to zero duty so no motor stays
    /// energized, dropping every output line low.
    pub fn stop(&mut self)
        requires
            old(self).wf(),
        ensures
            final(self).wf(),
            *final(self) == spec_set_drive(*old(self), 0, 0),
            final(self).left_duty == 0,
            final(self).right_duty == 0,
            !final(self).left.line_high,
            !final(self).right.line_high,
            final(self).left_dir == (DirectionLines { in0_high: false, in1_high: false }),
            final(self).right_dir == (DirectionLines { in0_high: false, in1_high: false }),
    {
        self.set_drive(0, 0);
    }
}

/// The drive after a command: both wheel duties recomputed, both channels
/// restarted at the new magnitudes, both sides' direction lines re-encoded.
pub open spec fn spec_set_drive(d: DifferentialDrive, speed: int, turn: int) -> DifferentialDrive {
    let l = spec_clamp_duty(-(speed + turn));
    let r = spec_clamp_duty(-(speed - turn));
    DifferentialDrive {
        left: spec_set_duty(d.left, Some(l as i32)),
        right: spec_set_duty(d.right, Some(r as i32)),
        left_dir: spec_direction(l),
        right_dir: spec_direction(r),
        left_duty: l as i32,
        right_duty: r as i32,
    }
}

/// Clamp a signed wheel command to `[-DUTY_SCALE, DUTY_SCALE]`.
fn clamp_command(v: i64) -> (r: i32)
    ensures
        r == spec_clamp_duty(v as int),
{
    let hi = DUTY_SCALE as i64;
    if v > hi {
        DUTY_SCALE as i32
    } else if v < -hi {
        -(DUTY_SCALE as i32)
    } else {
        v as i32
    }
}

/// The direction lines for a clamped wheel duty.
fn direction_lines(d: i32) -> (r: DirectionLines)
    ensures
        r == spec_direction(d as int),
{
    if d <= STOP_DUTY as i32 && d >= -(STOP_DUTY as i32) {
        DirectionLines { in0_high: false, in1_high: false }
    } else if d > 0 {
        DirectionLines { in0_high: false, in1_high: true }
    } else {
        DirectionLines { in0_high: true, in1_high: false }
    }
}

} // verus!
