//! The per-tick control core.
//!
//! One fixed control loop drives the robot: each tick it computes the
//! elapsed time, reads the ground lines, samples the rangefinder, and
//! calls `tick` here with those plain values.  The core updates the
//! ground sensors, advances both PWM channels, evaluates the behavior
//! machine on the same tick's distance sample, issues its drive command,
//! and reports the tick's telemetry.  The caller then copies the output
//! line levels the core computed back to the hardware.

use vstd::prelude::*;
use crate::behavior::BehaviorController;
use crate::behavior::BehaviorState;
use crate::behavior::spec_command;
use crate::behavior::spec_step;
use crate::drive::DifferentialDrive;
use crate::drive::spec_set_drive;
use crate::ground::GroundSensor;
use crate::pwm::spec_advance;
use crate::pwm::MAX_PERIOD_US;
use crate::rangefinder::Rangefinder;
use crate::rangefinder::MAX_TIMEOUT_US;

verus! {

/// What one tick reports to the telemetry sink: the tick's distance
/// sample and both ground sensors' debounced readings.
#[derive(PartialEq, Eq, Clone, Copy, Debug)]
pub struct Telemetry {
    pub distance: Option<u32>,
    pub left_sensing: bool,
    pub right_sensing: bool,
}

/// The whole control core: drive, sensors and behavior machine.
pub struct RobotCore {
    pub drive: DifferentialDrive,
    pub left_ground: GroundSensor,
    pub right_ground: GroundSensor,
    pub rangefinder: Rangefinder,
    pub behavior: BehaviorController,
}

/// The core and telemetry after one tick: ground sensors fed this tick's
/// line levels, PWM phases advanced by the elapsed time, the behavior
/// machine stepped on this tick's distance sample, and the outgoing
/// state's command issued to the drive — strictly in that order, so the
/// drive command is always computed from the same tick's sensor values.
pub open spec fn spec_tick(
    c: RobotCore,
    dt: int,
    left_active: bool,
    right_active: bool,
    distance: Option<u32>,
    turn_left: bool,
) -> (RobotCore, Telemetry) {
    let lg = GroundSensor {
        idle_us: GroundSensor::spec_update(c.left_ground.idle_us as int, left_active, dt) as u64,
    };
    let rg = GroundSensor {
        idle_us: GroundSensor::spec_update(c.right_ground.idle_us as int, right_active, dt) as u64,
    };
    let advanced = DifferentialDrive {
        left: spec_advance(c.drive.left, dt),
        right: spec_advance(c.drive.right, dt),
        ..c.drive
    };
    let cmd = spec_command(c.behavior.state);
    let core = RobotCore {
        drive: spec_set_drive(advanced, cmd.speed as int, cmd.turn as int),
        left_ground: lg,
        right_ground: rg,
        rangefinder: c.rangefinder,
        behavior: BehaviorController {
            state: spec_step(c.behavior.state, distance, turn_left, dt),
        },
    };
    let telemetry = Telemetry {
        distance,
        left_sensing: lg.spec_sensing(),
        right_sensing: rg.spec_sensing(),
    };
    (core, telemetry)
}

impl RobotCore {
    pub open spec fn wf(self) -> bool {
        &&& self.drive.wf()
        &&& self.left_ground.wf()
        &&& self.right_ground.wf()
        &&& self.rangefinder.wf()
    }

    /// A fresh core: wheels stopped, sensors empty, behavior wandering.
    pub fn new(period_us: u64, timeout_us: u64) -> (c: RobotCore)
        requires
            1 <= period_us <= MAX_PERIOD_US,
            1 <= timeout_us <= MAX_TIMEOUT_US,
        ensures
            c.wf(),
            c.behavior.state == BehaviorState::Wander,
            c.rangefinder.timeout_us == timeout_us,
            c.drive.left.period_us == period_us,
            c.drive.right.period_us == period_us,
            c.drive.left_duty == 0,
            c.drive.right_duty == 0,
            !c.drive.left.line_high,
            !c.drive.right.line_high,
            c.left_ground.idle_us == 0,
            c.right_ground.idle_us == 0,
    {
        RobotCore {
            drive: DifferentialDrive::new(period_us),
            left_ground: GroundSensor::new(),
            right_ground: GroundSensor::new(),
            rangefinder: Rangefinder::new(timeout_us),
            behavior: BehaviorController::new(),
        }
    }

    /// One control tick with an injected turn direction.  `dt_us` is the
    /// elapsed time since the previous tick, `left_active` and
    /// `right_active` the levels read from the ground lines this tick,
    /// `distance` this tick's rangefinder sample.
    pub fn tick(
        &mut self,
        dt_us: u64,
        left_active: bool,
        right_active: bool,
        distance: Option<u32>,
        turn_left: bool,
    ) -> (t: Telemetry)
        requires
            old(self).wf(),
        ensures
            final(self).wf(),
            *final(self) == spec_tick(
                *old(self), dt_us as int, left_active, right_active, distance, turn_left).0,
            t == spec_tick(
                *old(self), dt_us as int, left_active, right_active, distance, turn_left).1,
    {
        self.left_ground.update(left_active, dt_us);
        self.right_ground.update(right_active, dt_us);
        self.drive.update(dt_us);
        let cmd = self.behavior.step(distance, turn_left, dt_us);
        self.drive.set_drive(cmd.speed, cmd.turn);
        let left_sensing = self.left_ground.sensing();
        let right_sensing = self.right_ground.sensing();
        Telemetry { distance, left_sensing, right_sensing }
    }

    /// One control tick, drawing the turn direction from the process
    /// random source.  The result is the tick for one of the two possible
    /// draws; everything except the choice between the two turn states is
    /// the same for both.
    pub fn tick_random(
        &mut self,
        dt_us: u64,
        left_active: bool,
        right_active: bool,
        distance: Option<u32>,
    ) -> (t: Telemetry)
        requires
            old(self).wf(),
        ensures
            final(self).wf(),
            exists|b: bool|
                *final(self) == spec_tick(
                    *old(self), dt_us as int, left_active, right_active, distance, b).0
                && t == spec_tick(
                    *old(self), dt_us as int, left_active, right_active, distance, b).1,
    {
        let turn_left: bool = rand::random();
        let t = self.tick(dt_us, left_active, right_active, distance, turn_left);
        proof {
            assert(*self == spec_tick(
                *old(self), dt_us as int, left_active, right_active, distance, turn_left).0);
        }
        t
    }

    /// Clean-shutdown hook: force both wheels to zero duty, dropping
    /// every drive line low, so no motor stays energized when the caller
    /// releases the hardware and exits.
    pub fn shutdown(&mut self)
        requires
            old(self).wf(),
        ensures
            final(self).wf(),
            *final(self) == (RobotCore { drive: spec_set_drive(old(self).drive, 0, 0), ..*old(self) }),
            final(self).drive.left_duty == 0,
            final(self).drive.right_duty == 0,
            !final(self).drive.left.line_high,
            !final(self).drive.right.line_high,
    {
        self.drive.stop();
    }
}

} // verus!
