//! The reactive behavior controller.
//!
//! A finite state machine that reads the latest front-distance measurement
//! each tick and decides the tick's drive command.  While wandering the
//! robot rolls forward; a plausible reading closer than the obstacle
//! threshold starts a timed turn, to the left or to the right as a random
//! draw decides; a turn runs for a fixed wall-clock duration and then
//! wandering resumes.  The `Off` state is reserved for manual override:
//! no transition of this machine enters or leaves it.

use vstd::prelude::*;

verus! {

/// Forward speed while wandering, in duty units (0.4 of full scale).
pub const WANDER_SPEED: i32 = 4_000;

/// Speed while turning (reverse, 0.4 of full scale).
pub const TURN_SPEED: i32 = -4_000;

/// Turn rate while turning, in duty units (0.6 of full scale).
pub const TURN_RATE: i32 = 6_000;

/// Front distance under which a wander tick starts a turn, in hundredths
/// of a centimetre (6 cm).
pub const OBSTACLE_DIST: u32 = 600;

/// Wall-clock duration of a turn, in microseconds (1 s).
pub const TURN_DURATION_US: u64 = 1_000_000;

/// The behavior states.  A turn state carries the time already spent in
/// the turn, in microseconds.
#[derive(PartialEq, Eq, Structural, Clone, Copy, Debug)]
pub enum BehaviorState {
    Off,
    Wander,
    TurnLeft(u64),
    TurnRight(u64),
}

/// One tick's drive command, in duty units.
#[derive(PartialEq, Eq, Structural, Clone, Copy, Debug)]
pub struct DriveCommand {
    pub speed: i32,
    pub turn: i32,
}

/// The command a state issues on every tick it is active.
pub open spec fn spec_command(s: BehaviorState) -> DriveCommand {
    match s {
        BehaviorState::Wander => DriveCommand { speed: WANDER_SPEED, turn: 0 },
        BehaviorState::TurnLeft(_) => DriveCommand { speed: TURN_SPEED, turn: (-TURN_RATE) as i32 },
        BehaviorState::TurnRight(_) => DriveCommand { speed: TURN_SPEED, turn: TURN_RATE },
        BehaviorState::Off => DriveCommand { speed: TURN_SPEED, turn: TURN_RATE },
    }
}

/// The state after one tick.  `dist` is the tick's front-distance
/// measurement, `turn_left` the turn direction a random draw chose, `dt`
/// the tick's elapsed time in microseconds.  A wander tick starts a turn
/// exactly when a reading is present and closer than the obstacle
/// threshold; a turn accumulates elapsed time on both sides symmetrically
/// and ends once it reaches the turn duration; `Off` never changes.
pub open spec fn spec_step(s: BehaviorState, dist: Option<u32>, turn_left: bool, dt: int) -> BehaviorState {
    match s {
        BehaviorState::Off => BehaviorState::Off,
        BehaviorState::Wander => match dist {
            Some(d) => if d < OBSTACLE_DIST {
                if turn_left {
                    BehaviorState::TurnLeft(0)
                } else {
                    BehaviorState::TurnRight(0)
                }
            } else {
                BehaviorState::Wander
            },
            None => BehaviorState::Wander,
        },
        BehaviorState::TurnLeft(t) => if t + dt >= TURN_DURATION_US {
            BehaviorState::Wander
        } else {
            BehaviorState::TurnLeft((t + dt) as u64)
        },
        BehaviorState::TurnRight(t) => if t + dt >= TURN_DURATION_US {
            BehaviorState::Wander
        } else {
            BehaviorState::TurnRight((t + dt) as u64)
        },
    }
}

/// The state machine, with the current behavior state.
pub struct BehaviorController {
    pub state: BehaviorState,
}

/// Relies on rand::random: a draw from the thread-local random generator.
/// Nothing is promised of the value; every caller must cope with both
/// outcomes of a boolean draw.
pub assume_specification<T>[ rand::random::<T> ]() -> (r: T)
    where
        rand::distributions::Standard: rand::distributions::Distribution<T>,
;

impl BehaviorController {
    /// The controller starts wandering.
    pub fn new() -> (c: BehaviorController)
        ensures
            c.state == BehaviorState::Wander,
    {
        BehaviorController { state: BehaviorState::Wander }
    }

    /// Evaluate one tick with an injected turn direction, so callers and
    /// tests can force either branch deterministically.  Returns the
    /// command the outgoing state issues this tick.
    pub fn step(&mut self, dist: Option<u32>, turn_left: bool, dt_us: u64) -> (cmd: DriveCommand)
        ensures
            final(self).state == spec_step(old(self).state, dist, turn_left, dt_us as int),
            cmd == spec_command(old(self).state),
    {
        let cmd = match self.state {
            BehaviorState::Wander => DriveCommand { speed: WANDER_SPEED, turn: 0 },
            BehaviorState::TurnLeft(_) => DriveCommand { speed: TURN_SPEED, turn: -TURN_RATE },
            BehaviorState::TurnRight(_) => DriveCommand { speed: TURN_SPEED, turn: TURN_RATE },
            BehaviorState::Off => DriveCommand { speed: TURN_SPEED, turn: TURN_RATE },
        };
        self.state = match self.state {
            BehaviorState::Off => BehaviorState::Off,
            BehaviorState::Wander => match dist {
                Some(d) => if d < OBSTACLE_DIST {
                    if turn_left {
                        BehaviorState::TurnLeft(0)
                    } else {
                        BehaviorState::TurnRight(0)
                    }
                } else {
                    BehaviorState::Wander
                },
                None => BehaviorState::Wander,
            },
            BehaviorState::TurnLeft(t) => {
                if dt_us >= TURN_DURATION_US || t >= TURN_DURATION_US - dt_us {
                    BehaviorState::Wander
                } else {
                    BehaviorState::TurnLeft(t + dt_us)
                }
            },
            BehaviorState::TurnRight(t) => {
                if dt_us >= TURN_DURATION_US || t >= TURN_DURATION_US - dt_us {
                    BehaviorState::Wander
                } else {
                    BehaviorState::TurnRight(t + dt_us)
                }
            },
        };
        cmd
    }

    /// Evaluate one tick, drawing the turn direction from the process
    /// random source.  The outgoing command is fixed by the current state;
    /// the next state is the step for one of the two possible draws.
    pub fn step_random(&mut self, dist: Option<u32>, dt_us: u64) -> (cmd: DriveCommand)
        ensures
            exists|b: bool| final(self).state == spec_step(old(self).state, dist, b, dt_us as int),
            cmd == spec_command(old(self).state),
    {
        let turn_left: bool = rand::random();
        let cmd = self.step(dist, turn_left, dt_us);
        proof {
            assert(self.state == spec_step(old(self).state, dist, turn_left, dt_us as int));
        }
        cmd
    }
}

} // verus!
