use rover_core::behavior::BehaviorState;
use rover_core::pwm::MOTOR_PERIOD_US;
use rover_core::rangefinder::ECHO_TIMEOUT_US;
use rover_core::robot::RobotCore;

#[test]
fn tick_reports_telemetry_and_issues_wander_command() {
    let mut c = RobotCore::new(MOTOR_PERIOD_US, ECHO_TIMEOUT_US);
    let t = c.tick(1_000, true, false, Some(800), false);
    assert_eq!(t.distance, Some(800));
    assert!(t.left_sensing);
    assert!(t.right_sensing); // idle only 1 ms: still within the debounce window
    assert!(matches!(c.behavior.state, BehaviorState::Wander));
    // the wander command (0.4 forward) became wheel duties -(0.4), -(0.4)
    assert_eq!(c.drive.left_duty, -4_000);
    assert_eq!(c.drive.right_duty, -4_000);
}

#[test]
fn tick_drops_ground_sensing_after_long_idle() {
    let mut c = RobotCore::new(MOTOR_PERIOD_US, ECHO_TIMEOUT_US);
    let t = c.tick(200_000, true, false, None, false);
    assert!(t.left_sensing);
    assert!(!t.right_sensing);
}

#[test]
fn tick_starts_a_turn_on_a_close_reading() {
    let mut c = RobotCore::new(MOTOR_PERIOD_US, ECHO_TIMEOUT_US);
    let t = c.tick(1_000, false, false, Some(500), true);
    assert_eq!(t.distance, Some(500));
    assert!(matches!(c.behavior.state, BehaviorState::TurnLeft(0)));
    // the command issued this tick is still the wander command
    assert_eq!(c.drive.left_duty, -4_000);
    // the next tick issues the turn command: left = -(-4000 + -6000)
    c.tick(1_000, false, false, None, true);
    assert_eq!(c.drive.left_duty, 10_000);
    assert_eq!(c.drive.right_duty, -2_000);
}

#[test]
fn tick_random_also_starts_a_turn() {
    let mut c = RobotCore::new(MOTOR_PERIOD_US, ECHO_TIMEOUT_US);
    c.tick_random(1_000, false, false, Some(300));
    assert!(matches!(
        c.behavior.state,
        BehaviorState::TurnLeft(0) | BehaviorState::TurnRight(0)
    ));
}

#[test]
fn shutdown_deenergizes_motors() {
    let mut c = RobotCore::new(MOTOR_PERIOD_US, ECHO_TIMEOUT_US);
    c.tick(1_000, false, false, None, false);
    assert!(c.drive.left.duty > 0);
    c.shutdown();
    assert_eq!(c.drive.left_duty, 0);
    assert_eq!(c.drive.right_duty, 0);
    assert!(!c.drive.left.line_high);
    assert!(!c.drive.right.line_high);
    assert!(!c.drive.left_dir.in0_high && !c.drive.left_dir.in1_high);
    assert!(!c.drive.right_dir.in0_high && !c.drive.right_dir.in1_high);
}
