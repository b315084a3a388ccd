use rover_core::drive::DifferentialDrive;

#[test]
fn set_drive_computes_signed_wheel_duties() {
    let mut d = DifferentialDrive::new(1_000);
    d.set_drive(4_000, 0);
    assert_eq!(d.left_duty, -4_000); // left = -(speed + turn)
    assert_eq!(d.right_duty, -4_000); // right = -(speed - turn)
    assert_eq!(d.left.duty, 4_000);
    assert_eq!(d.right.duty, 4_000);
    // negative wheel duty asserts in0, never both lines
    assert!(d.left_dir.in0_high && !d.left_dir.in1_high);
    assert!(d.right_dir.in0_high && !d.right_dir.in1_high);
}

#[test]
fn set_drive_differential_turn() {
    let mut d = DifferentialDrive::new(1_000);
    d.set_drive(-4_000, 6_000);
    assert_eq!(d.left_duty, -2_000); // -(-4000 + 6000)
    assert_eq!(d.right_duty, 10_000); // -(-4000 - 6000)
    assert!(d.left_dir.in0_high && !d.left_dir.in1_high);
    assert!(!d.right_dir.in0_high && d.right_dir.in1_high);
}

#[test]
fn set_drive_clamps_to_full_scale() {
    let mut d = DifferentialDrive::new(1_000);
    d.set_drive(9_000, 9_000);
    assert_eq!(d.left_duty, -10_000); // -(18000) clamped
    assert_eq!(d.right_duty, 0); // -(9000 - 9000)
    assert_eq!(d.left.duty, 10_000);
    assert_eq!(d.right.duty, 0);
    // a stopped wheel asserts neither direction line and drives no pulse
    assert!(!d.right_dir.in0_high && !d.right_dir.in1_high);
    assert!(!d.right.line_high);
    d.set_drive(i32::MIN, i32::MIN);
    assert_eq!(d.left_duty, 10_000);
    assert_eq!(d.right_duty, 0);
}

#[test]
fn update_advances_both_wheels() {
    let mut d = DifferentialDrive::new(1_000);
    d.set_drive(0, 5_000); // left -5000, right 5000: both at half duty
    assert!(d.left.line_high && d.right.line_high);
    d.update(500); // both reach their on-time together
    assert!(!d.left.line_high && !d.right.line_high);
    d.update(500);
    assert!(d.left.line_high && d.right.line_high);
}

#[test]
fn stop_deenergizes_both_wheels() {
    let mut d = DifferentialDrive::new(1_000);
    d.set_drive(4_000, 6_000);
    d.stop();
    assert_eq!(d.left_duty, 0);
    assert_eq!(d.right_duty, 0);
    assert!(!d.left.line_high && !d.right.line_high);
    assert!(!d.left_dir.in0_high && !d.left_dir.in1_high);
    assert!(!d.right_dir.in0_high && !d.right_dir.in1_high);
}
