use rover_core::ground::GroundSensor;
use rover_core::ground::DEBOUNCE_US;

#[test]
fn sensing_true_immediately_after_active_read() {
    let mut g = GroundSensor::new();
    g.update(false, 1_000_000); // long idle: no longer sensing
    assert!(!g.sensing());
    g.update(true, 1_000_000); // one active read restores it at once
    assert!(g.sensing());
    assert_eq!(g.idle_us, 0);
}

#[test]
fn sensing_survives_short_dropouts() {
    let mut g = GroundSensor::new();
    g.update(true, 10);
    g.update(false, 100_000);
    assert!(g.sensing());
    g.update(false, 99_999); // cumulative idle 199_999, still under 0.2 s
    assert!(g.sensing());
    g.update(true, 50); // active again before the threshold
    assert!(g.sensing());
    assert_eq!(g.idle_us, 0);
}

#[test]
fn sensing_ends_when_idle_reaches_threshold() {
    let mut g = GroundSensor::new();
    g.update(true, 10);
    g.update(false, 100_000);
    g.update(false, 99_999);
    assert!(g.sensing());
    g.update(false, 1); // cumulative idle reaches exactly 0.2 s
    assert!(!g.sensing());
    assert_eq!(g.idle_us, DEBOUNCE_US);
    g.update(false, u64::MAX); // the accumulator caps instead of overflowing
    assert!(!g.sensing());
    assert_eq!(g.idle_us, DEBOUNCE_US);
}
