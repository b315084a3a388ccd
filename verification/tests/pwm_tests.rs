use rover_core::pwm::PwmChannel;

#[test]
fn stopped_channel_never_pulses() {
    let mut ch = PwmChannel::new(1_000);
    ch.set_duty(Some(1)); // one ten-thousandth of full scale: stopped
    assert!(!ch.line_high);
    for dt in [1u64, 100, 250, 1_000, 5_000, 1_000_000] {
        ch.advance(dt);
        assert!(!ch.line_high);
    }
    ch.set_duty(Some(-1));
    ch.advance(10_000);
    assert!(!ch.line_high);
    ch.set_duty(Some(0));
    ch.advance(10_000);
    assert!(!ch.line_high);
}

#[test]
fn set_duty_clamps_and_starts_on_phase() {
    let mut ch = PwmChannel::new(1_000);
    ch.set_duty(Some(20_000));
    assert_eq!(ch.duty, 10_000);
    assert!(ch.on);
    assert!(ch.line_high);
    assert_eq!(ch.timer_us, 0);
    ch.advance(400);
    ch.set_duty(Some(-20_000));
    assert_eq!(ch.duty, 10_000);
    assert_eq!(ch.timer_us, 0);
    ch.set_duty(Some(-2_500));
    assert_eq!(ch.duty, 2_500);
    let before = ch.duty;
    ch.set_duty(None); // no command this tick: unchanged
    assert_eq!(ch.duty, before);
}

#[test]
fn pwm_toggles_at_phase_boundaries() {
    let mut ch = PwmChannel::new(1_000);
    ch.set_duty(Some(5_000)); // on-time 500 us, off-time 500 us
    assert!(ch.line_high);
    ch.advance(499);
    assert!(ch.line_high);
    ch.advance(1); // timer reaches the on-time: line drops
    assert!(!ch.line_high);
    ch.advance(499);
    assert!(!ch.line_high);
    ch.advance(1); // timer reaches the off-time: line rises
    assert!(ch.line_high);
}

#[test]
fn duty_fraction_over_whole_periods() {
    let mut ch = PwmChannel::new(1_000);
    ch.set_duty(Some(2_500)); // a quarter duty: on 250 us, off 750 us
    let mut high: u64 = 0;
    let mut total: u64 = 0;
    for _ in 0..10 {
        if ch.line_high {
            high += 250;
        }
        total += 250;
        ch.advance(250);
        if ch.line_high {
            high += 750;
        }
        total += 750;
        ch.advance(750);
    }
    assert_eq!(high, 2_500);
    assert_eq!(total, 10_000);
    // the fraction of simulated time spent high is exactly the duty
    assert_eq!(high * 10_000 / total, 2_500);
}
