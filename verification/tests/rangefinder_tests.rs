use rover_core::rangefinder::evaluate_pulse;
use rover_core::rangefinder::EchoSample;
use rover_core::rangefinder::Rangefinder;
use rover_core::rangefinder::ECHO_TIMEOUT_US;

fn trace(levels: &[(bool, u64)]) -> Vec<EchoSample> {
    let mut v = Vec::new();
    for &(high, t_us) in levels {
        v.push(EchoSample { high, t_us });
    }
    v
}

#[test]
fn pulse_width_converts_and_filters() {
    // distance in hundredths of a centimetre: width_us * 100 / 58
    assert_eq!(evaluate_pulse(290), Some(500)); // 5.00 cm
    assert_eq!(evaluate_pulse(116), Some(200)); // exactly 2 cm: plausible
    assert_eq!(evaluate_pulse(115), None); // 1.98 cm: too close
    assert_eq!(evaluate_pulse(0), None);
    assert_eq!(evaluate_pulse(869), Some(1_498)); // 14.98 cm
    assert_eq!(evaluate_pulse(870), None); // exactly 15 cm: out of the window
    assert_eq!(evaluate_pulse(5_000), None);
}

#[test]
fn measure_times_a_clean_pulse() {
    let rf = Rangefinder::new(ECHO_TIMEOUT_US);
    let samples = trace(&[
        (false, 0),
        (false, 100),
        (true, 200),
        (true, 300),
        (false, 490), // high for 290 us
    ]);
    assert_eq!(rf.measure_trace(&samples), Some(500));
}

#[test]
fn measure_none_when_echo_stuck_low() {
    let rf = Rangefinder::new(ECHO_TIMEOUT_US);
    let samples = trace(&[
        (false, 0),
        (false, 1_000),
        (false, 3_000),
        (false, 5_000),
        (false, 5_001), // past the deadline
        (false, 9_000),
    ]);
    assert_eq!(rf.measure_trace(&samples), None);
}

#[test]
fn measure_none_when_echo_stuck_high() {
    let rf = Rangefinder::new(ECHO_TIMEOUT_US);
    let samples = trace(&[
        (true, 0),
        (true, 1_000),
        (true, 3_000),
        (true, 5_000),
        (true, 5_001), // high for longer than the deadline
        (true, 9_000),
    ]);
    assert_eq!(rf.measure_trace(&samples), None);
}

#[test]
fn measure_none_when_pulse_implausibly_short() {
    let rf = Rangefinder::new(ECHO_TIMEOUT_US);
    let samples = trace(&[(false, 0), (true, 50), (false, 100)]); // 50 us pulse
    assert_eq!(rf.measure_trace(&samples), None);
}

#[test]
fn measure_none_when_pulse_implausibly_long() {
    let rf = Rangefinder::new(ECHO_TIMEOUT_US);
    let samples = trace(&[(false, 0), (true, 10), (true, 2_000), (false, 4_000)]);
    // 3990 us of pulse converts far beyond the window
    assert_eq!(rf.measure_trace(&samples), None);
}

#[test]
fn measure_none_when_trace_ends_unresolved() {
    let rf = Rangefinder::new(ECHO_TIMEOUT_US);
    let samples = trace(&[(false, 0), (true, 100)]);
    assert_eq!(rf.measure_trace(&samples), None);
}

#[test]
fn rise_exactly_at_deadline_still_measures() {
    let rf = Rangefinder::new(ECHO_TIMEOUT_US);
    let samples = trace(&[
        (false, 5_000), // at the deadline, not past it
        (true, 5_100),
        (false, 5_390), // high for 290 us
    ]);
    assert_eq!(rf.measure_trace(&samples), Some(500));
}
