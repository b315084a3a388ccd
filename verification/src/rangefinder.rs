//! Ultrasonic distance measurement by manually timed echo pulses.
//!
//! A measurement is a fresh timed transaction: the caller pulses the
//! trigger line, then repeatedly samples the echo line against a clock and
//! feeds each sample to `poll`.  The transaction first waits for the echo
//! to rise, then times how long it stays high; each wait phase is guarded
//! by the same configurable deadline, so a measurement can never spin
//! unbounded on hardware that fails to respond.  The high time converts
//! to a distance, and only distances inside a plausibility window are
//! reported — everything else is a definite "no reading", never a partial
//! or implausible value.

use vstd::prelude::*;

verus! {

/// Duration of the trigger pulse the caller emits (10 µs).
pub const TRIGGER_PULSE_US: u64 = 10;

/// The echo wait deadline used for both phases of a measurement (5 ms).
pub const ECHO_TIMEOUT_US: u64 = 5_000;

/// Upper bound on a configured deadline (1000 s), so the distance
/// conversion stays within machine integers.
pub const MAX_TIMEOUT_US: u64 = 1_000_000_000;

/// Round-trip echo microseconds per centimetre of distance, from the
/// speed of sound.
pub const US_PER_CM: u64 = 58;

/// Plausibility window, in hundredths of a centimetre: a distance is
/// reported only when at least 2 cm and under 15 cm.
pub const MIN_PLAUSIBLE_DIST: u32 = 200;

pub const MAX_PLAUSIBLE_DIST: u32 = 1_500;

/// One sample of the echo line: its level, and the time it was read, in
/// microseconds since the trigger pulse ended.
#[derive(PartialEq, Eq, Structural, Clone, Copy, Debug)]
pub struct EchoSample {
    pub high: bool,
    pub t_us: u64,
}

/// Where a measurement transaction stands between samples.
#[derive(PartialEq, Eq, Structural, Clone, Copy, Debug)]
pub enum EchoPhase {
    /// Waiting for the echo line to rise; this phase began at time zero.
    WaitRise,
    /// The echo rose at `rise_us`; waiting for it to fall again.
    WaitFall { rise_us: u64 },
}

/// What one sample made of the transaction.
#[derive(PartialEq, Eq, Structural, Clone, Copy, Debug)]
pub enum PollOutcome {
    /// The transaction continues in the given phase.
    Pending(EchoPhase),
    /// The transaction failed: a wait timed out, the clock misbehaved, or
    /// the pulse converts to an implausible distance.
    NoReading,
    /// The pulse converts to a plausible distance, in hundredths of a
    /// centimetre.
    Reading(u32),
}

/// A pulse width in microseconds as a distance in hundredths of a
/// centimetre.
pub open spec fn spec_distance(width: int) -> int {
    width * 100 / (US_PER_CM as int)
}

/// The measurement a pulse width yields: its distance when that lies in
/// the plausibility window, and no reading otherwise.
pub open spec fn spec_evaluate(width: int) -> Option<u32> {
    let d = spec_distance(width);
    if MIN_PLAUSIBLE_DIST <= d < MAX_PLAUSIBLE_DIST {
        Some(d as u32)
    } else {
        None
    }
}

/// What one sample at time `t` with level `high` makes of a transaction
/// in `phase`, under the wait deadline `timeout`.
///
/// Waiting for the rise, a high sample starts the fall wait; a low sample
/// past the deadline gives up.  Waiting for the fall, a sample from
/// before the recorded rise means the clock misbehaved; a high sample
/// past the deadline gives up; a low sample completes the pulse and
/// converts its width.
pub open spec fn spec_poll(timeout: int, phase: EchoPhase, high: bool, t: int) -> PollOutcome {
    match phase {
        EchoPhase::WaitRise => if high {
            PollOutcome::Pending(EchoPhase::WaitFall { rise_us: t as u64 })
        } else if t > timeout {
            PollOutcome::NoReading
        } else {
            PollOutcome::Pending(EchoPhase::WaitRise)
        },
        EchoPhase::WaitFall { rise_us } => if t < rise_us {
            PollOutcome::NoReading
        } else if t - rise_us > timeout {
            PollOutcome::NoReading
        } else if high {
            PollOutcome::Pending(EchoPhase::WaitFall { rise_us })
        } else {
            match spec_evaluate(t - rise_us) {
                Some(d) => PollOutcome::Reading(d),
                None => PollOutcome::NoReading,
            }
        },
    }
}

/// The outcome of a whole transaction over a trace of samples, fed in
/// order from the wait-for-rise phase on.  A trace that ends before the
/// transaction resolves yields no reading.
pub open spec fn spec_measure(timeout: int, phase: EchoPhase, samples: Seq<EchoSample>) -> Option<u32>
    decreases samples.len(),
{
    if samples.len() == 0 {
        None
    } else {
        match spec_poll(timeout, phase, samples[0].high, samples[0].t_us as int) {
            PollOutcome::Pending(p) => spec_measure(timeout, p, samples.drop_first()),
            PollOutcome::NoReading => None,
            PollOutcome::Reading(d) => Some(d),
        }
    }
}

/// The distance sensor: a trigger output and an echo input, timed against
/// the caller's clock under this deadline.
pub struct Rangefinder {
    pub timeout_us: u64,
}

impl Rangefinder {
    pub open spec fn wf(self) -> bool {
        1 <= self.timeout_us <= MAX_TIMEOUT_US
    }

    pub fn new(timeout_us: u64) -> (r: Rangefinder)
        requires
            1 <= timeout_us <= MAX_TIMEOUT_US,
        ensures
            r.wf(),
            r.timeout_us == timeout_us,
    {
        Rangefinder { timeout_us }
    }

    /// Feed one echo sample to a measurement transaction.
    pub fn poll(&self, phase: EchoPhase, echo_high: bool, t_us: u64) -> (r: PollOutcome)
        requires
            self.wf(),
        ensures
            r == spec_poll(self.timeout_us as int, phase, echo_high, t_us as int),
    {
        match phase {
            EchoPhase::WaitRise => {
                if echo_high {
                    PollOutcome::Pending(EchoPhase::WaitFall { rise_us: t_us })
                } else if t_us > self.timeout_us {
                    PollOutcome::NoReading
                } else {
                    PollOutcome::Pending(EchoPhase::WaitRise)
                }
            },
            EchoPhase::WaitFall { rise_us } => {
                if t_us < rise_us {
                    PollOutcome::NoReading
                } else if t_us - rise_us > self.timeout_us {
                    PollOutcome::NoReading
                } else if echo_high {
                    PollOutcome::Pending(EchoPhase::WaitFall { rise_us })
                } else {
                    match evaluate_pulse(t_us - rise_us) {
                        Some(d) => PollOutcome::Reading(d),
                        None => PollOutcome::NoReading,
                    }
                }
            },
        }
    }

    /// Run one whole measurement transaction over a recorded trace of
    /// echo samples.  Returns a distance only when the trace shows a
    /// pulse that rose and fell within the deadlines and converts to a
    /// plausible distance.
    pub fn measure_trace(&self, samples: &Vec<EchoSample>) -> (r: Option<u32>)
        requires
            self.wf(),
        ensures
            r == spec_measure(self.timeout_us as int, EchoPhase::WaitRise, samples@),
            r matches Some(d) ==> MIN_PLAUSIBLE_DIST <= d < MAX_PLAUSIBLE_DIST,
    {
        proof {
            lemma_measure_plausible(self.timeout_us as int, EchoPhase::WaitRise, samples@);
            assert(samples@.skip(0) =~= samples@);
        }
        let mut phase = EchoPhase::WaitRise;
        let mut i: usize = 0;
        while i < samples.len()
            invariant
                self.wf(),
                0 <= i <= samples.len(),
                spec_measure(self.timeout_us as int, EchoPhase::WaitRise, samples@)
                    == spec_measure(self.timeout_us as int, phase, samples@.skip(i as int)),
            decreases samples.len() - i,
        {
            let s = samples[i];
            proof {
                assert(samples@.skip(i as int)[0] == samples@[i as int]);
                assert(samples@.skip(i as int).drop_first() =~= samples@.skip(i as int + 1));
            }
            match self.poll(phase, s.high, s.t_us) {
                PollOutcome::Pending(p) => {
                    phase = p;
                },
                PollOutcome::NoReading => {
                    return None;
                },
                PollOutcome::Reading(d) => {
                    return Some(d);
                },
            }
            i = i + 1;
        }
        proof {
            assert(samples@.skip(i as int) =~= Seq::<EchoSample>::empty());
        }
        None
    }
}

/// Convert a pulse width to a measurement, keeping only plausible
/// distances.
pub fn evaluate_pulse(width_us: u64) -> (r: Option<u32>)
    requires
        width_us <= MAX_TIMEOUT_US,
    ensures
        r == spec_evaluate(width_us as int),
{
    let d = width_us * 100 / US_PER_CM;
    if d >= MIN_PLAUSIBLE_DIST as u64 && d < MAX_PLAUSIBLE_DIST as u64 {
        Some(d as u32)
    } else {
        None
    }
}

/// Every reported reading lies in the plausibility window, whatever the
/// trace.
pub proof fn lemma_measure_plausible(timeout: int, phase: EchoPhase, samples: Seq<EchoSample>)
    ensures
        spec_measure(timeout, phase, samples) matches Some(d)
            ==> MIN_PLAUSIBLE_DIST <= d < MAX_PLAUSIBLE_DIST,
    decreases samples.len(),
{
    if samples.len() > 0 {
        match spec_poll(timeout, phase, samples[0].high, samples[0].t_us as int) {
            PollOutcome::Pending(p) => {
                lemma_measure_plausible(timeout, p, samples.drop_first());
            },
            _ => {},
        }
    }
}

/// Stuck-low law: when the echo line never rises, a measurement
/// deterministically yields no reading, however long the trace runs.
pub proof fn lemma_stuck_low_no_reading(timeout: int, samples: Seq<EchoSample>)
    requires
        forall|i: int| 0 <= i < samples.len() ==> !(#[trigger] samples[i]).high,
    ensures
        spec_measure(timeout, EchoPhase::WaitRise, samples) is None,
    decreases samples.len(),
{
    if samples.len() > 0 {
        assert(forall|i: int|
            0 <= i < samples.drop_first().len() ==> !(#[trigger] samples.drop_first()[i]).high);
        lemma_stuck_low_no_reading(timeout, samples.drop_first());
    }
}

/// Stuck-high law: when the echo line never falls, no phase of a
/// measurement can ever complete a pulse, so it yields no reading.
pub proof fn lemma_stuck_high_no_reading(timeout: int, phase: EchoPhase, samples: Seq<EchoSample>)
    requires
        forall|i: int| 0 <= i < samples.len() ==> (#[trigger] samples[i]).high,
    ensures
        spec_measure(timeout, phase, samples) is None,
    decreases samples.len(),
{
    if samples.len() > 0 {
        assert(forall|i: int|
            0 <= i < samples.drop_first().len() ==> (#[trigger] samples.drop_first()[i]).high);
        match spec_poll(timeout, phase, samples[0].high, samples[0].t_us as int) {
            PollOutcome::Pending(p) => {
                lemma_stuck_high_no_reading(timeout, p, samples.drop_first());
            },
            _ => {},
        }
    }
}

} // verus!
