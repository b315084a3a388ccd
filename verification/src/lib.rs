//! Control core of a small autonomous ground robot.
//!
//! The core turns raw digital sensor levels and elapsed-time measurements
//! into motor drive commands, using software-timed primitives only: no
//! hardware PWM and no hardware pulse capture.  All quantities are held as
//! fixed-point integers — time in microseconds, duty cycles in
//! ten-thousandths of full scale, distances in hundredths of a centimetre —
//! so that every rule can be stated and checked exactly.
//!
//! The physical digital-I/O layer, the clock and the console are outside
//! the core: callers read the input lines and the clock, hand the core
//! plain values, and copy the output-line levels the core computes back to
//! the hardware.

pub mod behavior;
pub mod drive;
pub mod ground;
pub mod pwm;
pub mod rangefinder;
pub mod robot;
