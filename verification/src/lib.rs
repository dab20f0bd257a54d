//! The core of a small firmware for the ATmega328P: a timer paced by a
//! prescaled clock, one digital output pin, and the endless loop that flips
//! the pin once per interval.
//!
//! The crate decides; it never touches a register. A driver performs the
//! register accesses that the functions hand out and feeds back what it read.

pub mod avr;
