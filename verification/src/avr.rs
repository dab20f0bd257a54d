//! The peripherals of the ATmega328P family that the firmware drives.
//!
//! Nothing in here touches the hardware. Every operation is a pure function
//! that tells its caller which register accesses to make; the caller owns the
//! volatile reads and writes and hands back what it read.

pub mod pin;
pub mod reg;
pub mod timer;
