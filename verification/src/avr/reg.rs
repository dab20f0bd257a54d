//! Register accesses as values.
//!
//! A register lives at a fixed address of the data space and is either one
//! byte or two bytes wide. A write is described by the address and the value
//! to store there; whoever performs it must do so with a volatile store, in
//! the order in which the writes were handed out.

use vstd::prelude::*;

verus! {

/// A store of one byte to the register at `addr`.
#[derive(Clone, Copy, Debug, PartialEq, Eq, Structural)]
pub struct Write8 {
    pub addr: u8,
    pub value: u8,
}

/// A store of two bytes to the register pair that starts at `addr`.
#[derive(Clone, Copy, Debug, PartialEq, Eq, Structural)]
pub struct Write16 {
    pub addr: u8,
    pub value: u16,
}

} // verus!
