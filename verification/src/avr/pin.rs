//! One digital output pin of one port.
//!
//! ```text
//!   DDRB  = 0x24    PORTB = 0x25
//!   DDRC  = 0x27    PORTC = 0x28
//!   DDRD  = 0x2A    PORTD = 0x2B
//! ```
//!
//! On this family the direction register of a port sits one address below
//! its data register.

use vstd::prelude::*;
use crate::avr::reg::Write8;

verus! {

/// `io` moved up to the position of the pin at `pin_num`. Bits that leave
/// the byte at the top are lost.
pub open spec fn direction_bits(io: u8, pin_num: u8) -> u8 {
    io << pin_num
}

/// The data register `state` with the bit at `pin_num` flipped.
pub open spec fn toggled(state: u8, pin_num: u8) -> u8 {
    state ^ (1u8 << pin_num)
}

/// The bit of `value` at `pin_num`, as 0 or 1.
pub open spec fn level(value: u8, pin_num: u8) -> u8 {
    (value >> pin_num) & 1u8
}

/// A handle on the data register of one port.
#[derive(Debug)]
pub struct Port {
    p_addr: u8,
}

impl Port {
    /// There is room for the direction register below the data register.
    #[verifier::type_invariant]
    pub closed spec fn wf(self) -> bool {
        self.p_addr >= 1
    }

    /// The address of the port's data register.
    pub closed spec fn spec_address(&self) -> u8 {
        self.p_addr
    }

    /// The address of the port's data register, which `toggle` reads and writes.
    #[verifier::when_used_as_spec(spec_address)]
    pub fn address(&self) -> (addr: u8)
        ensures
            addr == self.spec_address(),
            addr >= 1,
    {
        proof {
            use_type_invariant(self);
        }
        self.p_addr
    }

    /// Claims the port whose data register is at `port_addr` and says what to
    /// store in its direction register: `io` shifted to the pin's position.
    /// With `io` 1 the pin becomes an output, with 0 an input; the other pins
    /// of the port become inputs.
    pub fn set(port_addr: u8, pin_num: u8, io: u8) -> (r: (Port, Write8))
        requires
            port_addr >= 1,
            pin_num < 8,
        ensures
            r.0.address() == port_addr,
            r.1.addr == port_addr - 1,
            r.1.value == direction_bits(io, pin_num),
            io <= 1 ==> forall|k: u8|
                k < 8 ==> #[trigger] level(r.1.value, k) == (if k == pin_num { io } else { 0 }),
    {
        let value: u8 = io << pin_num;
        proof {
            if io <= 1 {
                assert forall|k: u8| k < 8 implies #[trigger] level(value, k) == (if k == pin_num {
                    io
                } else {
                    0
                }) by {
                    assert((((io << pin_num) >> k) & 1u8) == (if k == pin_num { io } else { 0u8 }))
                        by (bit_vector)
                        requires
                            io <= 1,
                            pin_num < 8,
                            k < 8,
                    ;
                }
            }
        }
        (Port { p_addr: port_addr }, Write8 { addr: port_addr - 1, value })
    }

    /// Flips the pin at `pin_num`, given the byte `state` that was just read
    /// from the data register. Returns the byte to write back and the pin's
    /// new level, 0 or 1. Every other bit of the register keeps its value.
    pub fn toggle(&self, pin_num: u8, state: u8) -> (r: (Write8, u8))
        requires
            pin_num < 8,
        ensures
            r.0.addr == self.address(),
            r.0.value == toggled(state, pin_num),
            r.1 == level(r.0.value, pin_num),
            r.1 <= 1,
            r.1 == 1 - level(state, pin_num),
            forall|k: u8|
                k < 8 && k != pin_num ==> #[trigger] level(r.0.value, k) == level(state, k),
    {
        let value: u8 = state ^ (1u8 << pin_num);
        let bit: u8 = (value >> pin_num) & 1u8;
        proof {
            lemma_toggle_flips(state, pin_num);
            lemma_toggle_isolated(state, pin_num);
        }
        (Write8 { addr: self.p_addr, value }, bit)
    }
}

/// Toggling flips the pin's own bit: its level goes from 0 to 1 or from 1 to 0.
pub proof fn lemma_toggle_flips(state: u8, pin_num: u8)
    requires
        pin_num < 8,
    ensures
        level(state, pin_num) <= 1,
        level(toggled(state, pin_num), pin_num) == 1 - level(state, pin_num),
{
    assert(((state >> pin_num) & 1u8) <= 1) by (bit_vector);
    assert((((state ^ (1u8 << pin_num)) >> pin_num) & 1u8) == 1u8 - ((state >> pin_num) & 1u8))
        by (bit_vector)
        requires
            pin_num < 8,
    ;
}

/// Toggling one pin leaves every other bit of the register as it was.
pub proof fn lemma_toggle_isolated(state: u8, pin_num: u8)
    requires
        pin_num < 8,
    ensures
        forall|k: u8|
            k < 8 && k != pin_num ==> #[trigger] level(toggled(state, pin_num), k) == level(
                state,
                k,
            ),
{
    assert forall|k: u8| k < 8 && k != pin_num implies #[trigger] level(
        toggled(state, pin_num),
        k,
    ) == level(state, k) by {
        assert((((state ^ (1u8 << pin_num)) >> k) & 1u8) == ((state >> k) & 1u8)) by (bit_vector)
            requires
                pin_num < 8,
                k < 8,
                k != pin_num,
        ;
    }
}

/// Toggling the same pin twice restores the register.
pub proof fn lemma_toggle_twice(state: u8, pin_num: u8)
    requires
        pin_num < 8,
    ensures
        toggled(toggled(state, pin_num), pin_num) == state,
{
    assert(((state ^ (1u8 << pin_num)) ^ (1u8 << pin_num)) == state) by (bit_vector);
}

} // verus!
