//! The 16-bit timer, its prescaler, and the endless loop that it paces.
//!
//! ```text
//!   TCCR1A = 0x80   waveform generation, 0 for normal counting
//!   TCCR1B = 0x81   ... - CS12 - CS11 - CS10
//!   TCNT1  = 0x84   the counter, two bytes
//!
//!   prescale     CS12 CS11 CS10
//!      1           0    0    1
//!      8           0    1    0
//!     64           0    1    1
//!    256           1    0    0
//!   1024           1    0    1
//! ```
//!
//! The counter counts up from the value it was loaded with and wraps to zero
//! when it overflows. The loop loads it with a preload that leaves the wanted
//! number of ticks until the overflow, and waits until it reads zero.

use vstd::prelude::*;
use crate::avr::reg::{Write16, Write8};

verus! {

/// The CPU clock in Hz.
pub const F_CPU: u32 = 16_000_000;

/// Address of the waveform generation register.
pub const TCCR1A: u8 = 0x80;

/// Address of the clock select register.
pub const TCCR1B: u8 = 0x81;

/// Address of the 16-bit counter.
pub const TCNT1: u8 = 0x84;

/// The divisors that the prescaler offers.
pub open spec fn is_supported(prescale: u16) -> bool {
    prescale == 1 || prescale == 8 || prescale == 64 || prescale == 256 || prescale == 1024
}

/// The divisor that a request for `prescale` really selects: the request
/// itself where the prescaler offers it, 1024 otherwise.
pub open spec fn effective_prescale(prescale: u16) -> u16 {
    if is_supported(prescale) {
        prescale
    } else {
        1024
    }
}

/// The clock select bits that a request for `prescale` writes.
pub open spec fn clock_select(prescale: u16) -> u8 {
    if prescale == 1 {
        0b0000_0001
    } else if prescale == 8 {
        0b0000_0010
    } else if prescale == 64 {
        0b0000_0011
    } else if prescale == 256 {
        0b0000_0100
    } else {
        0b0000_0101
    }
}

/// Ticks of the counter per second under the divisor `prescale`.
pub open spec fn tick_rate(prescale: u16) -> int {
    F_CPU as int / prescale as int
}

/// The number of ticks in `ms` milliseconds, rounded down, and held to what
/// 16 bits can count.
pub open spec fn ticks_per_interval(prescale: u16, ms: u32) -> int {
    let exact = tick_rate(prescale) * ms as int / 1000;
    if exact > 0xFFFF {
        0xFFFF
    } else {
        exact
    }
}

/// The value to load into the counter so that it overflows after `ticks`
/// ticks: `0xFFFF - ticks`, kept away from both ends of the range.
pub open spec fn preload_for(ticks: int) -> int {
    if ticks >= 0xFFFF {
        1
    } else if ticks <= 0 {
        0xFFFE
    } else {
        0xFFFF - ticks
    }
}

/// The preload for a period of `ms` milliseconds under the divisor `prescale`.
pub open spec fn preload(prescale: u16, ms: u32) -> int {
    preload_for(ticks_per_interval(prescale, ms))
}

/// A handle on the timer. It records the divisor that was latched into the
/// clock select bits, never the mere request.
#[derive(Debug)]
pub struct Timer {
    prescale: u16,
}

impl Timer {
    /// The recorded divisor is one that the prescaler offers.
    #[verifier::type_invariant]
    pub closed spec fn wf(self) -> bool {
        is_supported(self.prescale)
    }

    /// The divisor in effect.
    pub closed spec fn spec_prescale(&self) -> u16 {
        self.prescale
    }

    /// The divisor in effect.
    #[verifier::when_used_as_spec(spec_prescale)]
    pub fn prescale(&self) -> (p: u16)
        ensures
            p == self.spec_prescale(),
            is_supported(p),
    {
        proof {
            use_type_invariant(self);
        }
        self.prescale
    }

    /// Selects the divisor `prescale`, or 1024 where the prescaler has no such
    /// divisor, and puts the timer into normal counting mode. The two writes
    /// are to be made in the order given: the clock select bits first, then
    /// the waveform generation mode.
    pub fn init(prescale: u16) -> (r: (Timer, [Write8; 2]))
        ensures
            r.0.prescale() == effective_prescale(prescale),
            r.1[0] == (Write8 { addr: TCCR1B, value: clock_select(prescale) }),
            r.1[1] == (Write8 { addr: TCCR1A, value: 0 }),
            !is_supported(prescale) ==> r.0.prescale() == 1024 && r.1[0].value == clock_select(
                1024,
            ),
    {
        let (p, bits): (u16, u8) = match prescale {
            1 => (1, 0b0000_0001),
            8 => (8, 0b0000_0010),
            64 => (64, 0b0000_0011),
            256 => (256, 0b0000_0100),
            1024 => (1024, 0b0000_0101),
            _ => (1024, 0b0000_0101),
        };
        let writes = [Write8 { addr: TCCR1B, value: bits }, Write8 { addr: TCCR1A, value: 0 }];
        (Timer { prescale: p }, writes)
    }

    /// The number of counter ticks that make up `ms` milliseconds.
    pub fn ticks(&self, ms: u32) -> (ct: u16)
        ensures
            ct == ticks_per_interval(self.prescale(), ms),
    {
        proof {
            use_type_invariant(self);
        }
        let rate: u32 = F_CPU / (self.prescale as u32);
        assert(rate as u64 * ms as u64 <= 16_000_000 * 0xFFFF_FFFF) by (nonlinear_arith)
            requires
                rate <= 16_000_000,
                ms <= 0xFFFF_FFFF,
        ;
        let exact: u64 = (rate as u64) * (ms as u64) / 1000;
        if exact > 0xFFFF {
            0xFFFF
        } else {
            exact as u16
        }
    }

    /// The value to load into the counter for a period of `ms` milliseconds.
    /// It is never 0 and never 0xFFFF.
    pub fn preload(&self, ms: u32) -> (count: u16)
        ensures
            count == preload(self.prescale(), ms),
            0 < count < 0xFFFF,
    {
        let ct: u16 = self.ticks(ms);
        let headroom: u16 = 0xFFFF - ct;
        match headroom {
            0 => 1,
            0xFFFF => 0xFFFF - 1,
            _ => headroom,
        }
    }

    /// Sets up the endless loop that fires once every `ms` milliseconds. The
    /// loop starts by calling back, and from then on loads the counter, waits
    /// for it to overflow, and calls back again. The period is a whole number
    /// of milliseconds, and the tick count is exact up to the rounding down.
    pub fn tick_tock(&self, ms: u32) -> (run: Run)
        ensures
            run.phase() == Phase::Call,
            run.preload() == preload(self.prescale(), ms),
            0 < run.preload() < 0xFFFF,
    {
        Run { preload: self.preload(ms), phase: Phase::Call }
    }
}

/// Where the loop stands: what it asks its driver to do next.
#[derive(Clone, Copy, Debug, PartialEq, Eq, Structural)]
pub enum Phase {
    /// The interval has elapsed: the callback is due.
    Call,
    /// The callback has run: the counter is to be loaded.
    Load,
    /// The counter runs: it is to be read until it shows zero.
    Wait,
    /// A fault has stopped the loop. Nothing is due, and nothing will be.
    Halted,
}

/// What the driver of the loop has to do before it steps the loop again.
#[derive(Clone, Copy, Debug, PartialEq, Eq)]
pub enum Action {
    /// Call the callback once.
    Call,
    /// Perform this write, which loads the counter.
    Load(Write16),
    /// Read the two-byte register at this address and hand the value to the
    /// next step.
    Poll(u8),
    /// Do nothing.
    Halt,
}

/// The phase that follows `phase` once its action is done. `counter` is what
/// the counter showed, and counts only while waiting.
pub open spec fn next_phase(phase: Phase, counter: u16) -> Phase {
    match phase {
        Phase::Call => Phase::Load,
        Phase::Load => Phase::Wait,
        Phase::Wait => if counter == 0 {
            Phase::Call
        } else {
            Phase::Wait
        },
        Phase::Halted => Phase::Halted,
    }
}

/// The action that is due in `phase` of a loop that loads `preload`.
pub open spec fn action_in(phase: Phase, preload: u16) -> Action {
    match phase {
        Phase::Call => Action::Call,
        Phase::Load => Action::Load(Write16 { addr: TCNT1, value: preload }),
        Phase::Wait => Action::Poll(TCNT1),
        Phase::Halted => Action::Halt,
    }
}

/// The phase that a loop is in after it went through `readings`, one step
/// for each, starting in `phase`.
pub open spec fn phase_after(phase: Phase, readings: Seq<u16>) -> Phase
    decreases readings.len(),
{
    if readings.len() == 0 {
        phase
    } else {
        phase_after(next_phase(phase, readings[0]), readings.skip(1))
    }
}

/// The endless loop as a machine that its driver steps: the driver performs
/// the action that is due, then advances the loop, and so on without end.
#[derive(Clone, Copy, Debug)]
pub struct Run {
    preload: u16,
    phase: Phase,
}

impl Run {
    /// A loop that is not halted has a preload strictly between 0 and 0xFFFF.
    #[verifier::type_invariant]
    pub closed spec fn wf(self) -> bool {
        self.phase != Phase::Halted ==> 0 < self.preload < 0xFFFF
    }

    /// The value that the loop loads into the counter.
    pub closed spec fn spec_preload(&self) -> u16 {
        self.preload
    }

    /// Where the loop stands.
    pub closed spec fn spec_phase(&self) -> Phase {
        self.phase
    }

    /// The value that the loop loads into the counter at the start of each
    /// interval.
    #[verifier::when_used_as_spec(spec_preload)]
    pub fn preload(&self) -> (count: u16)
        ensures
            count == self.spec_preload(),
            self.phase() != Phase::Halted ==> 0 < count < 0xFFFF,
    {
        proof {
            use_type_invariant(self);
        }
        self.preload
    }

    /// Where the loop stands.
    #[verifier::when_used_as_spec(spec_phase)]
    pub fn phase(&self) -> (phase: Phase)
        ensures
            phase == self.spec_phase(),
    {
        self.phase
    }

    /// What the driver has to do now.
    pub fn action(&self) -> (action: Action)
        ensures
            action == action_in(self.phase(), self.preload()),
    {
        match self.phase {
            Phase::Call => Action::Call,
            Phase::Load => Action::Load(Write16 { addr: TCNT1, value: self.preload }),
            Phase::Wait => Action::Poll(TCNT1),
            Phase::Halted => Action::Halt,
        }
    }

    /// Steps the loop once the action that was due is done. `counter` is the
    /// value that a poll read; after any other action it is not looked at.
    pub fn advance(self, counter: u16) -> (next: Run)
        ensures
            next.preload() == self.preload(),
            next.phase() == next_phase(self.phase(), counter),
    {
        proof {
            use_type_invariant(self);
        }
        let phase = match self.phase {
            Phase::Call => Phase::Load,
            Phase::Load => Phase::Wait,
            Phase::Wait => if counter == 0 {
                Phase::Call
            } else {
                Phase::Wait
            },
            Phase::Halted => Phase::Halted,
        };
        Run { preload: self.preload, phase }
    }
}

/// The fault hook. Whatever was running is given up for a loop that is
/// halted: it asks for nothing, and no step brings it back to life.
pub fn panic() -> (halted: Run)
    ensures
        halted.phase() == Phase::Halted,
{
    Run { preload: 0, phase: Phase::Halted }
}

/// A request for a divisor that the prescaler does not offer selects what a
/// request for 1024 selects, and writes the same clock select bits.
pub proof fn lemma_fallback_is_1024(prescale: u16)
    requires
        !is_supported(prescale),
    ensures
        effective_prescale(prescale) == 1024,
        effective_prescale(prescale) == effective_prescale(1024),
        clock_select(prescale) == clock_select(1024),
{
}

/// Each divisor that the prescaler offers has clock select bits of its own.
pub proof fn lemma_clock_select_distinct(a: u16, b: u16)
    requires
        is_supported(a),
        is_supported(b),
        a != b,
    ensures
        clock_select(a) != clock_select(b),
{
}

/// Whatever the period, the preload lies strictly between 0 and 0xFFFF.
pub proof fn lemma_preload_bounded(prescale: u16, ms: u32)
    ensures
        0 < preload(prescale, ms) < 0xFFFF,
{
}

/// Under one divisor a longer period never has the larger preload, and it has
/// a smaller one unless the shorter period has reached the floor of 1 already.
pub proof fn lemma_preload_decreases(prescale: u16, ms1: u32, ms2: u32)
    requires
        is_supported(prescale),
        ms1 < ms2,
    ensures
        preload(prescale, ms2) <= preload(prescale, ms1),
        preload(prescale, ms1) > 1 ==> preload(prescale, ms2) < preload(prescale, ms1),
{
    let rate: int = tick_rate(prescale);
    assert(rate >= 15625);
    assert(rate * ms2 >= rate * ms1 + rate) by (nonlinear_arith)
        requires
            rate >= 0,
            ms1 < ms2,
    ;
}

/// A waiting loop goes on waiting for as long as the counter shows anything
/// but zero, and calls back at the first zero.
pub proof fn lemma_wait_ends_at_zero(readings: Seq<u16>)
    requires
        forall|i: int| 0 <= i < readings.len() ==> readings[i] != 0,
    ensures
        phase_after(Phase::Wait, readings) == Phase::Wait,
        phase_after(Phase::Wait, readings.push(0)) == Phase::Call,
    decreases readings.len(),
{
    let closed = readings.push(0);
    if readings.len() > 0 {
        lemma_wait_ends_at_zero(readings.skip(1));
        assert(closed.skip(1) =~= readings.skip(1).push(0));
        assert(closed[0] == readings[0]);
    } else {
        assert(closed[0] == 0);
        assert(phase_after(Phase::Call, closed.skip(1)) == Phase::Call);
    }
}

/// A halted loop stays halted, whatever its driver hands it.
pub proof fn lemma_halt_is_permanent(readings: Seq<u16>)
    ensures
        phase_after(Phase::Halted, readings) == Phase::Halted,
    decreases readings.len(),
{
    if readings.len() > 0 {
        lemma_halt_is_permanent(readings.skip(1));
    }
}

} // verus!
