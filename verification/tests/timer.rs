use avr_core::avr::reg::{Write16, Write8};
use avr_core::avr::timer::{Action, Phase, Timer, F_CPU, TCCR1A, TCCR1B, TCNT1};

const SUPPORTED: [u16; 5] = [1, 8, 64, 256, 1024];

#[test]
fn register_map() {
    assert_eq!(F_CPU, 16_000_000);
    assert_eq!(TCCR1A, 0x80);
    assert_eq!(TCCR1B, 0x81);
    assert_eq!(TCNT1, 0x84);
}

#[test]
fn init_writes_the_clock_select_bits_of_each_divisor() {
    for (prescale, bits) in [(1u16, 0b001u8), (8, 0b010), (64, 0b011), (256, 0b100), (1024, 0b101)] {
        let (timer, writes) = Timer::init(prescale);
        assert_eq!(timer.prescale(), prescale);
        assert_eq!(writes[0], Write8 { addr: 0x81, value: bits });
        assert_eq!(writes[1], Write8 { addr: 0x80, value: 0 });
    }
}

#[test]
fn init_with_divisor_three_falls_back_to_1024() {
    let (timer, writes) = Timer::init(3);
    let (explicit, explicit_writes) = Timer::init(1024);
    assert_eq!(timer.prescale(), 1024);
    assert_eq!(writes[0].value, 0b0000_0101);
    assert_eq!(writes, explicit_writes);
    assert_eq!(timer.prescale(), explicit.prescale());
}

#[test]
fn init_falls_back_for_every_other_divisor() {
    let (_, explicit_writes) = Timer::init(1024);
    for prescale in 0u16..=u16::MAX {
        if SUPPORTED.contains(&prescale) {
            continue;
        }
        let (timer, writes) = Timer::init(prescale);
        assert_eq!(timer.prescale(), 1024);
        assert_eq!(writes, explicit_writes);
    }
}

#[test]
fn init_gives_each_divisor_bits_of_its_own() {
    for a in SUPPORTED {
        for b in SUPPORTED {
            if a != b {
                assert_ne!(Timer::init(a).1[0].value, Timer::init(b).1[0].value);
            }
        }
    }
}

#[test]
fn hundred_milliseconds_at_1024() {
    let (timer, _) = Timer::init(1024);
    assert_eq!(timer.ticks(100), 1562);
    assert_eq!(timer.preload(100), 63973);
    let run = timer.tick_tock(100);
    assert_eq!(run.preload(), 63973);
    assert_eq!(run.phase(), Phase::Call);
}

#[test]
fn ticks_round_down() {
    let (timer, _) = Timer::init(1024);
    assert_eq!(timer.ticks(0), 0);
    assert_eq!(timer.ticks(1), 15);
    assert_eq!(timer.ticks(2), 31);
    assert_eq!(timer.ticks(8), 125);
    assert_eq!(timer.ticks(1000), 15625);
    let (timer, _) = Timer::init(256);
    assert_eq!(timer.ticks(1), 62);
    assert_eq!(timer.ticks(100), 6250);
    assert_eq!(timer.ticks(1000), 62500);
    let (timer, _) = Timer::init(64);
    assert_eq!(timer.ticks(1), 250);
    assert_eq!(timer.ticks(100), 25000);
    let (timer, _) = Timer::init(8);
    assert_eq!(timer.ticks(1), 2000);
    assert_eq!(timer.ticks(32), 64000);
    let (timer, _) = Timer::init(1);
    assert_eq!(timer.ticks(1), 16000);
    assert_eq!(timer.ticks(4), 64000);
}

#[test]
fn ticks_stop_at_what_sixteen_bits_hold() {
    let (timer, _) = Timer::init(1);
    assert_eq!(timer.ticks(5), 0xFFFF);
    assert_eq!(timer.ticks(100), 0xFFFF);
    assert_eq!(timer.ticks(u32::MAX), 0xFFFF);
    let (timer, _) = Timer::init(1024);
    assert_eq!(timer.ticks(4194), 65531);
    assert_eq!(timer.ticks(4195), 0xFFFF);
    assert_eq!(timer.ticks(u32::MAX), 0xFFFF);
}

#[test]
fn preload_keeps_away_from_both_ends() {
    let (timer, _) = Timer::init(1024);
    assert_eq!(timer.preload(0), 0xFFFE);
    assert_eq!(timer.preload(1), 0xFFFF - 15);
    assert_eq!(timer.preload(4194), 4);
    assert_eq!(timer.preload(4195), 1);
    assert_eq!(timer.preload(u32::MAX), 1);
    let (timer, _) = Timer::init(1);
    assert_eq!(timer.preload(0), 0xFFFE);
    assert_eq!(timer.preload(4), 1535);
    assert_eq!(timer.preload(5), 1);
}

#[test]
fn preload_is_never_zero_nor_all_ones() {
    for prescale in SUPPORTED {
        let (timer, _) = Timer::init(prescale);
        for ms in (0u32..6000).chain([65_535, 65_536, 1_000_000, u32::MAX - 1, u32::MAX]) {
            let count = timer.preload(ms);
            assert!(0 < count && count < 0xFFFF);
            assert_eq!(timer.tick_tock(ms).preload(), count);
        }
    }
}

#[test]
fn preload_falls_as_the_period_grows() {
    for prescale in SUPPORTED {
        let (timer, _) = Timer::init(prescale);
        let mut last = timer.preload(0);
        for ms in 1u32..6000 {
            let count = timer.preload(ms);
            if last > 1 {
                assert!(count < last);
            } else {
                assert_eq!(count, 1);
            }
            last = count;
        }
    }
}

#[test]
fn the_loop_calls_loads_and_waits() {
    let (timer, _) = Timer::init(1024);
    let run = timer.tick_tock(100);
    assert_eq!(run.action(), Action::Call);

    let run = run.advance(0);
    assert_eq!(run.phase(), Phase::Load);
    assert_eq!(run.action(), Action::Load(Write16 { addr: 0x84, value: 63973 }));

    let run = run.advance(0);
    assert_eq!(run.phase(), Phase::Wait);
    assert_eq!(run.action(), Action::Poll(0x84));

    let run = run.advance(63980);
    assert_eq!(run.phase(), Phase::Wait);
    let run = run.advance(0xFFFF);
    assert_eq!(run.phase(), Phase::Wait);
    assert_eq!(run.action(), Action::Poll(0x84));
    let run = run.advance(1);
    assert_eq!(run.phase(), Phase::Wait);

    let run = run.advance(0);
    assert_eq!(run.phase(), Phase::Call);
    assert_eq!(run.action(), Action::Call);
    assert_eq!(run.preload(), 63973);
}

#[test]
fn the_loop_ignores_the_counter_unless_it_waits() {
    let (timer, _) = Timer::init(8);
    let run = timer.tick_tock(10);
    assert_eq!(run.advance(0).phase(), Phase::Load);
    assert_eq!(run.advance(77).phase(), Phase::Load);
    let run = run.advance(77);
    assert_eq!(run.advance(0).phase(), Phase::Wait);
    assert_eq!(run.advance(77).phase(), Phase::Wait);
}

/// The counter as the hardware runs it: up by one between two polls, back to
/// zero past 0xFFFF. From the preload 63973 it shows 1563 values up to 0xFFFF,
/// and zero at the poll after those.
#[test]
fn the_loop_against_a_counting_register() {
    let (timer, _) = Timer::init(1024);
    let mut run = timer.tick_tock(100);
    let mut counter: u16 = 0;
    let mut read: u16 = 0;
    let mut polls = 0u32;
    let mut polls_before_each_call = Vec::new();
    while polls_before_each_call.len() < 4 {
        match run.action() {
            Action::Call => {
                polls_before_each_call.push(polls);
                polls = 0;
            }
            Action::Load(write) => {
                assert_eq!(write.addr, TCNT1);
                counter = write.value;
            }
            Action::Poll(addr) => {
                assert_eq!(addr, TCNT1);
                read = counter;
                counter = counter.wrapping_add(1);
                polls += 1;
            }
            Action::Halt => unreachable!(),
        }
        run = run.advance(read);
    }
    assert_eq!(polls_before_each_call, vec![0, 1564, 1564, 1564]);
}

#[test]
fn panic_halts_for_good() {
    let mut run = avr_core::avr::timer::panic();
    assert_eq!(run.phase(), Phase::Halted);
    for counter in [0u16, 1, 63973, 0xFFFF, 0, 0] {
        assert_eq!(run.action(), Action::Halt);
        run = run.advance(counter);
        assert_eq!(run.phase(), Phase::Halted);
    }
    assert_eq!(run.action(), Action::Halt);
}
