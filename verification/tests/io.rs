use oxidegb::gameboy::interrupts::{Interrupt, InterruptSet};
use oxidegb::gameboy::io::{Button, Buttons, InputClock, InputLine, Io, Timer, TimerState};

#[test]
fn timer_counts_once_in_1024_master_cycles() {
    let mut timer = Timer::new();
    timer.write(0xFF07, 0x04);
    let mut increments = 0;
    let mut overflows = 0;
    // 262,144 master cycles are 65,536 ticks of 4.
    for _ in 0..65_536 {
        let before = timer.counter;
        let report = timer.tick();
        if timer.counter == before.wrapping_add(1) {
            increments += 1;
        }
        if report.timer_overflow {
            overflows += 1;
        }
    }
    assert_eq!(increments, 256);
    assert_eq!(timer.counter, 0);
    assert_eq!(overflows, 0);
    // The interrupt comes with the reload, one tick after the overflow.
    assert!(timer.tick().timer_overflow);
    for _ in 0..65_535 {
        if timer.tick().timer_overflow {
            overflows += 1;
        }
    }
    assert_eq!(overflows, 0);
}

#[test]
fn timer_reloads_from_the_modulo_a_tick_late() {
    let mut timer = Timer::new();
    timer.write(0xFF06, 0xF0);
    timer.write(0xFF05, 0xFF);
    timer.write(0xFF07, 0x05);
    // The fastest clock steps once in 16 master cycles.
    for _ in 0..3 {
        assert!(!timer.tick().timer_overflow);
        assert_eq!(timer.read(0xFF05), 0xFF);
    }
    assert!(!timer.tick().timer_overflow);
    assert_eq!(timer.read(0xFF05), 0x00);
    assert_eq!(timer.state, TimerState::Overflowed);
    assert!(timer.tick().timer_overflow);
    assert_eq!(timer.read(0xFF05), 0xF0);
    assert_eq!(timer.state, TimerState::Normal);
}

#[test]
fn divider_counts_master_cycles_and_resets_on_write() {
    let mut timer = Timer::new();
    for _ in 0..64 {
        timer.tick();
    }
    assert_eq!(timer.divider, 256);
    assert_eq!(timer.read(0xFF04), 1);
    timer.write(0xFF04, 0x55);
    assert_eq!(timer.read(0xFF04), 0);
    timer.divider = 0xFFFC;
    timer.tick();
    assert_eq!(timer.divider, 0);
}

#[test]
fn timer_rates() {
    for (tac, ticks_per_step) in [(0x04u8, 256u32), (0x05, 4), (0x06, 16), (0x07, 64)] {
        let mut timer = Timer::new();
        timer.write(0xFF07, tac);
        for _ in 0..(ticks_per_step * 10) {
            timer.tick();
        }
        assert_eq!(timer.read(0xFF05), 10, "control {:02X}", tac);
        assert_eq!(timer.read(0xFF07), 0xF8 | tac);
    }
    let mut stopped = Timer::new();
    stopped.write(0xFF07, 0x01);
    for _ in 0..1000 {
        stopped.tick();
    }
    assert_eq!(stopped.read(0xFF05), 0);
    assert_eq!(InputClock::CpuDiv1024.bit(), 512);
    assert_eq!(InputClock::CpuDiv16.bit(), 8);
    assert_eq!(InputClock::CpuDiv64.bit(), 32);
    assert_eq!(InputClock::CpuDiv256.bit(), 128);
    assert!(InputClock::CpuDiv16.is_high(8));
    assert!(!InputClock::CpuDiv16.is_high(16));
}

#[test]
fn divider_reset_can_step_the_counter() {
    let mut timer = Timer::new();
    timer.write(0xFF07, 0x05);
    timer.tick();
    timer.tick();
    assert_eq!(timer.divider, 8);
    timer.write(0xFF04, 0);
    assert_eq!(timer.read(0xFF05), 1);
    let mut timer = Timer::new();
    timer.write(0xFF07, 0x05);
    timer.tick();
    timer.tick();
    timer.write(0xFF07, 0x01);
    assert_eq!(timer.read(0xFF05), 1);
    let mut timer = Timer::new();
    timer.increase_counter();
    assert_eq!(timer.counter, 1);
}

#[test]
fn sound_sequencer_is_clocked_512_times_a_second() {
    let mut timer = Timer::new();
    let mut steps = 0;
    for _ in 0..(4_194_304 / 4) {
        if timer.tick().apu_inc_div {
            steps += 1;
        }
    }
    assert_eq!(steps, 512);
    let mut timer = Timer::new();
    timer.divider = 0x1000;
    timer.write(0xFF04, 0);
    assert!(timer.tick().apu_inc_div);
    assert!(!timer.tick().apu_inc_div);
}

#[test]
fn joypad_shows_the_selected_line_active_low() {
    let mut pad = Buttons::new();
    assert_eq!(pad.read(), 0xCF);
    pad.set_button(Button::A, true);
    pad.set_button(Button::Down, true);
    pad.write(0x10);
    assert_eq!(pad.current_line, InputLine::Buttons);
    assert_eq!(pad.read(), 0xC0 | 0x10 | 0x0E);
    pad.write(0x20);
    assert_eq!(pad.current_line, InputLine::Directions);
    assert_eq!(pad.read(), 0xC0 | 0x20 | 0x07);
    // With neither line selected the nibble reads as all ones.
    pad.write(0x30);
    assert_eq!(pad.read(), 0xFF);
    // With both lines selected a bit reads low where either line has
    // its button held, as documented for the first model.
    pad.write(0x00);
    assert_eq!(pad.read(), 0xC0 | 0x06);
    pad.set_button(Button::A, false);
    pad.set_button(Button::Down, false);
    assert_eq!(pad.read(), 0xCF);
}

#[test]
fn every_button_has_its_bit_and_line() {
    let all = [
        (Button::Right, 1u8, InputLine::Directions),
        (Button::Left, 2, InputLine::Directions),
        (Button::Up, 4, InputLine::Directions),
        (Button::Down, 8, InputLine::Directions),
        (Button::A, 1, InputLine::Buttons),
        (Button::B, 2, InputLine::Buttons),
        (Button::Select, 4, InputLine::Buttons),
        (Button::Start, 8, InputLine::Buttons),
    ];
    for (button, bit, line) in all {
        assert_eq!(button.bit(), bit);
        assert_eq!(button.line(), line);
        let mut pad = Buttons::new();
        pad.set_button(button, true);
        let (expected_directions, expected_buttons) = match line {
            InputLine::Directions => (0x0F & !bit, 0x0F),
            _ => (0x0F, 0x0F & !bit),
        };
        assert_eq!((pad.directions, pad.buttons), (expected_directions, expected_buttons));
        pad.set_button(button, true);
        assert_eq!((pad.directions, pad.buttons), (expected_directions, expected_buttons));
        pad.set_button(button, false);
        assert_eq!((pad.directions, pad.buttons), (0x0F, 0x0F));
    }
}

#[test]
fn a_press_raises_the_joypad_interrupt_once() {
    let mut io = Io::new();
    assert_eq!(io.tick().interrupts, InterruptSet::new());
    io.buttons.set_button(Button::Start, true);
    let raised = io.tick().interrupts;
    assert!(raised.joypad);
    assert!(!raised.timer);
    assert_eq!(io.tick().interrupts, InterruptSet::new());
    io.buttons.set_button(Button::Start, false);
    io.buttons.set_button(Button::B, true);
    assert!(io.tick_stopped().joypad);
    assert!(!io.tick_stopped().joypad);
}

#[test]
fn io_registers() {
    let mut io = Io::new();
    assert_eq!(io.read(0xFF00), 0xCF);
    assert_eq!(io.read(0xFF01), 0xFF);
    assert_eq!(io.read(0xFF02), 0xFF);
    assert_eq!(io.read(0xFF03), 0xFF);
    io.write(0xFF01, 0x12);
    io.write(0xFF06, 0x34);
    assert_eq!(io.read(0xFF06), 0x34);
    io.write(0xFF00, 0x20);
    assert_eq!(io.read(0xFF00), 0xEF);
    assert_eq!(io.read(0xFF07), 0xF8);
}

#[test]
fn interrupt_sets() {
    let order = [
        (Interrupt::VBlank, 0x40u16, 0x01u8),
        (Interrupt::LcdStat, 0x48, 0x02),
        (Interrupt::Timer, 0x50, 0x04),
        (Interrupt::Serial, 0x58, 0x08),
        (Interrupt::Joypad, 0x60, 0x10),
    ];
    let mut set = InterruptSet::new_truncated(0xFF);
    assert_eq!(set.bits(), 0x1F);
    for (interrupt, address, bit) in order {
        assert_eq!(interrupt.address(), address);
        assert_eq!(set.next(), Some(interrupt));
        assert!(set.contains(interrupt));
        let mut single = InterruptSet::new();
        single.insert(interrupt);
        assert_eq!(single.bits(), bit);
        assert_eq!(InterruptSet::new_truncated(bit), single);
        set.remove(interrupt);
        assert!(!set.contains(interrupt));
    }
    assert!(set.is_empty());
    assert_eq!(set.next(), None);
    let a = InterruptSet::new_truncated(0b00110);
    let b = InterruptSet::new_truncated(0b01100);
    assert_eq!(a.or(&b).bits(), 0b01110);
    assert_eq!(a.and(&b).bits(), 0b00100);
    for byte in 0..=255u8 {
        assert_eq!(InterruptSet::new_truncated(byte).bits(), byte & 0x1F);
    }
}
