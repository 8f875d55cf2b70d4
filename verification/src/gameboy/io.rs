//! The joypad and the timer.

use super::bits::lemma_and_is_smaller;
use super::interrupts::InterruptSet;
use vstd::prelude::*;

verus! {

/// The eight buttons.
#[derive(Clone, Copy, Debug, PartialEq, Eq)]
pub enum Button {
    Down,
    Up,
    Left,
    Right,
    Start,
    Select,
    A,
    B,
}

/// Which of the two button lines the joypad register shows, named by
/// the select bits as written: bit 4 set shows the buttons, bit 5 set
/// the directions, both set show neither line, both clear show the two
/// lines combined.
#[derive(Clone, Copy, Debug, PartialEq, Eq)]
pub enum InputLine {
    Directions,
    Buttons,
    Both,
    Neither,
}

impl Button {
    /// The button's bit within its line.
    pub open spec fn mask(self) -> u8 {
        match self {
            Button::Right | Button::A => 1,
            Button::Left | Button::B => 2,
            Button::Up | Button::Select => 4,
            Button::Down | Button::Start => 8,
        }
    }

    /// Whether the button is one of the four directions.
    pub open spec fn is_direction(self) -> bool {
        self is Down || self is Up || self is Left || self is Right
    }

    pub fn bit(&self) -> (r: u8)
        ensures
            r == self.mask(),
    {
        match self {
            Button::Right | Button::A => 1,
            Button::Left | Button::B => 2,
            Button::Up | Button::Select => 4,
            Button::Down | Button::Start => 8,
        }
    }

    pub fn line(&self) -> (r: InputLine)
        ensures
            r == (if self.is_direction() { InputLine::Directions } else { InputLine::Buttons }),
    {
        match self {
            Button::Down | Button::Up | Button::Left | Button::Right => InputLine::Directions,
            Button::Start | Button::Select | Button::A | Button::B => InputLine::Buttons,
        }
    }
}

impl InputLine {
    /// The select bits, read back as they were written.
    pub open spec fn select_bits(self) -> int {
        match self {
            InputLine::Directions => 0x20,
            InputLine::Buttons => 0x10,
            InputLine::Both => 0x30,
            InputLine::Neither => 0x00,
        }
    }

    /// The line named by bits 5 and 4 of a written byte.
    pub open spec fn of_byte(value: u8) -> Self {
        let bits = (value / 16) % 4;
        if bits == 1 {
            InputLine::Buttons
        } else if bits == 2 {
            InputLine::Directions
        } else if bits == 3 {
            InputLine::Both
        } else {
            InputLine::Neither
        }
    }
}

/// A line with one button pressed or released. A pressed button's bit
/// is clear.
pub open spec fn line_with(line: u8, mask: u8, pressed: bool) -> u8 {
    let set = (line / mask) % 2 == 1;
    if pressed && set {
        (line - mask) as u8
    } else if !pressed && !set {
        (line + mask) as u8
    } else {
        line
    }
}

/// The joypad: the state of the two lines, the line selection, and
/// whether an interrupt is waiting to be raised.
#[derive(Clone, Copy, Debug, PartialEq, Eq)]
pub struct Buttons {
    pub directions: u8,
    pub buttons: u8,
    pub current_line: InputLine,
    pub interrupt_raised: bool,
}

impl Buttons {
    pub open spec fn wf(self) -> bool {
        self.directions < 16 && self.buttons < 16
    }

    pub open spec fn released() -> Self {
        Buttons {
            directions: 0x0F,
            buttons: 0x0F,
            current_line: InputLine::Neither,
            interrupt_raised: false,
        }
    }

    /// The low nibble of the register: the selected line, all ones
    /// where the select bits are both set, and where they are both
    /// clear the two lines combined, a bit being clear where either
    /// line has it clear.
    pub open spec fn nibble(self) -> u8 {
        match self.current_line {
            InputLine::Directions => self.directions,
            InputLine::Buttons => self.buttons,
            InputLine::Both => 0xF,
            InputLine::Neither => self.buttons & self.directions,
        }
    }

    /// The register as read: the two upper bits are ones.
    pub open spec fn byte(self) -> int {
        0xC0 + self.current_line.select_bits() + self.nibble()
    }

    /// The joypad after a write, which selects the line. A button held
    /// on the line now shown asks for an interrupt.
    pub open spec fn written(self, value: u8) -> Self {
        let selected = Buttons { current_line: InputLine::of_byte(value), ..self };
        Buttons {
            interrupt_raised: self.interrupt_raised || selected.nibble() != 0xF,
            ..selected
        }
    }

    /// The joypad after a button went down or up. A button that goes
    /// down while the register shows none held asks for an interrupt.
    pub open spec fn with_button(self, button: Button, pressed: bool) -> Self {
        Buttons {
            interrupt_raised: self.interrupt_raised || (pressed && self.nibble() == 0xF),
            directions: if button.is_direction() {
                line_with(self.directions, button.mask(), pressed)
            } else {
                self.directions
            },
            buttons: if button.is_direction() {
                self.buttons
            } else {
                line_with(self.buttons, button.mask(), pressed)
            },
            ..self
        }
    }

    pub fn new() -> (r: Self)
        ensures
            r == Self::released(),
            r.wf(),
    {
        Buttons {
            directions: 0x0F,
            buttons: 0x0F,
            current_line: InputLine::Neither,
            interrupt_raised: false,
        }
    }

    fn low_nibble(&self) -> (r: u8)
        requires
            self.wf(),
        ensures
            r == self.nibble(),
            r < 16,
    {
        proof {
            lemma_and_is_smaller(self.buttons, self.directions);
        }
        match self.current_line {
            InputLine::Directions => self.directions,
            InputLine::Buttons => self.buttons,
            InputLine::Both => 0xF,
            InputLine::Neither => self.buttons & self.directions,
        }
    }

    pub fn read(&self) -> (r: u8)
        requires
            self.wf(),
        ensures
            r as int == self.byte(),
    {
        let select: u8 = match self.current_line {
            InputLine::Directions => 0x20,
            InputLine::Buttons => 0x10,
            InputLine::Both => 0x30,
            InputLine::Neither => 0x00,
        };
        0xC0 + select + self.low_nibble()
    }

    pub fn write(&mut self, value: u8)
        requires
            old(self).wf(),
        ensures
            *final(self) == old(self).written(value),
            final(self).wf(),
    {
        let bits: u8 = (value / 16) % 4;
        self.current_line = if bits == 1 {
            InputLine::Buttons
        } else if bits == 2 {
            InputLine::Directions
        } else if bits == 3 {
            InputLine::Both
        } else {
            InputLine::Neither
        };
        if self.low_nibble() != 0xF {
            self.interrupt_raised = true;
        }
    }

    fn set_line(line: u8, mask: u8, pressed: bool) -> (r: u8)
        requires
            line < 16,
            mask == 1 || mask == 2 || mask == 4 || mask == 8,
        ensures
            r == line_with(line, mask, pressed),
            r < 16,
    {
        let set = (line / mask) % 2 == 1;
        if pressed && set {
            line - mask
        } else if !pressed && !set {
            line + mask
        } else {
            line
        }
    }

    /// Records that a button went down (`set`) or up.
    pub fn set_button(&mut self, button: Button, set: bool)
        requires
            old(self).wf(),
        ensures
            *final(self) == old(self).with_button(button, set),
            final(self).wf(),
    {
        if set && self.low_nibble() == 0x0F {
            self.interrupt_raised = true;
        }
        match button.line() {
            InputLine::Directions => {
                self.directions = Self::set_line(self.directions, button.bit(), set);
            },
            _ => {
                self.buttons = Self::set_line(self.buttons, button.bit(), set);
            },
        }
    }
}

/// The divider tap that clocks the timer.
#[derive(Clone, Copy, Debug, PartialEq, Eq)]
pub enum InputClock {
    CpuDiv1024,
    CpuDiv16,
    CpuDiv64,
    CpuDiv256,
}

impl InputClock {
    /// The weight of the divider bit whose fall steps the counter: it
    /// falls once in as many master cycles as the clock's name says.
    pub open spec fn tap(self) -> u16 {
        match self {
            InputClock::CpuDiv1024 => 512,
            InputClock::CpuDiv16 => 8,
            InputClock::CpuDiv64 => 32,
            InputClock::CpuDiv256 => 128,
        }
    }

    pub open spec fn code(self) -> int {
        match self {
            InputClock::CpuDiv1024 => 0,
            InputClock::CpuDiv16 => 1,
            InputClock::CpuDiv64 => 2,
            InputClock::CpuDiv256 => 3,
        }
    }

    pub open spec fn of_code(code: int) -> Self {
        if code == 0 {
            InputClock::CpuDiv1024
        } else if code == 1 {
            InputClock::CpuDiv16
        } else if code == 2 {
            InputClock::CpuDiv64
        } else {
            InputClock::CpuDiv256
        }
    }

    /// Whether the tapped bit of `divider` is set.
    pub open spec fn high(self, divider: u16) -> bool {
        match self {
            InputClock::CpuDiv1024 => (divider / 512) % 2 == 1,
            InputClock::CpuDiv16 => (divider / 8) % 2 == 1,
            InputClock::CpuDiv64 => (divider / 32) % 2 == 1,
            InputClock::CpuDiv256 => (divider / 128) % 2 == 1,
        }
    }

    pub fn bit(&self) -> (r: u16)
        ensures
            r == self.tap(),
    {
        match self {
            InputClock::CpuDiv1024 => 512,
            InputClock::CpuDiv16 => 8,
            InputClock::CpuDiv64 => 32,
            InputClock::CpuDiv256 => 128,
        }
    }

    pub fn is_high(&self, divider: u16) -> (r: bool)
        ensures
            r == self.high(divider),
    {
        match self {
            InputClock::CpuDiv1024 => (divider / 512) % 2 == 1,
            InputClock::CpuDiv16 => (divider / 8) % 2 == 1,
            InputClock::CpuDiv64 => (divider / 32) % 2 == 1,
            InputClock::CpuDiv256 => (divider / 128) % 2 == 1,
        }
    }
}

/// Whether the counter has just overflowed and awaits its reload.
#[derive(Clone, Copy, Debug, PartialEq, Eq)]
pub enum TimerState {
    Normal,
    Overflowed,
}

/// What a tick of the timer reports.
#[derive(Clone, Copy, Debug, PartialEq, Eq)]
pub struct TimerTick {
    pub timer_overflow: bool,
    pub apu_inc_div: bool,
}

pub const DIVIDER_ADDRESS: u16 = 0xFF04;

pub const COUNTER_ADDRESS: u16 = 0xFF05;

pub const MODULO_ADDRESS: u16 = 0xFF06;

pub const CONTROL_ADDRESS: u16 = 0xFF07;

/// Whether the divider bit that clocks the sound sequencer is set.
pub open spec fn sequencer_bit(divider: u16) -> bool {
    (divider / 4096) % 2 == 1
}

/// The divider and the timer counter.
#[derive(Clone, Copy, Debug, PartialEq, Eq)]
pub struct Timer {
    pub divider: u16,
    pub counter: u8,
    pub modulo: u8,
    pub enabled: bool,
    pub apu_inc_div: bool,
    pub input_clock: InputClock,
    pub state: TimerState,
}

impl Timer {
    pub open spec fn initial() -> Self {
        Timer {
            divider: 0,
            counter: 0,
            modulo: 0,
            enabled: false,
            apu_inc_div: false,
            input_clock: InputClock::CpuDiv1024,
            state: TimerState::Normal,
        }
    }

    /// The divider four master cycles later.
    pub open spec fn next_divider(self) -> u16 {
        ((self.divider + 4) % 0x1_0000) as u16
    }

    /// The timer with its counter stepped: past 255 the counter
    /// restarts at zero and awaits its reload.
    pub open spec fn counted(self) -> Self {
        if self.counter == 255 {
            Timer { counter: 0, state: TimerState::Overflowed, ..self }
        } else {
            Timer { counter: (self.counter + 1) as u8, ..self }
        }
    }

    /// The timer one machine cycle later. The divider moves on by
    /// four. While the timer is on, a counter that overflowed is
    /// reloaded from the modulo, and else a fall of the tapped divider
    /// bit steps the counter.
    #[verifier::opaque]
    pub open spec fn ticked(self) -> Self {
        let moved = Timer { divider: self.next_divider(), apu_inc_div: false, ..self };
        if !self.enabled {
            moved
        } else if self.state is Overflowed {
            Timer { counter: self.modulo, state: TimerState::Normal, ..moved }
        } else if self.input_clock.high(self.divider) && !self.input_clock.high(
            self.next_divider(),
        ) {
            moved.counted()
        } else {
            moved
        }
    }

    /// What the tick reports: the interrupt on the tick that reloads
    /// an overflowed counter, and a step of the sound sequencer where
    /// its divider bit fell or a divider reset has left one due.
    pub open spec fn tick_report(self) -> TimerTick {
        TimerTick {
            timer_overflow: self.enabled && self.state is Overflowed,
            apu_inc_div: self.apu_inc_div || (sequencer_bit(self.divider) && !sequencer_bit(
                self.next_divider(),
            )),
        }
    }

    /// What a read of the register at `address` returns.
    pub open spec fn register_value(self, address: u16) -> int {
        if address == DIVIDER_ADDRESS {
            self.divider as int / 256
        } else if address == COUNTER_ADDRESS {
            self.counter as int
        } else if address == MODULO_ADDRESS {
            self.modulo as int
        } else if address == CONTROL_ADDRESS {
            0xF8 + (if self.enabled { 4int } else { 0 }) + self.input_clock.code()
        } else {
            0xFF
        }
    }

    /// The timer after a write to the control register. Switching the
    /// timer off while the tapped bit is set, or switching it on with
    /// a tap that is set where the old one was clear, steps the
    /// counter.
    pub open spec fn with_control(self, value: u8) -> Self {
        let enabled = (value / 4) % 2 == 1;
        let clock = InputClock::of_code(value as int % 4);
        let set = Timer { enabled, input_clock: clock, ..self };
        let old_high = self.input_clock.high(self.divider);
        let new_high = clock.high(self.divider);
        if (self.enabled && !enabled && old_high) || (!self.enabled && enabled && !old_high
            && new_high) {
            set.counted()
        } else {
            set
        }
    }

    /// The timer after a write to the divider, which resets it: a
    /// tapped bit that was set thereby falls and steps the counter,
    /// and a set sequencer bit leaves a sequencer step due.
    pub open spec fn with_divider_reset(self) -> Self {
        let stepped = if self.input_clock.high(self.divider) { self.counted() } else { self };
        Timer {
            divider: 0,
            apu_inc_div: self.apu_inc_div || sequencer_bit(self.divider),
            ..stepped
        }
    }

    /// The timer after a write to the register at `address`.
    #[verifier::opaque]
    pub open spec fn written(self, address: u16, value: u8) -> Self {
        if address == DIVIDER_ADDRESS {
            self.with_divider_reset()
        } else if address == COUNTER_ADDRESS {
            Timer { counter: value, ..self }
        } else if address == MODULO_ADDRESS {
            Timer { modulo: value, ..self }
        } else if address == CONTROL_ADDRESS {
            self.with_control(value)
        } else {
            self
        }
    }

    pub fn new() -> (r: Self)
        ensures
            r == Self::initial(),
    {
        Timer {
            divider: 0,
            counter: 0,
            modulo: 0,
            enabled: false,
            apu_inc_div: false,
            input_clock: InputClock::CpuDiv1024,
            state: TimerState::Normal,
        }
    }

    pub fn increase_counter(&mut self)
        ensures
            *final(self) == old(self).counted(),
    {
        if self.counter == 255 {
            self.counter = 0;
            self.state = TimerState::Overflowed;
        } else {
            self.counter += 1;
        }
    }

    /// Advances the timer by one machine cycle.
    pub fn tick(&mut self) -> (r: TimerTick)
        ensures
            *final(self) == old(self).ticked(),
            r == old(self).tick_report(),
    {
        reveal(Timer::ticked);
        let old_divider = self.divider;
        self.divider = self.divider.wrapping_add(4);
        let apu_inc_div = self.apu_inc_div || ((old_divider / 4096) % 2 == 1 && (self.divider / 4096)
            % 2 == 0);
        self.apu_inc_div = false;
        if !self.enabled {
            return TimerTick { apu_inc_div, timer_overflow: false };
        }
        let timer_overflow = match self.state {
            TimerState::Normal => {
                if self.input_clock.is_high(old_divider) && !self.input_clock.is_high(self.divider) {
                    self.increase_counter();
                }
                false
            },
            TimerState::Overflowed => {
                self.counter = self.modulo;
                self.state = TimerState::Normal;
                true
            },
        };
        TimerTick { timer_overflow, apu_inc_div }
    }

    pub fn read(&self, address: u16) -> (r: u8)
        ensures
            r as int == self.register_value(address),
    {
        match address {
            DIVIDER_ADDRESS => (self.divider / 256) as u8,
            COUNTER_ADDRESS => self.counter,
            MODULO_ADDRESS => self.modulo,
            CONTROL_ADDRESS => {
                let enabled: u8 = if self.enabled { 4 } else { 0 };
                let clock: u8 = match self.input_clock {
                    InputClock::CpuDiv1024 => 0,
                    InputClock::CpuDiv16 => 1,
                    InputClock::CpuDiv64 => 2,
                    InputClock::CpuDiv256 => 3,
                };
                0xF8 + enabled + clock
            },
            _ => 0xFF,
        }
    }

    pub fn write(&mut self, address: u16, value: u8)
        ensures
            *final(self) == old(self).written(address, value),
    {
        reveal(Timer::written);
        match address {
            DIVIDER_ADDRESS => {
                if self.input_clock.is_high(self.divider) {
                    self.increase_counter();
                }
                if (self.divider / 4096) % 2 == 1 {
                    self.apu_inc_div = true;
                }
                self.divider = 0;
            },
            COUNTER_ADDRESS => self.counter = value,
            MODULO_ADDRESS => self.modulo = value,
            CONTROL_ADDRESS => {
                let old_enabled = self.enabled;
                let old_high = self.input_clock.is_high(self.divider);
                self.enabled = (value / 4) % 2 == 1;
                let code: u8 = value % 4;
                self.input_clock = if code == 0 {
                    InputClock::CpuDiv1024
                } else if code == 1 {
                    InputClock::CpuDiv16
                } else if code == 2 {
                    InputClock::CpuDiv64
                } else {
                    InputClock::CpuDiv256
                };
                let new_high = self.input_clock.is_high(self.divider);
                if (old_enabled && !self.enabled && old_high) || (!old_enabled && self.enabled
                    && !old_high && new_high) {
                    self.increase_counter();
                }
            },
            _ => {},
        }
    }
}

impl Timer {
    /// An overflow is answered on the tick after it: the tick that
    /// takes the counter past 255 leaves it at zero and reports
    /// nothing, and the next tick loads the modulo and reports the
    /// interrupt. The divider moves on by four master cycles with
    /// every tick.
    pub proof fn lemma_overflow_is_reported_a_tick_late(self)
        requires
            self.enabled,
            self.state is Normal,
            self.counter == 255,
            self.input_clock.high(self.divider),
            !self.input_clock.high(self.next_divider()),
        ensures
            !self.tick_report().timer_overflow,
            self.ticked().counter == 0,
            self.ticked().tick_report().timer_overflow,
            self.ticked().ticked().counter == self.modulo,
            self.ticked().ticked().state is Normal,
            !self.ticked().ticked().tick_report().timer_overflow,
            self.ticked().divider == self.next_divider(),
            self.ticked().ticked().divider == self.ticked().next_divider(),
    {
        reveal(Timer::ticked);
    }
}

pub const BUTTONS: u16 = 0xFF00;

pub const SERIAL_TRANSFER: u16 = 0xFF01;

pub const SERIAL_CONTROL: u16 = 0xFF02;

pub const TIMER_START: u16 = 0xFF04;

pub const TIMER_END: u16 = 0xFF07;

/// Joypad and timer together, as they share a block of registers.
#[derive(Clone, Copy, Debug, PartialEq, Eq)]
pub struct Io {
    pub buttons: Buttons,
    pub timer: Timer,
}

/// What a tick of joypad and timer reports.
#[derive(Clone, Copy, Debug, PartialEq, Eq)]
pub struct IoTick {
    pub interrupts: InterruptSet,
    pub apu_inc_div: bool,
}

impl Io {
    pub open spec fn wf(self) -> bool {
        self.buttons.wf()
    }

    /// Joypad and timer one machine cycle later: a waiting joypad
    /// interrupt is handed on.
    pub open spec fn ticked(self) -> Self {
        Io {
            buttons: Buttons { interrupt_raised: false, ..self.buttons },
            timer: self.timer.ticked(),
        }
    }

    pub open spec fn tick_report(self) -> IoTick {
        IoTick {
            interrupts: InterruptSet {
                joypad: self.buttons.interrupt_raised,
                timer: self.timer.tick_report().timer_overflow,
                ..InterruptSet::empty()
            },
            apu_inc_div: self.timer.tick_report().apu_inc_div,
        }
    }

    /// Joypad and timer after a cycle of a stopped machine: the timer
    /// stands still, the joypad still hands its interrupt on.
    pub open spec fn ticked_stopped(self) -> Self {
        Io { buttons: Buttons { interrupt_raised: false, ..self.buttons }, ..self }
    }

    pub open spec fn stopped_report(self) -> InterruptSet {
        InterruptSet { joypad: self.buttons.interrupt_raised, ..InterruptSet::empty() }
    }

    /// What a read of the register at `address` returns; the serial
    /// port is not there and reads as all ones.
    pub open spec fn register_value(self, address: u16) -> int {
        if address == BUTTONS {
            self.buttons.byte()
        } else if TIMER_START <= address <= TIMER_END {
            self.timer.register_value(address)
        } else {
            0xFF
        }
    }

    pub open spec fn written(self, address: u16, value: u8) -> Self {
        if address == BUTTONS {
            Io { buttons: self.buttons.written(value), ..self }
        } else if TIMER_START <= address <= TIMER_END {
            Io { timer: self.timer.written(address, value), ..self }
        } else {
            self
        }
    }

    pub fn new() -> (r: Self)
        ensures
            r.buttons == Buttons::released(),
            r.timer == Timer::initial(),
            r.wf(),
    {
        Io { buttons: Buttons::new(), timer: Timer::new() }
    }

    pub fn tick(&mut self) -> (r: IoTick)
        requires
            old(self).wf(),
        ensures
            *final(self) == old(self).ticked(),
            r == old(self).tick_report(),
            final(self).wf(),
    {
        let mut interrupts = InterruptSet::new();
        let mut buttons = self.buttons;
        if buttons.interrupt_raised {
            interrupts.joypad = true;
            buttons.interrupt_raised = false;
        }
        self.buttons = buttons;
        let mut timer = self.timer;
        let report = timer.tick();
        self.timer = timer;
        if report.timer_overflow {
            interrupts.timer = true;
        }
        IoTick { interrupts, apu_inc_div: report.apu_inc_div }
    }

    pub fn tick_stopped(&mut self) -> (r: InterruptSet)
        requires
            old(self).wf(),
        ensures
            *final(self) == old(self).ticked_stopped(),
            r == old(self).stopped_report(),
            final(self).wf(),
    {
        let mut interrupts = InterruptSet::new();
        let mut buttons = self.buttons;
        if buttons.interrupt_raised {
            interrupts.joypad = true;
            buttons.interrupt_raised = false;
        }
        self.buttons = buttons;
        interrupts
    }

    pub fn read(&self, address: u16) -> (r: u8)
        requires
            self.wf(),
        ensures
            r as int == self.register_value(address),
    {
        if address == BUTTONS {
            self.buttons.read()
        } else if TIMER_START <= address && address <= TIMER_END {
            self.timer.read(address)
        } else {
            0xFF
        }
    }

    pub fn write(&mut self, address: u16, value: u8)
        requires
            old(self).wf(),
        ensures
            *final(self) == old(self).written(address, value),
            final(self).wf(),
    {
        if address == BUTTONS {
            let mut buttons = self.buttons;
            buttons.write(value);
            self.buttons = buttons;
        } else if TIMER_START <= address && address <= TIMER_END {
            let mut timer = self.timer;
            timer.write(address, value);
            self.timer = timer;
        }
    }
}

} // verus!
