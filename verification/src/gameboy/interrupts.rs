//! The five interrupt sources and sets of them.

use vstd::prelude::*;

verus! {

/// An interrupt source. Earlier variants win when several are pending.
#[derive(Clone, Copy, Debug, PartialEq, Eq)]
pub enum Interrupt {
    VBlank,
    LcdStat,
    Timer,
    Serial,
    Joypad,
}

impl Interrupt {
    /// Where the handler of this source starts.
    pub open spec fn vector(self) -> u16 {
        match self {
            Interrupt::VBlank => 0x40,
            Interrupt::LcdStat => 0x48,
            Interrupt::Timer => 0x50,
            Interrupt::Serial => 0x58,
            Interrupt::Joypad => 0x60,
        }
    }

    /// The source's bit in the flag and enable registers.
    pub open spec fn mask(self) -> int {
        match self {
            Interrupt::VBlank => 1,
            Interrupt::LcdStat => 2,
            Interrupt::Timer => 4,
            Interrupt::Serial => 8,
            Interrupt::Joypad => 16,
        }
    }

    pub fn address(&self) -> (r: u16)
        ensures
            r == self.vector(),
    {
        match self {
            Interrupt::VBlank => 0x40,
            Interrupt::LcdStat => 0x48,
            Interrupt::Timer => 0x50,
            Interrupt::Serial => 0x58,
            Interrupt::Joypad => 0x60,
        }
    }
}

/// A set of interrupt sources.
#[derive(Clone, Copy, Debug, PartialEq, Eq)]
pub struct InterruptSet {
    pub vblank: bool,
    pub lcd_stat: bool,
    pub timer: bool,
    pub serial: bool,
    pub joypad: bool,
}

impl InterruptSet {
    pub open spec fn empty() -> Self {
        InterruptSet { vblank: false, lcd_stat: false, timer: false, serial: false, joypad: false }
    }

    pub open spec fn has(self, interrupt: Interrupt) -> bool {
        match interrupt {
            Interrupt::VBlank => self.vblank,
            Interrupt::LcdStat => self.lcd_stat,
            Interrupt::Timer => self.timer,
            Interrupt::Serial => self.serial,
            Interrupt::Joypad => self.joypad,
        }
    }

    pub open spec fn with(self, interrupt: Interrupt) -> Self {
        match interrupt {
            Interrupt::VBlank => InterruptSet { vblank: true, ..self },
            Interrupt::LcdStat => InterruptSet { lcd_stat: true, ..self },
            Interrupt::Timer => InterruptSet { timer: true, ..self },
            Interrupt::Serial => InterruptSet { serial: true, ..self },
            Interrupt::Joypad => InterruptSet { joypad: true, ..self },
        }
    }

    pub open spec fn without(self, interrupt: Interrupt) -> Self {
        match interrupt {
            Interrupt::VBlank => InterruptSet { vblank: false, ..self },
            Interrupt::LcdStat => InterruptSet { lcd_stat: false, ..self },
            Interrupt::Timer => InterruptSet { timer: false, ..self },
            Interrupt::Serial => InterruptSet { serial: false, ..self },
            Interrupt::Joypad => InterruptSet { joypad: false, ..self },
        }
    }

    pub open spec fn union(self, other: Self) -> Self {
        InterruptSet {
            vblank: self.vblank || other.vblank,
            lcd_stat: self.lcd_stat || other.lcd_stat,
            timer: self.timer || other.timer,
            serial: self.serial || other.serial,
            joypad: self.joypad || other.joypad,
        }
    }

    pub open spec fn intersection(self, other: Self) -> Self {
        InterruptSet {
            vblank: self.vblank && other.vblank,
            lcd_stat: self.lcd_stat && other.lcd_stat,
            timer: self.timer && other.timer,
            serial: self.serial && other.serial,
            joypad: self.joypad && other.joypad,
        }
    }

    pub open spec fn none(self) -> bool {
        self == Self::empty()
    }

    /// The set as the low five bits of a register.
    pub open spec fn low_bits(self) -> int {
        (if self.vblank { 1int } else { 0 }) + (if self.lcd_stat { 2int } else { 0 }) + (
        if self.timer { 4int } else { 0 }) + (if self.serial { 8int } else { 0 }) + (
        if self.joypad { 16int } else { 0 })
    }

    /// The set that the low five bits of `value` name.
    pub open spec fn of_bits(value: u8) -> Self {
        InterruptSet {
            vblank: value % 2 == 1,
            lcd_stat: (value / 2) % 2 == 1,
            timer: (value / 4) % 2 == 1,
            serial: (value / 8) % 2 == 1,
            joypad: (value / 16) % 2 == 1,
        }
    }

    /// The member that is served first, if there is one.
    pub open spec fn first(self) -> Option<Interrupt> {
        if self.vblank {
            Some(Interrupt::VBlank)
        } else if self.lcd_stat {
            Some(Interrupt::LcdStat)
        } else if self.timer {
            Some(Interrupt::Timer)
        } else if self.serial {
            Some(Interrupt::Serial)
        } else if self.joypad {
            Some(Interrupt::Joypad)
        } else {
            None
        }
    }

    pub fn new() -> (r: Self)
        ensures
            r == Self::empty(),
    {
        InterruptSet { vblank: false, lcd_stat: false, timer: false, serial: false, joypad: false }
    }

    pub fn contains(&self, interrupt: Interrupt) -> (r: bool)
        ensures
            r == self.has(interrupt),
    {
        match interrupt {
            Interrupt::VBlank => self.vblank,
            Interrupt::LcdStat => self.lcd_stat,
            Interrupt::Timer => self.timer,
            Interrupt::Serial => self.serial,
            Interrupt::Joypad => self.joypad,
        }
    }

    pub fn insert(&mut self, interrupt: Interrupt)
        ensures
            *final(self) == old(self).with(interrupt),
    {
        match interrupt {
            Interrupt::VBlank => self.vblank = true,
            Interrupt::LcdStat => self.lcd_stat = true,
            Interrupt::Timer => self.timer = true,
            Interrupt::Serial => self.serial = true,
            Interrupt::Joypad => self.joypad = true,
        }
    }

    pub fn remove(&mut self, interrupt: Interrupt)
        ensures
            *final(self) == old(self).without(interrupt),
    {
        match interrupt {
            Interrupt::VBlank => self.vblank = false,
            Interrupt::LcdStat => self.lcd_stat = false,
            Interrupt::Timer => self.timer = false,
            Interrupt::Serial => self.serial = false,
            Interrupt::Joypad => self.joypad = false,
        }
    }

    pub fn or(&self, other: &InterruptSet) -> (r: Self)
        ensures
            r == self.union(*other),
    {
        InterruptSet {
            vblank: self.vblank || other.vblank,
            lcd_stat: self.lcd_stat || other.lcd_stat,
            timer: self.timer || other.timer,
            serial: self.serial || other.serial,
            joypad: self.joypad || other.joypad,
        }
    }

    pub fn and(&self, other: &InterruptSet) -> (r: Self)
        ensures
            r == self.intersection(*other),
    {
        InterruptSet {
            vblank: self.vblank && other.vblank,
            lcd_stat: self.lcd_stat && other.lcd_stat,
            timer: self.timer && other.timer,
            serial: self.serial && other.serial,
            joypad: self.joypad && other.joypad,
        }
    }

    pub fn is_empty(&self) -> (r: bool)
        ensures
            r == self.none(),
    {
        !self.vblank && !self.lcd_stat && !self.timer && !self.serial && !self.joypad
    }

    pub fn bits(&self) -> (r: u8)
        ensures
            r as int == self.low_bits(),
            r < 32,
    {
        let b0: u8 = if self.vblank { 1 } else { 0 };
        let b1: u8 = if self.lcd_stat { 2 } else { 0 };
        let b2: u8 = if self.timer { 4 } else { 0 };
        let b3: u8 = if self.serial { 8 } else { 0 };
        let b4: u8 = if self.joypad { 16 } else { 0 };
        b0 + b1 + b2 + b3 + b4
    }

    /// The set named by the low five bits of `value`; the rest is
    /// dropped.
    pub fn new_truncated(value: u8) -> (r: Self)
        ensures
            r == Self::of_bits(value),
    {
        InterruptSet {
            vblank: value % 2 == 1,
            lcd_stat: (value / 2) % 2 == 1,
            timer: (value / 4) % 2 == 1,
            serial: (value / 8) % 2 == 1,
            joypad: (value / 16) % 2 == 1,
        }
    }

    /// The pending source of highest priority.
    pub fn next(&self) -> (r: Option<Interrupt>)
        ensures
            r == self.first(),
            r is None <==> self.none(),
    {
        if self.vblank {
            Some(Interrupt::VBlank)
        } else if self.lcd_stat {
            Some(Interrupt::LcdStat)
        } else if self.timer {
            Some(Interrupt::Timer)
        } else if self.serial {
            Some(Interrupt::Serial)
        } else if self.joypad {
            Some(Interrupt::Joypad)
        } else {
            None
        }
    }

    /// Reading the set back from its bits gives the set.
    pub proof fn lemma_bits_round_trip(self)
        ensures
            0 <= self.low_bits() < 32,
            Self::of_bits(self.low_bits() as u8) == self,
    {
    }
}

} // verus!
