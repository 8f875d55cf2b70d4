//! The LCD status register.

use vstd::prelude::*;

verus! {

/// What the pixel unit is doing.
#[derive(Clone, Copy, Debug, PartialEq, Eq)]
pub enum Mode {
    HBlank,
    VBlank,
    OamSearch,
    PixelTransfer,
}

impl Mode {
    /// The mode as reported in the two low bits of the register.
    pub open spec fn number(self) -> int {
        match self {
            Mode::HBlank => 0,
            Mode::VBlank => 1,
            Mode::OamSearch => 2,
            Mode::PixelTransfer => 3,
        }
    }
}

/// Interrupt enables, the line coincidence flag and the current mode.
#[derive(Clone, Copy, Debug, PartialEq, Eq)]
pub struct LcdStatus {
    pub coincidence_interrupt_enabled: bool,
    pub oam_interrupt_enabled: bool,
    pub vblank_interrupt_enabled: bool,
    pub hblank_interrupt_enabled: bool,
    pub lyc_coincidence: bool,
    pub mode: Mode,
}

impl LcdStatus {
    pub open spec fn initial() -> Self {
        LcdStatus {
            coincidence_interrupt_enabled: false,
            oam_interrupt_enabled: false,
            vblank_interrupt_enabled: false,
            hblank_interrupt_enabled: false,
            lyc_coincidence: false,
            mode: Mode::OamSearch,
        }
    }

    /// Bit 7 reads as one, bits 6 to 3 are the enables, bit 2 the
    /// coincidence flag, bits 1 and 0 the mode.
    pub open spec fn byte(self) -> int {
        128 + (if self.coincidence_interrupt_enabled { 64int } else { 0 }) + (
        if self.oam_interrupt_enabled { 32int } else { 0 }) + (if self.vblank_interrupt_enabled {
            16int
        } else {
            0
        }) + (if self.hblank_interrupt_enabled { 8int } else { 0 }) + (if self.lyc_coincidence {
            4int
        } else {
            0
        }) + self.mode.number()
    }

    /// A write sets the four enables and nothing else.
    pub open spec fn with_byte(self, value: u8) -> Self {
        LcdStatus {
            coincidence_interrupt_enabled: (value / 64) % 2 == 1,
            oam_interrupt_enabled: (value / 32) % 2 == 1,
            vblank_interrupt_enabled: (value / 16) % 2 == 1,
            hblank_interrupt_enabled: (value / 8) % 2 == 1,
            ..self
        }
    }

    pub fn new() -> (r: Self)
        ensures
            r == Self::initial(),
    {
        LcdStatus {
            coincidence_interrupt_enabled: false,
            oam_interrupt_enabled: false,
            vblank_interrupt_enabled: false,
            hblank_interrupt_enabled: false,
            lyc_coincidence: false,
            mode: Mode::OamSearch,
        }
    }

    pub fn value(&self) -> (r: u8)
        ensures
            r as int == self.byte(),
    {
        let b6: u8 = if self.coincidence_interrupt_enabled { 64 } else { 0 };
        let b5: u8 = if self.oam_interrupt_enabled { 32 } else { 0 };
        let b4: u8 = if self.vblank_interrupt_enabled { 16 } else { 0 };
        let b3: u8 = if self.hblank_interrupt_enabled { 8 } else { 0 };
        let b2: u8 = if self.lyc_coincidence { 4 } else { 0 };
        let mode: u8 = match self.mode {
            Mode::HBlank => 0,
            Mode::VBlank => 1,
            Mode::OamSearch => 2,
            Mode::PixelTransfer => 3,
        };
        128 + b6 + b5 + b4 + b3 + b2 + mode
    }

    pub fn set_value(&mut self, value: u8)
        ensures
            *final(self) == old(self).with_byte(value),
    {
        self.coincidence_interrupt_enabled = (value / 64) % 2 == 1;
        self.oam_interrupt_enabled = (value / 32) % 2 == 1;
        self.vblank_interrupt_enabled = (value / 16) % 2 == 1;
        self.hblank_interrupt_enabled = (value / 8) % 2 == 1;
    }

    pub fn coincidence_interrupt_enabled(&self) -> (r: bool)
        ensures
            r == self.coincidence_interrupt_enabled,
    {
        self.coincidence_interrupt_enabled
    }

    pub fn oam_interrupt_enabled(&self) -> (r: bool)
        ensures
            r == self.oam_interrupt_enabled,
    {
        self.oam_interrupt_enabled
    }

    pub fn vblank_interrupt_enabled(&self) -> (r: bool)
        ensures
            r == self.vblank_interrupt_enabled,
    {
        self.vblank_interrupt_enabled
    }

    pub fn hblank_interrupt_enabled(&self) -> (r: bool)
        ensures
            r == self.hblank_interrupt_enabled,
    {
        self.hblank_interrupt_enabled
    }
}

} // verus!
