//! The first mapper: up to 128 ROM banks and four RAM banks, with a
//! mode bit that decides what the two upper bank bits apply to.

use super::{
    byte_at, read_image, with_byte_at, write_image, MapperOps, HIGH_BANK_START, RAM_BANK_SIZE,
    ROM_BANK_SIZE,
};
use vstd::prelude::*;

verus! {

/// What the two upper bank bits apply to.
#[derive(Clone, Copy, Debug, PartialEq, Eq)]
pub enum BankMode {
    /// The upper bits reach the high ROM window only.
    Rom,
    /// The upper bits reach the low ROM window and the RAM too.
    Ram,
}

#[derive(Clone, Copy, Debug, PartialEq, Eq)]
pub struct Mbc1 {
    pub has_ram: bool,
    pub has_battery: bool,
    pub ram_enabled: bool,
    pub rom_bank_count: u16,
    pub rom_bank_mask: u8,
    pub rom_bank: u8,
    pub ram_bank: u8,
    pub bank_mode: BankMode,
}

/// The low five bits of a bank number as a write selects them: a
/// number at or past the bank count is masked, and zero becomes one.
pub open spec fn mbc1_low_bits(value: u8, rom_bank_count: u16, rom_bank_mask: u8) -> u8 {
    let lower = value % 32;
    let masked = if lower >= rom_bank_count { lower & rom_bank_mask } else { lower };
    if masked == 0 {
        1
    } else {
        masked
    }
}

impl Mbc1 {
    pub open spec fn fresh(rom_bank_count: u16, has_ram: bool, has_battery: bool) -> Self {
        Mbc1 {
            has_ram,
            has_battery,
            ram_enabled: false,
            rom_bank_count,
            rom_bank_mask: if rom_bank_count == 0 {
                0
            } else {
                ((rom_bank_count - 1) % 256) as u8
            },
            rom_bank: 1,
            ram_bank: 0,
            bank_mode: BankMode::Rom,
        }
    }

    /// Offset in the ROM image of `address` in the low window: bank
    /// zero, or in RAM mode the bank that the two upper bits name.
    pub open spec fn low_offset(self, address: u16) -> int {
        match self.bank_mode {
            BankMode::Rom => address as int,
            BankMode::Ram => address + (self.rom_bank / 32) * 32 * ROM_BANK_SIZE,
        }
    }

    /// Offset in the ROM image of `address` in the high window.
    pub open spec fn high_offset(self, address: u16) -> int {
        address - ROM_BANK_SIZE + self.rom_bank * ROM_BANK_SIZE
    }

    /// Offset in RAM of `address`: bank zero, or in RAM mode the
    /// selected bank.
    pub open spec fn ram_offset(self, address: u16) -> int {
        match self.bank_mode {
            BankMode::Rom => address as int,
            BankMode::Ram => address + self.ram_bank * RAM_BANK_SIZE,
        }
    }

    pub open spec fn ram_open(self) -> bool {
        self.has_ram && self.ram_enabled
    }

    pub fn new(rom_bank_count: u16, has_ram: bool, has_battery: bool) -> (r: Self)
        ensures
            r == Self::fresh(rom_bank_count, has_ram, has_battery),
    {
        Mbc1 {
            has_ram,
            has_battery,
            ram_enabled: false,
            rom_bank_count,
            rom_bank_mask: if rom_bank_count == 0 {
                0
            } else {
                ((rom_bank_count - 1) % 256) as u8
            },
            rom_bank: 1,
            ram_bank: 0,
            bank_mode: BankMode::Rom,
        }
    }

    pub fn rom_address_low(&self, address: u16) -> (r: usize)
        ensures
            r as int == self.low_offset(address),
    {
        match self.bank_mode {
            BankMode::Rom => address as usize,
            BankMode::Ram => address as usize + ((self.rom_bank / 32) * 32) as usize * ROM_BANK_SIZE,
        }
    }

    pub fn rom_address_high(&self, address: u16) -> (r: usize)
        requires
            address >= HIGH_BANK_START,
        ensures
            r as int == self.high_offset(address),
    {
        address as usize - ROM_BANK_SIZE + self.rom_bank as usize * ROM_BANK_SIZE
    }

    pub fn ram_address(&self, address: u16) -> (r: usize)
        ensures
            r as int == self.ram_offset(address),
    {
        match self.bank_mode {
            BankMode::Rom => address as usize,
            BankMode::Ram => address as usize + self.ram_bank as usize * RAM_BANK_SIZE,
        }
    }
}

impl MapperOps for Mbc1 {
    open spec fn wf(&self) -> bool {
        true
    }

    open spec fn rom_offset(&self, address: u16) -> int {
        if address < HIGH_BANK_START {
            self.low_offset(address)
        } else {
            self.high_offset(address)
        }
    }

    /// Writes below 0x2000 switch the RAM on where the low nibble is
    /// ten; up to 0x3FFF they set the low five bank bits; up to 0x5FFF
    /// the two upper bits, which are the RAM bank too; up to 0x7FFF
    /// the mode.
    open spec fn after_write_rom(self, address: u16, value: u8) -> Self {
        if address < 0x2000 {
            Mbc1 { ram_enabled: value % 16 == 0xA, ..self }
        } else if address < 0x4000 {
            Mbc1 {
                rom_bank: ((self.rom_bank / 32) * 32 + mbc1_low_bits(
                    value,
                    self.rom_bank_count,
                    self.rom_bank_mask,
                )) as u8,
                ..self
            }
        } else if address < 0x6000 {
            Mbc1 {
                ram_bank: value % 4,
                rom_bank: (self.rom_bank % 32 + (value % 4) * 32) as u8,
                ..self
            }
        } else if address < 0x8000 {
            Mbc1 { bank_mode: if value % 2 == 0 { BankMode::Rom } else { BankMode::Ram }, ..self }
        } else {
            self
        }
    }

    open spec fn ram_value(&self, ram: Seq<u8>, address: u16) -> u8 {
        if self.ram_open() {
            byte_at(ram, self.ram_offset(address))
        } else {
            0xFF
        }
    }

    open spec fn ram_after_write(&self, ram: Seq<u8>, address: u16, value: u8) -> Seq<u8> {
        if self.ram_open() {
            with_byte_at(ram, self.ram_offset(address), value)
        } else {
            ram
        }
    }

    open spec fn after_write_ram(self, address: u16, value: u8) -> Self {
        self
    }

    open spec fn after_tick(self) -> Self {
        self
    }

    open spec fn battery(&self) -> bool {
        self.has_battery
    }

    fn read_rom(&self, rom: &[u8], address: u16) -> (r: u8) {
        if address < HIGH_BANK_START {
            read_image(rom, self.rom_address_low(address))
        } else {
            read_image(rom, self.rom_address_high(address))
        }
    }

    fn write_rom(&mut self, address: u16, value: u8) {
        if address < 0x2000 {
            self.ram_enabled = value % 16 == 0xA;
        } else if address < 0x4000 {
            let mut lower: u8 = value % 32;
            if lower as u16 >= self.rom_bank_count {
                proof {
                    crate::gameboy::bits::lemma_and_is_smaller(lower, self.rom_bank_mask);
                }
                lower = lower & self.rom_bank_mask;
            }
            if lower == 0 {
                lower = 1;
            }
            self.rom_bank = (self.rom_bank / 32) * 32 + lower;
        } else if address < 0x6000 {
            let bits: u8 = value % 4;
            self.ram_bank = bits;
            self.rom_bank = self.rom_bank % 32 + bits * 32;
        } else if address < 0x8000 {
            self.bank_mode = if value % 2 == 0 { BankMode::Rom } else { BankMode::Ram };
        }
    }

    fn read_ram(&self, ram: &[u8], address: u16) -> (r: u8) {
        if self.has_ram && self.ram_enabled {
            read_image(ram, self.ram_address(address))
        } else {
            0xFF
        }
    }

    fn write_ram(&mut self, ram: &mut Vec<u8>, address: u16, value: u8) {
        if self.has_ram && self.ram_enabled {
            write_image(ram, self.ram_address(address), value);
        }
    }

    fn tick(&mut self) {
    }

    fn has_battery(&self) -> (r: bool) {
        self.has_battery
    }
}

impl Mbc1 {
    /// A write of a bank number from 1 to 31 that lies below the bank
    /// count selects that number in the low five bank bits, and a write
    /// of zero selects one; the upper two bits stay. Fresh from power
    /// on the bank of the high window is then that very number.
    pub proof fn lemma_bank_select(self, address: u16, value: u8)
        requires
            0x2000 <= address < 0x4000,
            value < 32,
            value < self.rom_bank_count,
        ensures
            self.after_write_rom(address, value).rom_bank % 32 == (if value == 0 { 1 } else { value }),
            self.after_write_rom(address, value).rom_bank / 32 == self.rom_bank / 32,
            self.rom_bank < 32 ==> self.after_write_rom(address, value).rom_offset(
                HIGH_BANK_START,
            ) == (if value == 0 { 1int } else { value as int }) * ROM_BANK_SIZE,
    {
    }

    /// The zero adjustment looks at the low five bits only: with the
    /// upper bits at one, a write whose low five bits are zero selects
    /// bank 0x21, not bank 0x20.
    pub proof fn lemma_bank_zero_quirk(self, value: u8)
        requires
            self.rom_bank_count >= 64,
            self.rom_bank / 32 == 1,
            value % 32 == 0,
        ensures
            self.after_write_rom(0x2000, value).rom_bank == 0x21,
    {
    }
}

} // verus!
