//! The second mapper: sixteen ROM banks and 512 half-bytes of RAM
//! inside the mapper.

use super::{
    byte_at, read_image, with_byte_at, write_image, MapperOps, HIGH_BANK_START, ROM_BANK_SIZE,
};
use vstd::prelude::*;

verus! {

/// Size of the built-in RAM.
pub const MBC2_RAM_SIZE: usize = 0x200;

#[derive(Clone, Copy, Debug, PartialEq, Eq)]
pub struct Mbc2 {
    pub has_battery: bool,
    pub ram_enabled: bool,
    pub rom_bank_count: u16,
    pub rom_bank: u8,
}

impl Mbc2 {
    pub open spec fn fresh(rom_bank_count: u16, has_battery: bool) -> Self {
        Mbc2 { has_battery, ram_enabled: false, rom_bank_count, rom_bank: 1 }
    }

    /// Offset in the ROM image of `address` in the high window.
    pub open spec fn high_offset(self, address: u16) -> int {
        address - ROM_BANK_SIZE + self.rom_bank * ROM_BANK_SIZE
    }

    /// Offset in RAM of `address`: the RAM repeats every 512 bytes.
    pub open spec fn ram_offset(self, address: u16) -> int {
        address as int % 512
    }

    pub fn new(rom_bank_count: u16, has_battery: bool) -> (r: Self)
        ensures
            r == Self::fresh(rom_bank_count, has_battery),
    {
        Mbc2 { has_battery, ram_enabled: false, rom_bank_count, rom_bank: 1 }
    }

    pub fn rom_address_high(&self, address: u16) -> (r: usize)
        requires
            address >= HIGH_BANK_START,
        ensures
            r as int == self.high_offset(address),
    {
        address as usize - ROM_BANK_SIZE + self.rom_bank as usize * ROM_BANK_SIZE
    }

    pub fn ram_address(&self, address: u16) -> (r: usize)
        ensures
            r as int == self.ram_offset(address),
    {
        (address % 512) as usize
    }
}

impl MapperOps for Mbc2 {
    open spec fn wf(&self) -> bool {
        true
    }

    open spec fn rom_offset(&self, address: u16) -> int {
        if address < HIGH_BANK_START {
            address as int
        } else {
            self.high_offset(address)
        }
    }

    /// Writes below 0x4000 go by bit 8 of the address: where it is
    /// clear they switch the RAM on where the low nibble is ten; where
    /// it is set they select the bank by the low nibble, zero meaning
    /// one.
    open spec fn after_write_rom(self, address: u16, value: u8) -> Self {
        if address >= HIGH_BANK_START {
            self
        } else if (address / 256) % 2 == 0 {
            Mbc2 { ram_enabled: value % 16 == 0xA, ..self }
        } else {
            Mbc2 { rom_bank: if value % 16 == 0 { 1 } else { value % 16 }, ..self }
        }
    }

    /// Only the low nibble of a RAM byte exists; the high one reads as
    /// ones.
    open spec fn ram_value(&self, ram: Seq<u8>, address: u16) -> u8 {
        if self.ram_enabled && self.ram_offset(address) < ram.len() {
            (0xF0 + ram[self.ram_offset(address)] % 16) as u8
        } else {
            0xFF
        }
    }

    open spec fn ram_after_write(&self, ram: Seq<u8>, address: u16, value: u8) -> Seq<u8> {
        if self.ram_enabled {
            with_byte_at(ram, self.ram_offset(address), (0xF0 + value % 16) as u8)
        } else {
            ram
        }
    }

    open spec fn after_write_ram(self, address: u16, value: u8) -> Self {
        self
    }

    open spec fn after_tick(self) -> Self {
        self
    }

    open spec fn battery(&self) -> bool {
        self.has_battery
    }

    fn read_rom(&self, rom: &[u8], address: u16) -> (r: u8) {
        if address < HIGH_BANK_START {
            read_image(rom, address as usize)
        } else {
            read_image(rom, self.rom_address_high(address))
        }
    }

    fn write_rom(&mut self, address: u16, value: u8) {
        if address < HIGH_BANK_START {
            if (address / 256) % 2 == 0 {
                self.ram_enabled = value % 16 == 0xA;
            } else {
                self.rom_bank = if value % 16 == 0 { 1 } else { value % 16 };
            }
        }
    }

    fn read_ram(&self, ram: &[u8], address: u16) -> (r: u8) {
        let offset = self.ram_address(address);
        if self.ram_enabled && offset < ram.len() {
            0xF0 + ram[offset] % 16
        } else {
            0xFF
        }
    }

    fn write_ram(&mut self, ram: &mut Vec<u8>, address: u16, value: u8) {
        if self.ram_enabled {
            write_image(ram, self.ram_address(address), 0xF0 + value % 16);
        }
    }

    fn tick(&mut self) {
    }

    fn has_battery(&self) -> (r: bool) {
        self.has_battery
    }
}

} // verus!
