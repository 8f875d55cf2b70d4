//! The fifth mapper: 512 ROM banks and up to sixteen RAM banks.

use super::{
    byte_at, read_image, with_byte_at, write_image, MapperOps, HIGH_BANK_START, RAM_BANK_SIZE,
    ROM_BANK_SIZE,
};
use vstd::prelude::*;

verus! {

#[derive(Clone, Copy, Debug, PartialEq, Eq)]
pub struct Mbc5 {
    pub has_rumble: bool,
    pub has_ram: bool,
    pub has_battery: bool,
    pub rom_bank: u16,
    pub ram_bank: u8,
    pub ram_bank_mask: u8,
    pub ram_enabled: bool,
}

impl Mbc5 {
    pub open spec fn fresh(has_rumble: bool, has_ram: bool, has_battery: bool) -> Self {
        Mbc5 {
            has_rumble,
            has_ram,
            has_battery,
            rom_bank: 1,
            ram_bank: 0,
            ram_bank_mask: if has_rumble { 0b0111 } else { 0b1111 },
            ram_enabled: false,
        }
    }

    /// Offset in the ROM image of `address` in the high window.
    pub open spec fn high_offset(self, address: u16) -> int {
        address - ROM_BANK_SIZE + self.rom_bank * ROM_BANK_SIZE
    }

    pub open spec fn ram_offset(self, address: u16) -> int {
        address + self.ram_bank * RAM_BANK_SIZE
    }

    pub open spec fn ram_open(self) -> bool {
        self.has_ram && self.ram_enabled
    }

    pub fn new(has_rumble: bool, has_ram: bool, has_battery: bool) -> (r: Self)
        ensures
            r == Self::fresh(has_rumble, has_ram, has_battery),
            r.wf(),
    {
        Mbc5 {
            has_rumble,
            has_ram,
            has_battery,
            rom_bank: 1,
            ram_bank: 0,
            ram_bank_mask: if has_rumble { 0b0111 } else { 0b1111 },
            ram_enabled: false,
        }
    }
}

impl MapperOps for Mbc5 {
    open spec fn wf(&self) -> bool {
        self.rom_bank < 512 && (self.ram_bank_mask == 7 || self.ram_bank_mask == 15)
    }

    open spec fn rom_offset(&self, address: u16) -> int {
        if address < HIGH_BANK_START {
            address as int
        } else {
            self.high_offset(address)
        }
    }

    /// Writes below 0x2000 switch the RAM on where the low nibble is
    /// ten; up to 0x2FFF they set the low eight bank bits; up to 0x3FFF
    /// the ninth; up to 0x5FFF the RAM bank, within the mask.
    open spec fn after_write_rom(self, address: u16, value: u8) -> Self {
        if address < 0x2000 {
            Mbc5 { ram_enabled: value % 16 == 0xA, ..self }
        } else if address < 0x3000 {
            Mbc5 { rom_bank: ((self.rom_bank / 256) * 256 + value) as u16, ..self }
        } else if address < 0x4000 {
            Mbc5 { rom_bank: (self.rom_bank % 256 + (value % 2) * 256) as u16, ..self }
        } else if address < 0x6000 {
            Mbc5 { ram_bank: (value as int % (self.ram_bank_mask + 1)) as u8, ..self }
        } else {
            self
        }
    }

    open spec fn ram_value(&self, ram: Seq<u8>, address: u16) -> u8 {
        if self.ram_open() {
            byte_at(ram, self.ram_offset(address))
        } else {
            0xFF
        }
    }

    open spec fn ram_after_write(&self, ram: Seq<u8>, address: u16, value: u8) -> Seq<u8> {
        if self.ram_open() {
            with_byte_at(ram, self.ram_offset(address), value)
        } else {
            ram
        }
    }

    open spec fn after_write_ram(self, address: u16, value: u8) -> Self {
        self
    }

    open spec fn after_tick(self) -> Self {
        self
    }

    open spec fn battery(&self) -> bool {
        self.has_battery
    }

    fn read_rom(&self, rom: &[u8], address: u16) -> (r: u8) {
        if address < HIGH_BANK_START {
            read_image(rom, address as usize)
        } else {
            read_image(
                rom,
                address as usize - ROM_BANK_SIZE + self.rom_bank as usize * ROM_BANK_SIZE,
            )
        }
    }

    fn write_rom(&mut self, address: u16, value: u8) {
        if address < 0x2000 {
            self.ram_enabled = value % 16 == 0xA;
        } else if address < 0x3000 {
            self.rom_bank = (self.rom_bank / 256) * 256 + value as u16;
        } else if address < 0x4000 {
            self.rom_bank = self.rom_bank % 256 + (value % 2) as u16 * 256;
        } else if address < 0x6000 {
            self.ram_bank = if self.ram_bank_mask == 7 { value % 8 } else { value % 16 };
        }
    }

    fn read_ram(&self, ram: &[u8], address: u16) -> (r: u8) {
        if self.has_ram && self.ram_enabled {
            read_image(ram, address as usize + self.ram_bank as usize * RAM_BANK_SIZE)
        } else {
            0xFF
        }
    }

    fn write_ram(&mut self, ram: &mut Vec<u8>, address: u16, value: u8) {
        if self.has_ram && self.ram_enabled {
            write_image(ram, address as usize + self.ram_bank as usize * RAM_BANK_SIZE, value);
        }
    }

    fn tick(&mut self) {
    }

    fn has_battery(&self) -> (r: bool) {
        self.has_battery
    }
}

} // verus!
