//! A cartridge without a mapper: 32 KiB of ROM and nothing else.

use super::{byte_at, read_image, MapperOps};
use vstd::prelude::*;

verus! {

#[derive(Clone, Copy, Debug, PartialEq, Eq)]
pub struct RomOnly;

impl MapperOps for RomOnly {
    open spec fn wf(&self) -> bool {
        true
    }

    open spec fn rom_offset(&self, address: u16) -> int {
        address as int
    }

    open spec fn after_write_rom(self, address: u16, value: u8) -> Self {
        self
    }

    open spec fn ram_value(&self, ram: Seq<u8>, address: u16) -> u8 {
        0xFF
    }

    open spec fn ram_after_write(&self, ram: Seq<u8>, address: u16, value: u8) -> Seq<u8> {
        ram
    }

    open spec fn after_write_ram(self, address: u16, value: u8) -> Self {
        self
    }

    open spec fn after_tick(self) -> Self {
        self
    }

    open spec fn battery(&self) -> bool {
        false
    }

    fn read_rom(&self, rom: &[u8], address: u16) -> (r: u8) {
        read_image(rom, address as usize)
    }

    fn write_rom(&mut self, address: u16, value: u8) {
    }

    fn read_ram(&self, ram: &[u8], address: u16) -> (r: u8) {
        0xFF
    }

    fn write_ram(&mut self, ram: &mut Vec<u8>, address: u16, value: u8) {
    }

    fn tick(&mut self) {
    }

    fn has_battery(&self) -> (r: bool) {
        false
    }
}

} // verus!
