//! The cartridge: its header, its mapper, its ROM and RAM.

pub mod mbc1;
pub mod mbc2;
pub mod mbc3;
pub mod mbc5;
pub mod rom_only;

use self::mbc1::Mbc1;
use self::mbc2::{Mbc2, MBC2_RAM_SIZE};
use self::mbc3::{Mbc3, RTC_DATA_SIZE};
use self::mbc5::Mbc5;
use self::rom_only::RomOnly;
use crate::error::{Error, HeaderFault};
use vstd::arithmetic::power2::{lemma2_to64, pow2};
use vstd::prelude::*;
use vstd::slice::slice_subrange;
use vstd::utf8::{decode_utf8, valid_utf8};

verus! {

pub const ROM_BANK_SIZE: usize = 0x4000;

pub const RAM_BANK_SIZE: usize = 0x2000;

/// First offset of the window onto the switchable ROM bank.
pub const HIGH_BANK_START: u16 = 0x4000;

/// The byte at `offset` of a memory image; all ones past its end.
pub open spec fn byte_at(image: Seq<u8>, offset: int) -> u8 {
    if 0 <= offset < image.len() {
        image[offset]
    } else {
        0xFF
    }
}

/// The image with the byte at `offset` replaced; unchanged where the
/// offset lies past its end.
pub open spec fn with_byte_at(image: Seq<u8>, offset: int, value: u8) -> Seq<u8> {
    if 0 <= offset < image.len() {
        image.update(offset, value)
    } else {
        image
    }
}

/// Reads the byte at `offset` of an image.
pub fn read_image(image: &[u8], offset: usize) -> (r: u8)
    ensures
        r == byte_at(image@, offset as int),
{
    if offset < image.len() {
        image[offset]
    } else {
        0xFF
    }
}

/// Stores a byte at `offset` of an image.
pub fn write_image(image: &mut Vec<u8>, offset: usize, value: u8)
    ensures
        final(image)@ == with_byte_at(old(image)@, offset as int, value),
{
    if offset < image.len() {
        image[offset] = value;
    }
}

/// What every mapper offers: reads from ROM and RAM through the bank
/// registers, writes to those registers and to RAM, a clock tick, and
/// whether a battery keeps the RAM.
///
/// ROM addresses count from the start of the ROM area, RAM addresses
/// from the start of the external RAM area.
pub trait MapperOps: Sized {
    /// What holds of a mapper's registers.
    spec fn wf(&self) -> bool;

    /// The byte of the ROM image that a read at `address` reaches.
    spec fn rom_offset(&self, address: u16) -> int;

    /// The mapper after a write to the ROM area.
    spec fn after_write_rom(self, address: u16, value: u8) -> Self;

    /// What a read of the RAM area returns.
    spec fn ram_value(&self, ram: Seq<u8>, address: u16) -> u8;

    /// The RAM after a write to the RAM area.
    spec fn ram_after_write(&self, ram: Seq<u8>, address: u16, value: u8) -> Seq<u8>;

    /// The mapper after a write to the RAM area.
    spec fn after_write_ram(self, address: u16, value: u8) -> Self;

    /// The mapper one machine cycle later.
    spec fn after_tick(self) -> Self;

    /// Whether a battery keeps the RAM.
    spec fn battery(&self) -> bool;

    fn read_rom(&self, rom: &[u8], address: u16) -> (r: u8)
        requires
            self.wf(),
        ensures
            r == byte_at(rom@, self.rom_offset(address)),
    ;

    fn write_rom(&mut self, address: u16, value: u8)
        requires
            old(self).wf(),
        ensures
            *final(self) == old(self).after_write_rom(address, value),
            final(self).wf(),
    ;

    fn read_ram(&self, ram: &[u8], address: u16) -> (r: u8)
        requires
            self.wf(),
        ensures
            r == self.ram_value(ram@, address),
    ;

    fn write_ram(&mut self, ram: &mut Vec<u8>, address: u16, value: u8)
        requires
            old(self).wf(),
        ensures
            *final(self) == old(self).after_write_ram(address, value),
            final(ram)@ == old(self).ram_after_write(old(ram)@, address, value),
            final(self).wf(),
    ;

    fn tick(&mut self)
        requires
            old(self).wf(),
        ensures
            *final(self) == old(self).after_tick(),
            final(self).wf(),
    ;

    fn has_battery(&self) -> (r: bool)
        ensures
            r == self.battery(),
    ;
}


/// The closed set of mappers.
#[derive(Clone, Copy, Debug, PartialEq, Eq)]
pub enum Mapper {
    RomOnly(RomOnly),
    Mbc1(Mbc1),
    Mbc2(Mbc2),
    Mbc3(Mbc3),
    Mbc5(Mbc5),
}

impl MapperOps for Mapper {
    open spec fn wf(&self) -> bool {
        match self {
            Mapper::RomOnly(m) => m.wf(),
            Mapper::Mbc1(m) => m.wf(),
            Mapper::Mbc2(m) => m.wf(),
            Mapper::Mbc3(m) => m.wf(),
            Mapper::Mbc5(m) => m.wf(),
        }
    }

    open spec fn rom_offset(&self, address: u16) -> int {
        match self {
            Mapper::RomOnly(m) => m.rom_offset(address),
            Mapper::Mbc1(m) => m.rom_offset(address),
            Mapper::Mbc2(m) => m.rom_offset(address),
            Mapper::Mbc3(m) => m.rom_offset(address),
            Mapper::Mbc5(m) => m.rom_offset(address),
        }
    }

    open spec fn after_write_rom(self, address: u16, value: u8) -> Self {
        match self {
            Mapper::RomOnly(m) => Mapper::RomOnly(m.after_write_rom(address, value)),
            Mapper::Mbc1(m) => Mapper::Mbc1(m.after_write_rom(address, value)),
            Mapper::Mbc2(m) => Mapper::Mbc2(m.after_write_rom(address, value)),
            Mapper::Mbc3(m) => Mapper::Mbc3(m.after_write_rom(address, value)),
            Mapper::Mbc5(m) => Mapper::Mbc5(m.after_write_rom(address, value)),
        }
    }

    open spec fn ram_value(&self, ram: Seq<u8>, address: u16) -> u8 {
        match self {
            Mapper::RomOnly(m) => m.ram_value(ram, address),
            Mapper::Mbc1(m) => m.ram_value(ram, address),
            Mapper::Mbc2(m) => m.ram_value(ram, address),
            Mapper::Mbc3(m) => m.ram_value(ram, address),
            Mapper::Mbc5(m) => m.ram_value(ram, address),
        }
    }

    open spec fn ram_after_write(&self, ram: Seq<u8>, address: u16, value: u8) -> Seq<u8> {
        match self {
            Mapper::RomOnly(m) => m.ram_after_write(ram, address, value),
            Mapper::Mbc1(m) => m.ram_after_write(ram, address, value),
            Mapper::Mbc2(m) => m.ram_after_write(ram, address, value),
            Mapper::Mbc3(m) => m.ram_after_write(ram, address, value),
            Mapper::Mbc5(m) => m.ram_after_write(ram, address, value),
        }
    }

    open spec fn after_write_ram(self, address: u16, value: u8) -> Self {
        match self {
            Mapper::RomOnly(m) => Mapper::RomOnly(m.after_write_ram(address, value)),
            Mapper::Mbc1(m) => Mapper::Mbc1(m.after_write_ram(address, value)),
            Mapper::Mbc2(m) => Mapper::Mbc2(m.after_write_ram(address, value)),
            Mapper::Mbc3(m) => Mapper::Mbc3(m.after_write_ram(address, value)),
            Mapper::Mbc5(m) => Mapper::Mbc5(m.after_write_ram(address, value)),
        }
    }

    open spec fn after_tick(self) -> Self {
        match self {
            Mapper::RomOnly(m) => Mapper::RomOnly(m.after_tick()),
            Mapper::Mbc1(m) => Mapper::Mbc1(m.after_tick()),
            Mapper::Mbc2(m) => Mapper::Mbc2(m.after_tick()),
            Mapper::Mbc3(m) => Mapper::Mbc3(m.after_tick()),
            Mapper::Mbc5(m) => Mapper::Mbc5(m.after_tick()),
        }
    }

    open spec fn battery(&self) -> bool {
        match self {
            Mapper::RomOnly(m) => m.battery(),
            Mapper::Mbc1(m) => m.battery(),
            Mapper::Mbc2(m) => m.battery(),
            Mapper::Mbc3(m) => m.battery(),
            Mapper::Mbc5(m) => m.battery(),
        }
    }

    fn read_rom(&self, rom: &[u8], address: u16) -> (r: u8) {
        match self {
            Mapper::RomOnly(m) => m.read_rom(rom, address),
            Mapper::Mbc1(m) => m.read_rom(rom, address),
            Mapper::Mbc2(m) => m.read_rom(rom, address),
            Mapper::Mbc3(m) => m.read_rom(rom, address),
            Mapper::Mbc5(m) => m.read_rom(rom, address),
        }
    }

    fn write_rom(&mut self, address: u16, value: u8) {
        match *self {
            Mapper::RomOnly(mut m) => {
                m.write_rom(address, value);
                *self = Mapper::RomOnly(m);
            },
            Mapper::Mbc1(mut m) => {
                m.write_rom(address, value);
                *self = Mapper::Mbc1(m);
            },
            Mapper::Mbc2(mut m) => {
                m.write_rom(address, value);
                *self = Mapper::Mbc2(m);
            },
            Mapper::Mbc3(mut m) => {
                m.write_rom(address, value);
                *self = Mapper::Mbc3(m);
            },
            Mapper::Mbc5(mut m) => {
                m.write_rom(address, value);
                *self = Mapper::Mbc5(m);
            },
        }
    }

    fn read_ram(&self, ram: &[u8], address: u16) -> (r: u8) {
        match self {
            Mapper::RomOnly(m) => m.read_ram(ram, address),
            Mapper::Mbc1(m) => m.read_ram(ram, address),
            Mapper::Mbc2(m) => m.read_ram(ram, address),
            Mapper::Mbc3(m) => m.read_ram(ram, address),
            Mapper::Mbc5(m) => m.read_ram(ram, address),
        }
    }

    fn write_ram(&mut self, ram: &mut Vec<u8>, address: u16, value: u8) {
        match *self {
            Mapper::RomOnly(mut m) => {
                m.write_ram(ram, address, value);
                *self = Mapper::RomOnly(m);
            },
            Mapper::Mbc1(mut m) => {
                m.write_ram(ram, address, value);
                *self = Mapper::Mbc1(m);
            },
            Mapper::Mbc2(mut m) => {
                m.write_ram(ram, address, value);
                *self = Mapper::Mbc2(m);
            },
            Mapper::Mbc3(mut m) => {
                m.write_ram(ram, address, value);
                *self = Mapper::Mbc3(m);
            },
            Mapper::Mbc5(mut m) => {
                m.write_ram(ram, address, value);
                *self = Mapper::Mbc5(m);
            },
        }
    }

    fn tick(&mut self) {
        match *self {
            Mapper::Mbc3(mut m) => {
                m.tick();
                *self = Mapper::Mbc3(m);
            },
            _ => {},
        }
    }

    fn has_battery(&self) -> (r: bool) {
        match self {
            Mapper::RomOnly(m) => m.has_battery(),
            Mapper::Mbc1(m) => m.has_battery(),
            Mapper::Mbc2(m) => m.has_battery(),
            Mapper::Mbc3(m) => m.has_battery(),
            Mapper::Mbc5(m) => m.has_battery(),
        }
    }
}

impl Mapper {
    /// The mapper that a cartridge type byte names, fresh from power
    /// on, if the type is supported.
    pub open spec fn of_type(id: u8, rom_bank_count: u16) -> Option<Mapper> {
        if id == 0x00 {
            Some(Mapper::RomOnly(RomOnly))
        } else if id == 0x01 {
            Some(Mapper::Mbc1(Mbc1::fresh(rom_bank_count, false, false)))
        } else if id == 0x02 {
            Some(Mapper::Mbc1(Mbc1::fresh(rom_bank_count, true, false)))
        } else if id == 0x03 {
            Some(Mapper::Mbc1(Mbc1::fresh(rom_bank_count, true, true)))
        } else if id == 0x05 {
            Some(Mapper::Mbc2(Mbc2::fresh(rom_bank_count, false)))
        } else if id == 0x06 {
            Some(Mapper::Mbc2(Mbc2::fresh(rom_bank_count, true)))
        } else if id == 0x0F {
            Some(Mapper::Mbc3(Mbc3::fresh(true, false, true)))
        } else if id == 0x10 {
            Some(Mapper::Mbc3(Mbc3::fresh(true, true, true)))
        } else if id == 0x11 {
            Some(Mapper::Mbc3(Mbc3::fresh(false, false, false)))
        } else if id == 0x12 {
            Some(Mapper::Mbc3(Mbc3::fresh(false, true, false)))
        } else if id == 0x13 {
            Some(Mapper::Mbc3(Mbc3::fresh(false, true, true)))
        } else if id == 0x19 {
            Some(Mapper::Mbc5(Mbc5::fresh(false, false, false)))
        } else if id == 0x1A {
            Some(Mapper::Mbc5(Mbc5::fresh(false, true, false)))
        } else if id == 0x1B {
            Some(Mapper::Mbc5(Mbc5::fresh(false, true, true)))
        } else if id == 0x1C {
            Some(Mapper::Mbc5(Mbc5::fresh(true, false, false)))
        } else if id == 0x1D {
            Some(Mapper::Mbc5(Mbc5::fresh(true, true, false)))
        } else if id == 0x1E {
            Some(Mapper::Mbc5(Mbc5::fresh(true, true, true)))
        } else {
            None
        }
    }

    pub fn from_type(id: u8, rom_bank_count: u16) -> (r: Option<Mapper>)
        ensures
            r == Self::of_type(id, rom_bank_count),
            r matches Some(m) ==> m.wf(),
    {
        match id {
            0x00 => Some(Mapper::RomOnly(RomOnly)),
            0x01 => Some(Mapper::Mbc1(Mbc1::new(rom_bank_count, false, false))),
            0x02 => Some(Mapper::Mbc1(Mbc1::new(rom_bank_count, true, false))),
            0x03 => Some(Mapper::Mbc1(Mbc1::new(rom_bank_count, true, true))),
            0x05 => Some(Mapper::Mbc2(Mbc2::new(rom_bank_count, false))),
            0x06 => Some(Mapper::Mbc2(Mbc2::new(rom_bank_count, true))),
            0x0F => Some(Mapper::Mbc3(Mbc3::new(true, false, true))),
            0x10 => Some(Mapper::Mbc3(Mbc3::new(true, true, true))),
            0x11 => Some(Mapper::Mbc3(Mbc3::new(false, false, false))),
            0x12 => Some(Mapper::Mbc3(Mbc3::new(false, true, false))),
            0x13 => Some(Mapper::Mbc3(Mbc3::new(false, true, true))),
            0x19 => Some(Mapper::Mbc5(Mbc5::new(false, false, false))),
            0x1A => Some(Mapper::Mbc5(Mbc5::new(false, true, false))),
            0x1B => Some(Mapper::Mbc5(Mbc5::new(false, true, true))),
            0x1C => Some(Mapper::Mbc5(Mbc5::new(true, false, false))),
            0x1D => Some(Mapper::Mbc5(Mbc5::new(true, true, false))),
            0x1E => Some(Mapper::Mbc5(Mbc5::new(true, true, true))),
            _ => None,
        }
    }

    /// Where in RAM a byte of the RAM window lives, if the window
    /// shows RAM there: the mapper has RAM, it is switched on and
    /// selected, and the place lies within `ram_len` bytes.
    pub open spec fn ram_cell(self, address: u16, ram_len: nat) -> Option<int> {
        let offset = match self {
            Mapper::RomOnly(m) => None,
            Mapper::Mbc1(m) => if m.ram_open() { Some(m.ram_offset(address)) } else { None },
            Mapper::Mbc2(m) => if m.ram_enabled { Some(m.ram_offset(address)) } else { None },
            Mapper::Mbc3(m) => if m.ram_selected() { Some(m.ram_offset(address)) } else { None },
            Mapper::Mbc5(m) => if m.ram_open() { Some(m.ram_offset(address)) } else { None },
        };
        if offset is Some && offset->0 < ram_len {
            offset
        } else {
            None
        }
    }

    /// What a RAM byte reads as after `value` was stored in it: the
    /// value, or with the second mapper its low nibble under a high
    /// nibble of ones.
    pub open spec fn stored(self, value: u8) -> u8 {
        if self is Mbc2 {
            (0xF0 + value % 16) as u8
        } else {
            value
        }
    }

    /// A byte written to RAM is read back, as far as the mapper keeps
    /// it: after RAM was switched on by a write of 0x0A to address
    /// zero, a write to a place of the RAM window that shows RAM
    /// followed by a read of that place returns what was stored.
    pub proof fn lemma_ram_write_then_read(self, ram: Seq<u8>, address: u16, value: u8)
        requires
            self.after_write_rom(0x0000, 0x0A).ram_cell(address, ram.len()) is Some,
        ensures
            ({
                let on = self.after_write_rom(0x0000, 0x0A);
                on.after_write_ram(address, value).ram_value(
                    on.ram_after_write(ram, address, value),
                    address,
                ) == self.stored(value)
            }),
            !(self is Mbc2) ==> self.stored(value) == value,
    {
    }
}


/// Length of a boot image.
pub const BOOTROM_SIZE: usize = 0x100;

/// One past the last byte of the header, which lies at 0x100 to
/// 0x14F: the least length of a ROM image whose header is all there.
pub const HEADER_END: usize = 0x150;

pub const TITLE_START: usize = 0x134;

pub const TITLE_MAX: usize = 16;

/// For which market a cartridge was made.
#[derive(Clone, Copy, Debug, PartialEq, Eq)]
pub enum Destination {
    Japanese,
    NonJapanese,
}

/// What the header of a ROM image says of the cartridge.
#[derive(Clone, Debug, PartialEq, Eq)]
pub struct Header {
    pub title: String,
    pub rom_size: u32,
    pub rom_bank_count: u32,
    pub ram_size: u32,
    pub ram_bank_count: u32,
    pub destination: Destination,
}

/// A header with its title as a sequence of characters.
pub struct HeaderView {
    pub title: Seq<char>,
    pub rom_size: u32,
    pub rom_bank_count: u32,
    pub ram_size: u32,
    pub ram_bank_count: u32,
    pub destination: Destination,
}

impl View for Header {
    type V = HeaderView;

    open spec fn view(&self) -> HeaderView {
        HeaderView {
            title: self.title@,
            rom_size: self.rom_size,
            rom_bank_count: self.rom_bank_count,
            ram_size: self.ram_size,
            ram_bank_count: self.ram_bank_count,
            destination: self.destination,
        }
    }
}

/// How many title bytes come before the first zero byte or the end of
/// the title field, counting from byte `from` of the field.
pub open spec fn title_len_from(rom: Seq<u8>, from: int) -> int
    decreases TITLE_MAX - from,
{
    if from < 0 || from >= TITLE_MAX || rom[TITLE_START + from] == 0 {
        from
    } else {
        title_len_from(rom, from + 1)
    }
}

/// The title bytes of a ROM image: those of the title field up to its
/// first zero byte.
pub open spec fn title_bytes(rom: Seq<u8>) -> Seq<u8> {
    rom.subrange(TITLE_START as int, TITLE_START + title_len_from(rom, 0))
}

/// The number of 8 KiB RAM banks that a RAM size byte names.
pub open spec fn ram_banks_of(code: u8) -> Option<u32> {
    if code == 0 {
        Some(0u32)
    } else if code == 2 {
        Some(1u32)
    } else if code == 3 {
        Some(4u32)
    } else if code == 4 {
        Some(16u32)
    } else if code == 5 {
        Some(8u32)
    } else {
        None
    }
}

/// Decodes a title. Wraps `String::from_utf8`: the bytes give a string
/// exactly where they are valid UTF-8, and then the string holds the
/// characters that they encode.
#[verifier::external_body]
fn decode_title(bytes: Vec<u8>) -> (r: Option<String>)
    ensures
        r is Some <==> valid_utf8(bytes@),
        r matches Some(title) ==> title@ == decode_utf8(bytes@),
{
    String::from_utf8(bytes).ok()
}

impl Header {
    /// The header and the fresh mapper that a ROM image describes, or
    /// why the image is refused. The image must hold the whole header,
    /// up to and with byte 0x14F; the title must be valid UTF-8; the ROM size byte
    /// `n` must be at most 8 and names `2^(n+1)` banks of 16 KiB; the
    /// RAM size byte must name a bank count; the cartridge type must
    /// be supported; the destination byte must be 0 or 1.
    pub open spec fn parsed(rom: Seq<u8>) -> Result<(HeaderView, Mapper), Error> {
        let rom_banks = pow2((rom[0x148] + 1) as nat) as u32;
        if rom.len() < HEADER_END {
            Err(Error::InvalidRomHeader(HeaderFault::TooShort))
        } else if !valid_utf8(title_bytes(rom)) {
            Err(Error::InvalidRomHeader(HeaderFault::Title))
        } else if rom[0x148] > 8 {
            Err(Error::InvalidRomHeader(HeaderFault::RomBankCount))
        } else if ram_banks_of(rom[0x149]) is None {
            Err(Error::InvalidRomHeader(HeaderFault::RamBankCount))
        } else if Mapper::of_type(rom[0x147], rom_banks as u16) is None {
            Err(Error::UnsupportedMapper(rom[0x147]))
        } else if rom[0x14A] > 1 {
            Err(Error::InvalidRomHeader(HeaderFault::Destination))
        } else {
            Ok(
                (
                    HeaderView {
                        title: decode_utf8(title_bytes(rom)),
                        rom_size: (ROM_BANK_SIZE * rom_banks) as u32,
                        rom_bank_count: rom_banks,
                        ram_size: (RAM_BANK_SIZE * ram_banks_of(rom[0x149])->0) as u32,
                        ram_bank_count: ram_banks_of(rom[0x149])->0,
                        destination: if rom[0x14A] == 0 {
                            Destination::Japanese
                        } else {
                            Destination::NonJapanese
                        },
                    },
                    Mapper::of_type(rom[0x147], rom_banks as u16)->0,
                ),
            )
        }
    }

    fn read_title(rom_bytes: &[u8]) -> (r: Vec<u8>)
        requires
            rom_bytes@.len() >= HEADER_END,
        ensures
            r@ == title_bytes(rom_bytes@),
    {
        let mut title: Vec<u8> = Vec::new();
        let mut i: usize = 0;
        while i < TITLE_MAX && rom_bytes[TITLE_START + i] != 0
            invariant
                i <= TITLE_MAX,
                rom_bytes@.len() >= HEADER_END,
                title_len_from(rom_bytes@, 0) == title_len_from(rom_bytes@, i as int),
                title@ == rom_bytes@.subrange(TITLE_START as int, TITLE_START + i),
            decreases TITLE_MAX - i,
        {
            title.push(rom_bytes[TITLE_START + i]);
            i += 1;
            assert(title@ =~= rom_bytes@.subrange(TITLE_START as int, TITLE_START + i));
        }
        title
    }

    fn rom_bank_count(code: u8) -> (r: u32)
        requires
            code <= 8,
        ensures
            r == pow2((code + 1) as nat),
            2 <= r <= 512,
    {
        proof {
            lemma2_to64();
        }
        match code {
            0 => 2,
            1 => 4,
            2 => 8,
            3 => 16,
            4 => 32,
            5 => 64,
            6 => 128,
            7 => 256,
            _ => 512,
        }
    }

    fn ram_bank_count(code: u8) -> (r: Option<u32>)
        ensures
            r == ram_banks_of(code),
    {
        match code {
            0 => Some(0),
            2 => Some(1),
            3 => Some(4),
            4 => Some(16),
            5 => Some(8),
            _ => None,
        }
    }

    /// Reads the header of a ROM image and makes the mapper that it
    /// names.
    pub fn parse(rom_bytes: &[u8]) -> (r: Result<(Header, Mapper), Error>)
        ensures
            r is Ok <==> Self::parsed(rom_bytes@) is Ok,
            r matches Ok(found) ==> Self::parsed(rom_bytes@) == Ok::<(HeaderView, Mapper), Error>(
                (found.0@, found.1),
            ) && found.1.wf(),
            r matches Err(e) ==> Self::parsed(rom_bytes@) == Err::<(HeaderView, Mapper), Error>(e),
    {
        if rom_bytes.len() < HEADER_END {
            return Err(Error::InvalidRomHeader(HeaderFault::TooShort));
        }
        let title = match decode_title(Self::read_title(rom_bytes)) {
            Some(title) => title,
            None => {
                return Err(Error::InvalidRomHeader(HeaderFault::Title));
            },
        };
        if rom_bytes[0x148] > 8 {
            return Err(Error::InvalidRomHeader(HeaderFault::RomBankCount));
        }
        let rom_bank_count = Self::rom_bank_count(rom_bytes[0x148]);
        let ram_bank_count = match Self::ram_bank_count(rom_bytes[0x149]) {
            Some(count) => count,
            None => {
                return Err(Error::InvalidRomHeader(HeaderFault::RamBankCount));
            },
        };
        let mapper = match Mapper::from_type(rom_bytes[0x147], rom_bank_count as u16) {
            Some(mapper) => mapper,
            None => {
                return Err(Error::UnsupportedMapper(rom_bytes[0x147]));
            },
        };
        let destination = match rom_bytes[0x14A] {
            0 => Destination::Japanese,
            1 => Destination::NonJapanese,
            _ => {
                return Err(Error::InvalidRomHeader(HeaderFault::Destination));
            },
        };
        Ok(
            (
                Header {
                    title,
                    rom_size: ROM_BANK_SIZE as u32 * rom_bank_count,
                    rom_bank_count,
                    ram_size: RAM_BANK_SIZE as u32 * ram_bank_count,
                    ram_bank_count,
                    destination,
                },
                mapper,
            ),
        )
    }
}


/// What a battery-backed cartridge keeps between runs.
#[derive(Clone, Debug, PartialEq, Eq)]
pub struct SaveData {
    /// The RAM, where the cartridge has any.
    pub ram: Option<Vec<u8>>,
    /// The clock data, where the mapper has a clock.
    pub rtc: Option<Vec<u8>>,
}

/// A cartridge in its slot, with the boot image that may shadow the
/// start of its ROM.
#[derive(Clone, Debug, PartialEq, Eq)]
pub struct Cartridge {
    pub header: Header,
    pub mapper: Mapper,
    pub bootrom: Option<Vec<u8>>,
    pub bootrom_enabled: bool,
    pub rom: Vec<u8>,
    pub ram: Vec<u8>,
}

/// The bytes of an optional image.
pub open spec fn bytes_of(image: Option<Vec<u8>>) -> Option<Seq<u8>> {
    match image {
        Some(image) => Some(image@),
        None => None,
    }
}

/// A cartridge with its memories as sequences of bytes.
pub struct CartridgeView {
    pub header: HeaderView,
    pub mapper: Mapper,
    pub bootrom: Option<Seq<u8>>,
    pub bootrom_enabled: bool,
    pub rom: Seq<u8>,
    pub ram: Seq<u8>,
}

impl View for Cartridge {
    type V = CartridgeView;

    open spec fn view(&self) -> CartridgeView {
        CartridgeView {
            header: self.header@,
            mapper: self.mapper,
            bootrom: bytes_of(self.bootrom),
            bootrom_enabled: self.bootrom_enabled,
            rom: self.rom@,
            ram: self.ram@,
        }
    }
}

impl CartridgeView {
    pub open spec fn wf(self) -> bool {
        &&& self.mapper.wf()
        &&& self.bootrom is Some ==> self.bootrom->0.len() == BOOTROM_SIZE
        &&& self.bootrom_enabled ==> self.bootrom is Some
    }

    /// What a read of the ROM area returns: a byte of the boot image
    /// while that shadows the first 256 bytes, else what the mapper
    /// shows.
    pub open spec fn rom_value(self, address: u16) -> u8 {
        if self.bootrom_enabled && address < BOOTROM_SIZE {
            self.bootrom->0[address as int]
        } else {
            byte_at(self.rom, self.mapper.rom_offset(address))
        }
    }

    /// The cartridge after a write to the ROM area, which reaches the
    /// mapper's registers.
    pub open spec fn after_write_rom(self, address: u16, value: u8) -> Self {
        CartridgeView { mapper: self.mapper.after_write_rom(address, value), ..self }
    }

    pub open spec fn ram_value(self, address: u16) -> u8 {
        self.mapper.ram_value(self.ram, address)
    }

    pub open spec fn after_write_ram(self, address: u16, value: u8) -> Self {
        CartridgeView {
            mapper: self.mapper.after_write_ram(address, value),
            ram: self.mapper.ram_after_write(self.ram, address, value),
            ..self
        }
    }

    pub open spec fn after_tick(self) -> Self {
        CartridgeView { mapper: self.mapper.after_tick(), ..self }
    }

    pub open spec fn without_bootrom(self) -> Self {
        CartridgeView { bootrom_enabled: false, ..self }
    }

    /// The RAM size of a cartridge: what the header says, or the 512
    /// bytes that the second mapper has built in.
    pub open spec fn ram_size_of(header: HeaderView, mapper: Mapper) -> nat {
        if mapper is Mbc2 {
            MBC2_RAM_SIZE as nat
        } else {
            header.ram_size as nat
        }
    }

    /// Whether the mapper has a clock.
    pub open spec fn has_clock(mapper: Mapper) -> bool {
        mapper matches Mapper::Mbc3(m) && m.has_rtc
    }

    /// The cartridge that a ROM image, an optional boot image and an
    /// optional save make at time `now`, or why they make none.
    ///
    /// A save needs a battery. It is the RAM, which must have the
    /// cartridge's RAM size, followed with a clock by 48 bytes of clock
    /// data, which may be left out; clock data for a mapper without a
    /// clock is refused. Without a save the RAM is zero. A boot image
    /// must have 256 bytes and starts out enabled.
    pub open spec fn built(
        rom: Seq<u8>,
        bootrom: Option<Seq<u8>>,
        save: Option<Seq<u8>>,
        now: u64,
    ) -> Result<CartridgeView, Error> {
        let parsed = Header::parsed(rom);
        if parsed is Err {
            Err(parsed->Err_0)
        } else {
            let header = parsed->Ok_0.0;
            let mapper = parsed->Ok_0.1;
            let ram_size = Self::ram_size_of(header, mapper);
            if save is Some && !mapper.battery() {
                Err(Error::SaveNotSupported)
            } else if save is Some && save->0.len() == ram_size + RTC_DATA_SIZE && !Self::has_clock(
                mapper,
            ) {
                Err(Error::InvalidRtcData)
            } else if save is Some && save->0.len() != ram_size && save->0.len() != ram_size
                + RTC_DATA_SIZE {
                Err(Error::InvalidSave)
            } else if bootrom is Some && bootrom->0.len() != BOOTROM_SIZE {
                Err(Error::InvalidBootRom)
            } else {
                Ok(
                    CartridgeView {
                        header,
                        mapper: if save is Some && save->0.len() == ram_size + RTC_DATA_SIZE {
                            Mapper::Mbc3(
                                mapper->Mbc3_0.with_rtc_data(
                                    save->0.subrange(ram_size as int, save->0.len() as int),
                                    now,
                                ),
                            )
                        } else {
                            mapper
                        },
                        bootrom,
                        bootrom_enabled: bootrom is Some,
                        rom,
                        ram: if save is Some {
                            save->0.subrange(0, ram_size as int)
                        } else {
                            Seq::new(ram_size, |i: int| 0u8)
                        },
                    },
                )
            }
        }
    }

    /// The RAM part of a save.
    pub open spec fn saved_ram(self) -> Option<Seq<u8>> {
        if self.mapper.battery() && self.ram.len() > 0 {
            Some(self.ram)
        } else {
            None
        }
    }

    /// The clock part of a save made at time `now`.
    pub open spec fn saved_rtc(self, now: u64) -> Option<Seq<u8>> {
        if self.mapper.battery() && Self::has_clock(self.mapper) {
            Some(self.mapper->Mbc3_0.rtc_bytes(now))
        } else {
            None
        }
    }

    /// A byte written to cartridge RAM is read back, as far as the
    /// mapper keeps it: after a write of 0x0A to address zero has
    /// switched the RAM on, a write to a place of the RAM window that
    /// shows RAM followed by a read of that place returns what was
    /// stored. That is the byte itself but with the second mapper,
    /// which keeps the low nibble only.
    pub proof fn lemma_ram_write_then_read(self, address: u16, value: u8)
        requires
            self.after_write_rom(0x0000, 0x0A).mapper.ram_cell(address, self.ram.len()) is Some,
        ensures
            self.after_write_rom(0x0000, 0x0A).after_write_ram(address, value).ram_value(address)
                == self.mapper.stored(value),
            !(self.mapper is Mbc2) ==> self.mapper.stored(value) == value,
    {
        self.mapper.lemma_ram_write_then_read(self.ram, address, value);
    }
}

impl Cartridge {
    pub open spec fn wf(&self) -> bool {
        self@.wf()
    }

    /// Builds the cartridge, taking `now` as the current time in
    /// seconds since 1970 where a saved clock is to be moved on.
    pub fn new_at(rom: Vec<u8>, bootrom: Option<Vec<u8>>, save: Option<Vec<u8>>, now: u64) -> (r:
        Result<Self, Error>)
        ensures
            ({
                let built = CartridgeView::built(
                    rom@,
                    bytes_of(bootrom),
                    bytes_of(save),
                    now,
                );
                &&& r is Ok <==> built is Ok
                &&& r matches Ok(cartridge) ==> built == Ok::<CartridgeView, Error>(cartridge@)
                    && cartridge.wf()
                &&& r matches Err(e) ==> built == Err::<CartridgeView, Error>(e)
            }),
    {
        let (header, mut mapper) = match Header::parse(rom.as_slice()) {
            Ok(found) => found,
            Err(e) => {
                return Err(e);
            },
        };
        let ram_size: usize = match mapper {
            Mapper::Mbc2(_) => MBC2_RAM_SIZE,
            _ => header.ram_size as usize,
        };
        let ram: Vec<u8> = match save {
            Some(mut data) => {
                if !mapper.has_battery() {
                    return Err(Error::SaveNotSupported);
                }
                if data.len() == ram_size + RTC_DATA_SIZE {
                    match mapper {
                        Mapper::Mbc3(mut clocked) => {
                            if !clocked.has_rtc() {
                                return Err(Error::InvalidRtcData);
                            }
                            let tail = slice_subrange(data.as_slice(), ram_size, data.len());
                            match clocked.set_rtc_data_at(tail, now) {
                                Ok(()) => {},
                                Err(e) => {
                                    return Err(e);
                                },
                            }
                            mapper = Mapper::Mbc3(clocked);
                        },
                        _ => {
                            return Err(Error::InvalidRtcData);
                        },
                    }
                    data.truncate(ram_size);
                } else if data.len() != ram_size {
                    return Err(Error::InvalidSave);
                }
                assert(data@ =~= save->0@.subrange(0, ram_size as int));
                data
            },
            None => {
                let zeroed = vec![0u8; ram_size];
                assert(zeroed@ =~= Seq::new(ram_size as nat, |i: int| 0u8));
                zeroed
            },
        };
        let bootrom_enabled = bootrom.is_some();
        if let Some(image) = &bootrom {
            if image.len() != BOOTROM_SIZE {
                return Err(Error::InvalidBootRom);
            }
        }
        Ok(Cartridge { header, mapper, bootrom, bootrom_enabled, rom, ram })
    }

    /// Builds the cartridge; a saved clock that was running is moved
    /// on to the system's time.
    pub fn new(rom: Vec<u8>, bootrom: Option<Vec<u8>>, save: Option<Vec<u8>>) -> (r: Result<
        Self,
        Error,
    >)
        ensures
            exists|now: u64|
                {
                    let built = #[trigger] CartridgeView::built(
                        rom@,
                        bytes_of(bootrom),
                        bytes_of(save),
                        now,
                    );
                    &&& r is Ok <==> built is Ok
                    &&& r matches Ok(cartridge) ==> built == Ok::<CartridgeView, Error>(cartridge@)
                        && cartridge.wf()
                    &&& r matches Err(e) ==> built == Err::<CartridgeView, Error>(e)
                },
    {
        let now = mbc3::system_time();
        Self::new_at(rom, bootrom, save, now)
    }

    pub fn tick(&mut self)
        requires
            old(self).wf(),
        ensures
            final(self)@ == old(self)@.after_tick(),
            final(self).wf(),
    {
        let mut mapper = self.mapper;
        mapper.tick();
        self.mapper = mapper;
    }

    /// Switches the boot image off for good.
    pub fn disable_bootrom(&mut self)
        requires
            old(self).wf(),
        ensures
            final(self)@ == old(self)@.without_bootrom(),
            final(self).wf(),
    {
        self.bootrom_enabled = false;
    }

    pub fn read_rom(&self, address: u16) -> (r: u8)
        requires
            self.wf(),
        ensures
            r == self@.rom_value(address),
    {
        if self.bootrom_enabled && (address as usize) < BOOTROM_SIZE {
            match &self.bootrom {
                Some(image) => image[address as usize],
                None => 0xFF,
            }
        } else {
            self.mapper.read_rom(self.rom.as_slice(), address)
        }
    }

    pub fn write_rom(&mut self, address: u16, value: u8)
        requires
            old(self).wf(),
        ensures
            final(self)@ == old(self)@.after_write_rom(address, value),
            final(self).wf(),
    {
        let mut mapper = self.mapper;
        mapper.write_rom(address, value);
        self.mapper = mapper;
    }

    pub fn read_ram(&self, address: u16) -> (r: u8)
        requires
            self.wf(),
        ensures
            r == self@.ram_value(address),
    {
        self.mapper.read_ram(self.ram.as_slice(), address)
    }

    pub fn write_ram(&mut self, address: u16, value: u8)
        requires
            old(self).wf(),
        ensures
            final(self)@ == old(self)@.after_write_ram(address, value),
            final(self).wf(),
    {
        let mut mapper = self.mapper;
        mapper.write_ram(&mut self.ram, address, value);
        self.mapper = mapper;
    }

    /// What is to be kept of the cartridge for a save made at time
    /// `now`.
    pub fn save_data_at(&self, now: u64) -> (r: SaveData)
        requires
            self.wf(),
        ensures
            r.ram is Some <==> self@.saved_ram() is Some,
            r.ram matches Some(ram) ==> Some(ram@) == self@.saved_ram(),
            r.rtc is Some <==> self@.saved_rtc(now) is Some,
            r.rtc matches Some(rtc) ==> Some(rtc@) == self@.saved_rtc(now),
    {
        if !self.mapper.has_battery() {
            return SaveData { ram: None, rtc: None };
        }
        let ram = if self.ram.len() > 0 {
            let copy = self.ram.clone();
            assert(copy@ =~= self.ram@);
            Some(copy)
        } else {
            None
        };
        let rtc = match &self.mapper {
            Mapper::Mbc3(clocked) => clocked.rtc_data_at(now),
            _ => None,
        };
        SaveData { ram, rtc }
    }

    /// What is to be kept of the cartridge for a save made now, by the
    /// system's time.
    pub fn save_data(&self) -> (r: SaveData)
        requires
            self.wf(),
        ensures
            r.ram is Some <==> self@.saved_ram() is Some,
            r.ram matches Some(ram) ==> Some(ram@) == self@.saved_ram(),
            exists|now: u64|
                {
                    &&& r.rtc is Some <==> (#[trigger] self@.saved_rtc(now)) is Some
                    &&& r.rtc matches Some(rtc) ==> Some(rtc@) == self@.saved_rtc(now)
                },
    {
        let now = mbc3::system_time();
        self.save_data_at(now)
    }
}


impl Mapper {
    /// Whether the mapper is well formed, for a state that comes from
    /// outside.
    pub fn is_wf(&self) -> (r: bool)
        ensures
            r == self.wf(),
    {
        match self {
            Mapper::Mbc3(m) => m.cycles < mbc3::CYCLES_PER_SECOND && m.cycles % 4 == 0
                && m.current_time.seconds < 64 && m.current_time.minutes < 64 && m.current_time.hours
                < 32 && m.current_time.days < 512 && m.latched_time.seconds < 64
                && m.latched_time.minutes < 64 && m.latched_time.hours < 32 && m.latched_time.days
                < 512,
            Mapper::Mbc5(m) => m.rom_bank < 512 && (m.ram_bank_mask == 7 || m.ram_bank_mask == 15),
            _ => true,
        }
    }
}

impl Cartridge {
    /// Whether the cartridge is well formed, for a state that comes
    /// from outside.
    pub fn is_wf(&self) -> (r: bool)
        ensures
            r == self.wf(),
    {
        let image = match &self.bootrom {
            Some(image) => image.len() == BOOTROM_SIZE,
            None => !self.bootrom_enabled,
        };
        self.mapper.is_wf() && image
    }
}

} // verus!
