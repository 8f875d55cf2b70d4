//! The memory map: which unit answers at which address, the interrupt
//! registers, the copier that fills sprite memory, and the tick that
//! moves every unit on by one machine cycle.

use super::apu::Apu;
use super::cartridge::{Cartridge, CartridgeView, MapperOps};
use super::interrupts::{Interrupt, InterruptSet};
use super::io::Io;
use super::ppu::{DmaRequest, Ppu, OAM_SIZE};
use crate::error::Error;
use vstd::prelude::*;

verus! {

pub const ROM_START: u16 = 0x0000;

pub const ROM_END: u16 = 0x7FFF;

pub const VRAM_START: u16 = 0x8000;

pub const VRAM_END: u16 = 0x9FFF;

pub const EXT_RAM_START: u16 = 0xA000;

pub const EXT_RAM_END: u16 = 0xBFFF;

pub const WRAM_START: u16 = 0xC000;

pub const WRAM_END: u16 = 0xDFFF;

pub const ECHO_WRAM_START: u16 = 0xE000;

pub const ECHO_WRAM_END: u16 = 0xFDFF;

pub const OAM_START: u16 = 0xFE00;

pub const OAM_END: u16 = 0xFE9F;

pub const UNUSED_START: u16 = 0xFEA0;

pub const UNUSED_END: u16 = 0xFEFF;

pub const IO_START: u16 = 0xFF00;

pub const IO_END: u16 = 0xFF07;

pub const INTERRUPT_FLAGS: u16 = 0xFF0F;

pub const APU_REGISTERS_START: u16 = 0xFF10;

pub const APU_REGISTERS_END: u16 = 0xFF3F;

pub const PPU_REGISTERS_START: u16 = 0xFF40;

pub const PPU_REGISTERS_END: u16 = 0xFF4F;

pub const DISABLE_BOOTROM: u16 = 0xFF50;

pub const HRAM_START: u16 = 0xFF80;

pub const HRAM_END: u16 = 0xFFFE;

pub const INTERRUPT_ENABLE: u16 = 0xFFFF;

/// The copier of sprite memory: at rest, or about to copy the byte at
/// `offset` of the page at `base_address`.
#[derive(Clone, Copy, Debug, PartialEq, Eq)]
pub enum Dma {
    Idle,
    InProgress { offset: u8, base_address: u16 },
}

impl Dma {
    pub open spec fn wf(self) -> bool {
        self matches Dma::InProgress { offset, base_address } ==> offset < OAM_SIZE
            && base_address % 256 == 0
    }
}

/// Byte-wise access to memory, and two-byte access built on it.
pub trait MemoryOps: View + Sized {
    spec fn wf(&self) -> bool;

    /// What a read returns.
    spec fn read_result(state: Self::V, address: u16) -> u8;

    /// What a read leaves behind.
    spec fn after_read(state: Self::V, address: u16) -> Self::V;

    /// What a write leaves behind.
    spec fn after_write(state: Self::V, address: u16, value: u8) -> Self::V;

    fn read_byte(&mut self, address: u16) -> (r: u8)
        requires
            old(self).wf(),
        ensures
            r == Self::read_result(old(self)@, address),
            final(self)@ == Self::after_read(old(self)@, address),
            final(self).wf(),
    ;

    fn write_byte(&mut self, address: u16, value: u8)
        requires
            old(self).wf(),
        ensures
            final(self)@ == Self::after_write(old(self)@, address, value),
            final(self).wf(),
    ;

    /// Reads two bytes, the low one first, from `address` and the
    /// address after it.
    fn read_dbyte(&mut self, address: u16) -> (r: u16)
        requires
            old(self).wf(),
        ensures
            ({
                let next = if address == 0xFFFF { 0u16 } else { (address + 1) as u16 };
                let first = Self::after_read(old(self)@, address);
                &&& r == Self::read_result(old(self)@, address) + 256 * Self::read_result(first, next)
                &&& final(self)@ == Self::after_read(first, next)
            }),
            final(self).wf(),
    {
        let low = self.read_byte(address);
        let high = self.read_byte(address.wrapping_add(1));
        low as u16 + 256 * (high as u16)
    }

    /// Writes two bytes, the high one first, to the address after
    /// `address` and to `address`.
    fn write_dbyte(&mut self, address: u16, value: u16)
        requires
            old(self).wf(),
        ensures
            ({
                let next = if address == 0xFFFF { 0u16 } else { (address + 1) as u16 };
                let first = Self::after_write(old(self)@, next, (value / 256) as u8);
                final(self)@ == Self::after_write(first, address, (value % 256) as u8)
            }),
            final(self).wf(),
    {
        self.write_byte(address.wrapping_add(1), (value / 256) as u8);
        self.write_byte(address, (value % 256) as u8);
    }
}

/// Memory and the units behind it.
#[derive(Clone, Debug, PartialEq, Eq)]
pub struct Mmu {
    pub wram: [u8; 8192],
    pub hram: [u8; 127],
    pub apu: Apu,
    pub ppu: Ppu,
    pub io: Io,
    pub cartridge: Cartridge,
    pub dma: Dma,
    pub interrupt_flags: InterruptSet,
    pub interrupt_enable: InterruptSet,
    pub ie_value: u8,
}

/// Memory with the cartridge's images as sequences of bytes.
pub struct MmuView {
    pub wram: [u8; 8192],
    pub hram: [u8; 127],
    pub apu: Apu,
    pub ppu: Ppu,
    pub io: Io,
    pub cartridge: CartridgeView,
    pub dma: Dma,
    pub interrupt_flags: InterruptSet,
    pub interrupt_enable: InterruptSet,
    pub ie_value: u8,
}

impl View for Mmu {
    type V = MmuView;

    open spec fn view(&self) -> MmuView {
        MmuView {
            wram: self.wram,
            hram: self.hram,
            apu: self.apu,
            ppu: self.ppu,
            io: self.io,
            cartridge: self.cartridge@,
            dma: self.dma,
            interrupt_flags: self.interrupt_flags,
            interrupt_enable: self.interrupt_enable,
            ie_value: self.ie_value,
        }
    }
}

impl MmuView {
    pub open spec fn wf(self) -> bool {
        &&& self.apu.wf()
        &&& self.ppu.wf()
        &&& self.io.wf()
        &&& self.cartridge.wf()
        &&& self.dma.wf()
    }

    /// The interrupts that are both requested and enabled.
    pub open spec fn pending(self) -> InterruptSet {
        self.interrupt_flags.intersection(self.interrupt_enable)
    }

    /// What a read of `address` returns.
    #[verifier::opaque]
    pub open spec fn read(self, address: u16) -> u8 {
        if address <= ROM_END {
            self.cartridge.rom_value(address)
        } else if address <= VRAM_END {
            self.ppu.vram_value((address - VRAM_START) as u16)
        } else if address <= EXT_RAM_END {
            self.cartridge.ram_value((address - EXT_RAM_START) as u16)
        } else if address <= WRAM_END {
            self.wram[address - WRAM_START]
        } else if address <= ECHO_WRAM_END {
            self.wram[address - ECHO_WRAM_START]
        } else if address <= OAM_END {
            self.ppu.oam_value((address - OAM_START) as u16)
        } else if address <= UNUSED_END {
            0xFF
        } else if address <= IO_END {
            self.io.register_value(address) as u8
        } else if address < INTERRUPT_FLAGS {
            0xFF
        } else if address == INTERRUPT_FLAGS {
            (self.interrupt_flags.low_bits() + 0xE0) as u8
        } else if address <= APU_REGISTERS_END {
            self.apu.read_value(address) as u8
        } else if address <= PPU_REGISTERS_END {
            self.ppu.register_value(address) as u8
        } else if address < HRAM_START {
            0xFF
        } else if address <= HRAM_END {
            self.hram[address - HRAM_START]
        } else {
            (self.interrupt_enable.low_bits() + (self.ie_value / 32) * 32) as u8
        }
    }

    /// Memory after `value` was written to `address`.
    #[verifier::opaque]
    pub open spec fn written(self, address: u16, value: u8) -> MmuView {
        if address <= ROM_END {
            MmuView { cartridge: self.cartridge.after_write_rom(address, value), ..self }
        } else if address <= VRAM_END {
            MmuView { ppu: self.ppu.with_vram((address - VRAM_START) as u16, value), ..self }
        } else if address <= EXT_RAM_END {
            MmuView {
                cartridge: self.cartridge.after_write_ram((address - EXT_RAM_START) as u16, value),
                ..self
            }
        } else if address <= WRAM_END {
            MmuView {
                wram: vstd::array::spec_array_update(self.wram, address - WRAM_START, value),
                ..self
            }
        } else if address <= ECHO_WRAM_END {
            MmuView {
                wram: vstd::array::spec_array_update(self.wram, address - ECHO_WRAM_START, value),
                ..self
            }
        } else if address <= OAM_END {
            MmuView { ppu: self.ppu.with_oam((address - OAM_START) as u16, value), ..self }
        } else if address <= UNUSED_END {
            self
        } else if address <= IO_END {
            MmuView { io: self.io.written(address, value), ..self }
        } else if address < INTERRUPT_FLAGS {
            self
        } else if address == INTERRUPT_FLAGS {
            MmuView { interrupt_flags: InterruptSet::of_bits(value), ..self }
        } else if address <= APU_REGISTERS_END {
            MmuView { apu: self.apu.after_write(address, value), ..self }
        } else if address <= PPU_REGISTERS_END {
            MmuView { ppu: self.ppu.after_register_write(address, value), ..self }
        } else if address == DISABLE_BOOTROM {
            if value != 0 {
                MmuView { cartridge: self.cartridge.without_bootrom(), ..self }
            } else {
                self
            }
        } else if address < HRAM_START {
            self
        } else if address <= HRAM_END {
            MmuView {
                hram: vstd::array::spec_array_update(self.hram, address - HRAM_START, value),
                ..self
            }
        } else {
            MmuView { interrupt_enable: InterruptSet::of_bits(value), ie_value: value, ..self }
        }
    }

    /// Memory with a copy started where one was requested.
    pub open spec fn dma_started(self, request: DmaRequest) -> MmuView {
        match request {
            DmaRequest::Start(page) => MmuView {
                dma: Dma::InProgress { offset: 0, base_address: (page * 256) as u16 },
                ..self
            },
            DmaRequest::Idle => self,
        }
    }

    /// Memory after the copier moved one byte, where a copy is under
    /// way: byte `offset` of the page goes to byte `offset` of sprite
    /// memory, and after the last of the 160 the copier rests.
    #[verifier::opaque]
    pub open spec fn dma_stepped(self) -> MmuView {
        match self.dma {
            Dma::InProgress { offset, base_address } => MmuView {
                ppu: self.ppu.with_oam_copied(
                    offset as u16,
                    self.read((base_address + offset) as u16),
                ),
                dma: if offset + 1 < OAM_SIZE {
                    Dma::InProgress { offset: (offset + 1) as u8, base_address }
                } else {
                    Dma::Idle
                },
                ..self
            },
            Dma::Idle => self,
        }
    }

    /// The units one machine cycle later, before the copier's turn:
    /// cartridge, joypad and timer, pixel unit and sound unit move on,
    /// and the interrupts raised join the requested ones.
    #[verifier::opaque]
    pub open spec fn units_ticked(self) -> MmuView {
        let report = self.io.tick_report();
        MmuView {
            cartridge: self.cartridge.after_tick(),
            io: self.io.ticked(),
            ppu: self.ppu.ticked(),
            apu: (if report.apu_inc_div { self.apu.after_inc_div() } else { self.apu }).after_tick(),
            interrupt_flags: self.interrupt_flags.union(
                report.interrupts.union(self.ppu.tick_interrupts()),
            ),
            ..self
        }
    }

    /// Memory one machine cycle later.
    pub open spec fn ticked(self) -> MmuView {
        self.units_ticked().dma_started(self.ppu.dma).dma_stepped()
    }

    /// Memory after a cycle of a stopped machine: only the joypad is
    /// looked at.
    pub open spec fn ticked_stopped(self) -> MmuView {
        MmuView {
            io: self.io.ticked_stopped(),
            interrupt_flags: self.interrupt_flags.union(self.io.stopped_report()),
            ..self
        }
    }

    pub open spec fn with_interrupt_reset(self, interrupt: Interrupt) -> MmuView {
        MmuView { interrupt_flags: self.interrupt_flags.without(interrupt), ..self }
    }
}

impl Mmu {
    pub open spec fn wf(&self) -> bool {
        self@.wf()
    }

    /// Whether everything but the cartridge is as at power on, with
    /// the pixel unit as the boot program finds it where there is a
    /// boot image and as the boot program leaves it where there is
    /// none.
    pub open spec fn is_fresh(&self, with_bootrom: bool) -> bool {
        &&& self.dma is Idle
        &&& self.interrupt_flags == InterruptSet::empty()
        &&& self.interrupt_enable == InterruptSet::empty()
        &&& self.ie_value == 0
        &&& self.io.buttons == super::io::Buttons::released()
        &&& self.io.timer == super::io::Timer::initial()
        &&& self.apu.is_fresh()
        &&& self.ppu.is_fresh(if with_bootrom { 0u8 } else { 0x91u8 }, if with_bootrom {
            0u8
        } else {
            0xFCu8
        })
        &&& forall|i: int| 0 <= i < 8192 ==> self.wram[i] == 0
        &&& forall|i: int| 0 <= i < 127 ==> self.hram[i] == 0
    }

    /// Memory at power on for a machine built at time `now`.
    pub fn new_at(rom: Vec<u8>, bootrom: Option<Vec<u8>>, save: Option<Vec<u8>>, now: u64) -> (r:
        Result<Self, Error>)
        ensures
            ({
                let built = CartridgeView::built(
                    rom@,
                    super::cartridge::bytes_of(bootrom),
                    super::cartridge::bytes_of(save),
                    now,
                );
                &&& r is Ok <==> built is Ok
                &&& r matches Err(e) ==> built == Err::<CartridgeView, Error>(e)
                &&& r matches Ok(mmu) ==> {
                    &&& mmu.wf()
                    &&& built == Ok::<CartridgeView, Error>(mmu@.cartridge)
                    &&& mmu.is_fresh(bootrom is Some)
                }
            }),
    {
        let ppu = if bootrom.is_some() { Ppu::new() } else { Ppu::new_post_bootrom() };
        let cartridge = match Cartridge::new_at(rom, bootrom, save, now) {
            Ok(cartridge) => cartridge,
            Err(e) => {
                return Err(e);
            },
        };
        Ok(
            Mmu {
                wram: [0u8;8192],
                hram: [0u8;127],
                apu: Apu::new(),
                ppu,
                io: Io::new(),
                cartridge,
                dma: Dma::Idle,
                interrupt_flags: InterruptSet::new(),
                interrupt_enable: InterruptSet::new(),
                ie_value: 0,
            },
        )
    }

    /// Memory at power on; a saved clock that was running is moved on
    /// to the system's time.
    pub fn new(rom: Vec<u8>, bootrom: Option<Vec<u8>>, save: Option<Vec<u8>>) -> (r: Result<
        Self,
        Error,
    >)
        ensures
            exists|now: u64|
                {
                    let built = #[trigger] CartridgeView::built(
                        rom@,
                        super::cartridge::bytes_of(bootrom),
                        super::cartridge::bytes_of(save),
                        now,
                    );
                    &&& r is Ok <==> built is Ok
                    &&& r matches Err(e) ==> built == Err::<CartridgeView, Error>(e)
                    &&& r matches Ok(mmu) ==> mmu.wf() && built == Ok::<CartridgeView, Error>(
                        mmu@.cartridge,
                    ) && mmu.is_fresh(bootrom is Some)
                },
    {
        let now = super::cartridge::mbc3::system_time();
        Self::new_at(rom, bootrom, save, now)
    }

    /// The interrupts that are both requested and enabled.
    pub fn interrupts(&self) -> (r: InterruptSet)
        ensures
            r == self@.pending(),
    {
        self.interrupt_flags.and(&self.interrupt_enable)
    }

    /// The interrupt to serve next, if one is pending.
    pub fn next_interrupt(&self) -> (r: Option<Interrupt>)
        ensures
            r == self@.pending().first(),
    {
        self.interrupts().next()
    }

    pub fn reset_interrupt(&mut self, interrupt: Interrupt)
        ensures
            final(self)@ == old(self)@.with_interrupt_reset(interrupt),
            old(self).wf() ==> final(self).wf(),
    {
        let mut flags = self.interrupt_flags;
        flags.remove(interrupt);
        self.interrupt_flags = flags;
    }

    pub fn read_byte_no_conflict(&self, address: u16) -> (r: u8)
        requires
            self.wf(),
        ensures
            r == self@.read(address),
    {
        reveal(MmuView::read);
        if address <= ROM_END {
            self.cartridge.read_rom(address)
        } else if address <= VRAM_END {
            self.ppu.read_vram(address - VRAM_START)
        } else if address <= EXT_RAM_END {
            self.cartridge.read_ram(address - EXT_RAM_START)
        } else if address <= WRAM_END {
            self.wram[(address - WRAM_START) as usize]
        } else if address <= ECHO_WRAM_END {
            self.wram[(address - ECHO_WRAM_START) as usize]
        } else if address <= OAM_END {
            self.ppu.read_oam(address - OAM_START)
        } else if address <= UNUSED_END {
            0xFF
        } else if address <= IO_END {
            self.io.read(address)
        } else if address < INTERRUPT_FLAGS {
            0xFF
        } else if address == INTERRUPT_FLAGS {
            self.interrupt_flags.bits() + 0xE0
        } else if address <= APU_REGISTERS_END {
            self.apu.read(address)
        } else if address <= PPU_REGISTERS_END {
            self.ppu.read_registers(address)
        } else if address < HRAM_START {
            0xFF
        } else if address <= HRAM_END {
            self.hram[(address - HRAM_START) as usize]
        } else {
            self.interrupt_enable.bits() + (self.ie_value / 32) * 32
        }
    }

    fn write_cartridge(&mut self, address: u16, value: u8)
        requires
            old(self).wf(),
            address <= ROM_END || EXT_RAM_START <= address <= EXT_RAM_END || address
                == DISABLE_BOOTROM,
        ensures
            final(self)@ == old(self)@.written(address, value),
            final(self).wf(),
    {
        reveal(MmuView::written);
        if address <= ROM_END {
            self.cartridge.write_rom(address, value);
        } else if address <= EXT_RAM_END {
            self.cartridge.write_ram(address - EXT_RAM_START, value);
        } else if value != 0 {
            self.cartridge.disable_bootrom();
        }
    }

    fn write_video(&mut self, address: u16, value: u8)
        requires
            old(self).wf(),
            VRAM_START <= address <= VRAM_END || OAM_START <= address <= OAM_END
                || PPU_REGISTERS_START <= address <= PPU_REGISTERS_END,
        ensures
            final(self)@ == old(self)@.written(address, value),
            final(self).wf(),
    {
        reveal(MmuView::written);
        if address <= VRAM_END {
            self.ppu.write_vram(address - VRAM_START, value);
        } else if address <= OAM_END {
            self.ppu.write_oam(address - OAM_START, value);
        } else {
            self.ppu.write_registers(address, value);
        }
    }

    fn write_ram(&mut self, address: u16, value: u8)
        requires
            old(self).wf(),
            WRAM_START <= address <= ECHO_WRAM_END || HRAM_START <= address <= HRAM_END,
        ensures
            final(self)@ == old(self)@.written(address, value),
            final(self).wf(),
    {
        reveal(MmuView::written);
        if address <= WRAM_END {
            self.wram[(address - WRAM_START) as usize] = value;
        } else if address <= ECHO_WRAM_END {
            self.wram[(address - ECHO_WRAM_START) as usize] = value;
        } else {
            self.hram[(address - HRAM_START) as usize] = value;
        }
    }

    fn write_io(&mut self, address: u16, value: u8)
        requires
            old(self).wf(),
            IO_START <= address <= APU_REGISTERS_END || address == INTERRUPT_ENABLE,
        ensures
            final(self)@ == old(self)@.written(address, value),
            final(self).wf(),
    {
        reveal(MmuView::written);
        if address <= IO_END {
            let mut io = self.io;
            io.write(address, value);
            self.io = io;
        } else if address < INTERRUPT_FLAGS {
        } else if address == INTERRUPT_FLAGS {
            self.interrupt_flags = InterruptSet::new_truncated(value);
        } else if address <= APU_REGISTERS_END {
            let mut apu = self.apu;
            apu.write(address, value);
            self.apu = apu;
        } else {
            self.interrupt_enable = InterruptSet::new_truncated(value);
            self.ie_value = value;
        }
    }

    pub fn write_byte_no_conflict(&mut self, address: u16, value: u8)
        requires
            old(self).wf(),
        ensures
            final(self)@ == old(self)@.written(address, value),
            final(self).wf(),
    {
        if address <= ROM_END || (EXT_RAM_START <= address && address <= EXT_RAM_END) || address
            == DISABLE_BOOTROM {
            self.write_cartridge(address, value);
        } else if address <= VRAM_END || (OAM_START <= address && address <= OAM_END) || (
        PPU_REGISTERS_START <= address && address <= PPU_REGISTERS_END) {
            self.write_video(address, value);
        } else if (WRAM_START <= address && address <= ECHO_WRAM_END) || (HRAM_START <= address
            && address <= HRAM_END) {
            self.write_ram(address, value);
        } else if (IO_START <= address && address <= APU_REGISTERS_END) || address
            == INTERRUPT_ENABLE {
            self.write_io(address, value);
        } else {
            proof {
                reveal(MmuView::written);
            }
        }
    }

    fn tick_units(&mut self) -> (request: DmaRequest)
        requires
            old(self).wf(),
        ensures
            final(self)@ == old(self)@.units_ticked(),
            request == old(self).ppu.dma,
            final(self).wf(),
    {
        reveal(MmuView::units_ticked);
        self.cartridge.tick();
        let mut io = self.io;
        let report = io.tick();
        self.io = io;
        let (raised, request) = self.ppu.tick();
        self.interrupt_flags = self.interrupt_flags.or(&report.interrupts.or(&raised));
        let mut apu = self.apu;
        if report.apu_inc_div {
            apu.inc_div();
        }
        apu.tick();
        self.apu = apu;
        request
    }

    fn step_dma(&mut self)
        requires
            old(self).wf(),
        ensures
            final(self)@ == old(self)@.dma_stepped(),
            final(self).wf(),
    {
        reveal(MmuView::dma_stepped);
        if let Dma::InProgress { offset, base_address } = self.dma {
            let value = self.read_byte_no_conflict(base_address + offset as u16);
            self.ppu.copy_to_oam(offset as u16, value);
            self.dma = if (offset as usize) + 1 < OAM_SIZE {
                Dma::InProgress { offset: offset + 1, base_address }
            } else {
                Dma::Idle
            };
        }
    }

    /// Moves every unit on by one machine cycle.
    pub fn tick(&mut self)
        requires
            old(self).wf(),
        ensures
            final(self)@ == old(self)@.ticked(),
            final(self).wf(),
    {
        let request = self.tick_units();
        proof {
            reveal(MmuView::units_ticked);
            reveal(MmuView::dma_stepped);
        }
        if let DmaRequest::Start(page) = request {
            self.dma = Dma::InProgress { offset: 0, base_address: page as u16 * 256 };
        }
        self.step_dma();
    }

    /// Passes a cycle of a stopped machine.
    pub fn tick_stopped(&mut self)
        requires
            old(self).wf(),
        ensures
            final(self)@ == old(self)@.ticked_stopped(),
            final(self).wf(),
    {
        let mut io = self.io;
        let raised = io.tick_stopped();
        self.io = io;
        self.interrupt_flags = self.interrupt_flags.or(&raised);
    }
}

impl MemoryOps for Mmu {
    open spec fn wf(&self) -> bool {
        self@.wf()
    }

    open spec fn read_result(state: MmuView, address: u16) -> u8 {
        state.read(address)
    }

    open spec fn after_read(state: MmuView, address: u16) -> MmuView {
        state
    }

    open spec fn after_write(state: MmuView, address: u16, value: u8) -> MmuView {
        state.written(address, value)
    }

    fn read_byte(&mut self, address: u16) -> (r: u8) {
        self.read_byte_no_conflict(address)
    }

    fn write_byte(&mut self, address: u16, value: u8) {
        self.write_byte_no_conflict(address, value);
    }
}


impl Mmu {
    /// Whether memory is well formed but for the cartridge, whose
    /// images a restored state does not bring along.
    pub open spec fn units_wf(&self) -> bool {
        &&& self.apu.wf()
        &&& self.ppu.wf()
        &&& self.io.wf()
        &&& self.cartridge.mapper.wf()
        &&& self.dma.wf()
    }

    pub fn is_units_wf(&self) -> (r: bool)
        ensures
            r == self.units_wf(),
    {
        let dma = match self.dma {
            Dma::InProgress { offset, base_address } => (offset as usize) < OAM_SIZE && base_address
                % 256 == 0,
            Dma::Idle => true,
        };
        self.apu.is_wf() && self.ppu.is_wf() && self.io.buttons.directions < 16
            && self.io.buttons.buttons < 16 && self.cartridge.mapper.is_wf() && dma
    }

    /// Whether memory is well formed, for a state that comes from
    /// outside.
    pub fn is_wf(&self) -> (r: bool)
        ensures
            r == self.wf(),
    {
        self.is_units_wf() && self.cartridge.is_wf()
    }
}


impl MmuView {
    /// Memory `count` machine cycles later.
    pub open spec fn ticks(self, count: nat) -> MmuView
        decreases count,
    {
        if count == 0 {
            self
        } else {
            self.ticked().ticks((count - 1) as nat)
        }
    }

    /// Whether the copier has moved the first `done` bytes of a page
    /// of work RAM, whose content is `source`, to sprite memory, and
    /// stands before the next one or, after the last one, at rest.
    pub open spec fn copied(self, page: u8, done: int, source: [u8; 8192]) -> bool {
        &&& self.wram == source
        &&& self.ppu.dma is Idle
        &&& self.dma == (if done < OAM_SIZE {
            Dma::InProgress { offset: done as u8, base_address: (page * 256) as u16 }
        } else {
            Dma::Idle
        })
        &&& forall|i: int| 0 <= i < done ==> self.ppu.oam[i] == source[(page - 0xC0) * 256 + i]
    }

    proof fn lemma_copy_step(self, page: u8, done: int, source: [u8; 8192])
        requires
            0xC0 <= page <= 0xDF,
            0 <= done < OAM_SIZE,
            self.wram == source,
            self.dma == (Dma::InProgress { offset: done as u8, base_address: (page * 256) as u16 })
                || self.ppu.dma == DmaRequest::Start(page) && done == 0,
            self.ppu.dma is Idle || self.ppu.dma == DmaRequest::Start(page) && done == 0,
            forall|i: int| 0 <= i < done ==> self.ppu.oam[i] == source[(page - 0xC0) * 256 + i],
        ensures
            self.ticked().copied(page, done + 1, source),
    {
        reveal(MmuView::units_ticked);
        reveal(MmuView::dma_stepped);
        reveal(MmuView::read);
        self.ppu.lemma_tick_keeps_memory();
        let started = self.units_ticked().dma_started(self.ppu.dma);
        assert(started.dma == (Dma::InProgress {
            offset: done as u8,
            base_address: (page * 256) as u16,
        }));
        assert(started.ppu.oam == self.ppu.oam);
        let after = self.ticked();
        assert(after.ppu.oam@ == self.ppu.oam@.update(
            done,
            source[(page - 0xC0) * 256 + done],
        ));
        assert forall|i: int| 0 <= i < done + 1 implies after.ppu.oam[i] == source[(page - 0xC0)
            * 256 + i] by {
            assert(after.ppu.oam[i] == after.ppu.oam@[i]);
            if i < done {
                assert(self.ppu.oam[i] == self.ppu.oam@[i]);
            }
        }
    }

    /// A copy requested from a page of work RAM fills sprite memory in
    /// 160 machine cycles, a byte with each: `count` cycles after the
    /// request the first `count` bytes of sprite memory hold those of
    /// the page, and after the 160th the copier rests.
    pub proof fn lemma_dma_copies_page(self, page: u8, count: nat)
        requires
            self.ppu.dma == DmaRequest::Start(page),
            0xC0 <= page <= 0xDF,
            1 <= count <= OAM_SIZE,
        ensures
            self.ticks(count).copied(page, count as int, self.wram),
        decreases count,
    {
        reveal_with_fuel(MmuView::ticks, 2);
        if count == 1 {
            self.lemma_copy_step(page, 0, self.wram);
        } else {
            self.lemma_dma_copies_page(page, (count - 1) as nat);
            self.lemma_ticks_unfold((count - 1) as nat);
            self.ticks((count - 1) as nat).lemma_copy_step(page, count - 1, self.wram);
        }
    }

    /// One more tick after `count` ticks is `count + 1` ticks.
    proof fn lemma_ticks_unfold(self, count: nat)
        ensures
            self.ticks(count + 1) == self.ticks(count).ticked(),
        decreases count,
    {
        reveal_with_fuel(MmuView::ticks, 2);
        if count > 0 {
            self.ticked().lemma_ticks_unfold((count - 1) as nat);
        }
    }
}

} // verus!
