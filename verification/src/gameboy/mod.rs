//! The machine as a front end drives it.

pub mod apu;
pub mod bits;
pub mod cartridge;
pub mod cpu;
pub mod debugger;
pub mod interrupts;
pub mod io;
pub mod mmu;
pub mod ppu;

use self::apu::Deltas;
use self::cartridge::{bytes_of, Cartridge, CartridgeView, Header, Mapper, MapperOps, SaveData};
use self::cpu::{advanced, Cpu, CpuView, MAX_TICKS_PER_INSTR};
use self::debugger::DebugStatus;
use self::ppu::Color;
use crate::error::Error;
use vstd::prelude::*;

pub use self::io::Button;

verus! {

/// Master cycles per second.
pub const CYCLES_PER_SECOND: u64 = 4_194_304;

/// The machine with the state of its debugger.
#[derive(Clone, Debug, PartialEq, Eq)]
pub struct Gameboy {
    pub cpu: Cpu,
    pub debug_status: DebugStatus,
}

/// The machine with its images and lists as sequences.
pub struct GameboyView {
    pub cpu: CpuView,
    pub breakpoints: Seq<u16>,
    pub should_break: bool,
}

impl View for Gameboy {
    type V = GameboyView;

    open spec fn view(&self) -> GameboyView {
        GameboyView {
            cpu: self.cpu@,
            breakpoints: self.debug_status.breakpoints@,
            should_break: self.debug_status.should_break,
        }
    }
}

impl GameboyView {
    /// The machine in the state `restored`, which was saved without
    /// the cartridge's ROM and the boot image, with this machine's ROM
    /// and boot image put in.
    pub open spec fn restored_from(self, restored: GameboyView) -> GameboyView {
        GameboyView {
            cpu: CpuView {
                mmu: mmu::MmuView {
                    cartridge: CartridgeView {
                        rom: self.cpu.mmu.cartridge.rom,
                        bootrom: self.cpu.mmu.cartridge.bootrom,
                        ..restored.cpu.mmu.cartridge
                    },
                    ..restored.cpu.mmu
                },
                ..restored.cpu
            },
            ..restored
        }
    }
}

impl Gameboy {
    pub open spec fn wf(&self) -> bool {
        self.cpu.wf()
    }

    /// Whether a state that was saved without its images can be put
    /// into a machine: every unit is well formed.
    pub open spec fn restorable(&self) -> bool {
        self.cpu.mmu.units_wf()
    }

    /// Builds the machine from a ROM image, an optional boot image and
    /// an optional save, taking `now` as the current time in seconds
    /// since 1970. With `debug` the debugger is due before the first
    /// step.
    pub fn new_at(
        rom: Vec<u8>,
        bootrom: Option<Vec<u8>>,
        save_data: Option<Vec<u8>>,
        debug: bool,
        now: u64,
    ) -> (r: Result<Self, Error>)
        ensures
            ({
                let built = CartridgeView::built(rom@, bytes_of(bootrom), bytes_of(save_data), now);
                &&& r is Ok <==> built is Ok
                &&& r matches Err(e) ==> built == Err::<CartridgeView, Error>(e)
                &&& r matches Ok(gameboy) ==> {
                    &&& gameboy.wf()
                    &&& built == Ok::<CartridgeView, Error>(gameboy@.cpu.mmu.cartridge)
                    &&& gameboy@.breakpoints == Seq::<u16>::empty()
                    &&& gameboy@.should_break == debug
                    &&& gameboy.cpu.mmu.is_fresh(bootrom is Some)
                    &&& !gameboy.cpu.enable_ime
                    &&& gameboy.cpu.cycles == 0
                    &&& gameboy.cpu.ticks == 0
                    &&& gameboy.cpu.execution_state is Continue
                    &&& gameboy.cpu.registers == (if bootrom is Some {
                        cpu::registers::Registers::zeroed()
                    } else {
                        cpu::registers::Registers::post_bootrom()
                    })
                }
            }),
    {
        let cpu = match Cpu::new_at(rom, bootrom, save_data, now) {
            Ok(cpu) => cpu,
            Err(e) => {
                return Err(e);
            },
        };
        Ok(Gameboy { cpu, debug_status: DebugStatus { breakpoints: Vec::new(), should_break: debug } })
    }

    /// Builds the machine; a saved clock that was running is moved on
    /// to the system's time.
    pub fn new(rom: Vec<u8>, bootrom: Option<Vec<u8>>, save_data: Option<Vec<u8>>, debug: bool) -> (r:
        Result<Self, Error>)
        ensures
            exists|now: u64|
                {
                    let built = #[trigger] CartridgeView::built(
                        rom@,
                        bytes_of(bootrom),
                        bytes_of(save_data),
                        now,
                    );
                    &&& r is Ok <==> built is Ok
                    &&& r matches Err(e) ==> built == Err::<CartridgeView, Error>(e)
                    &&& r matches Ok(gameboy) ==> {
                        &&& gameboy.wf()
                        &&& built == Ok::<CartridgeView, Error>(gameboy@.cpu.mmu.cartridge)
                        &&& gameboy@.breakpoints == Seq::<u16>::empty()
                        &&& gameboy@.should_break == debug
                        &&& gameboy.cpu.mmu.is_fresh(bootrom is Some)
                        &&& !gameboy.cpu.enable_ime
                        &&& gameboy.cpu.cycles == 0
                        &&& gameboy.cpu.ticks == 0
                        &&& gameboy.cpu.execution_state is Continue
                        &&& gameboy.cpu.registers == (if bootrom is Some {
                            cpu::registers::Registers::zeroed()
                        } else {
                            cpu::registers::Registers::post_bootrom()
                        })
                    }
                },
    {
        let now = cartridge::mbc3::system_time();
        Self::new_at(rom, bootrom, save_data, debug, now)
    }

    /// Takes one step and returns the master cycles it took: four for
    /// each of the one to six ticks of the bus that the step issued.
    pub fn run_instruction(&mut self) -> (r: u64)
        requires
            old(self).wf(),
        ensures
            final(self)@ == (GameboyView { cpu: old(self)@.cpu.stepped(), ..old(self)@ }),
            final(self).wf(),
            r == 4 * final(self).cpu.ticks,
            1 <= final(self).cpu.ticks <= MAX_TICKS_PER_INSTR,
            r % 4 == 0,
            4 <= r <= 24,
            final(self).cpu.cycles == advanced(old(self).cpu.cycles, r as int),
    {
        self.cpu.next_instruction();
        4 * self.cpu.ticks as u64
    }

    /// Takes one step.
    pub fn tick(&mut self)
        requires
            old(self).wf(),
        ensures
            final(self)@ == (GameboyView { cpu: old(self)@.cpu.stepped(), ..old(self)@ }),
            final(self).wf(),
    {
        self.cpu.next_instruction();
    }

    /// The picture.
    pub fn screen(&self) -> (r: &[Color; 23040])
        ensures
            *r == self.cpu.mmu.ppu.screen,
    {
        self.cpu.mmu.ppu.screen()
    }

    /// Hands out the amplitude changes of the sound output since the
    /// last call.
    pub fn samples(&mut self) -> (r: Deltas)
        requires
            old(self).wf(),
        ensures
            r == old(self).cpu.mmu.apu.pending(),
            final(self).cpu.mmu.apu == old(self).cpu.mmu.apu.drained(),
            final(self)@ == (GameboyView {
                cpu: CpuView {
                    mmu: mmu::MmuView {
                        apu: old(self).cpu.mmu.apu.drained(),
                        ..old(self)@.cpu.mmu
                    },
                    ..old(self)@.cpu
                },
                ..old(self)@
            }),
            final(self).wf(),
    {
        let mut apu = self.cpu.mmu.apu;
        let deltas = apu.deltas();
        self.cpu.mmu.apu = apu;
        deltas
    }

    /// Whether the cartridge keeps its RAM on a battery.
    pub fn can_save(&self) -> (r: bool)
        ensures
            r == self.cpu.mmu.cartridge.mapper.battery(),
    {
        self.cpu.mmu.cartridge.mapper.has_battery()
    }

    /// What is to be kept of the cartridge for a save made at time
    /// `now`.
    pub fn save_data_at(&self, now: u64) -> (r: SaveData)
        requires
            self.wf(),
        ensures
            r.ram is Some <==> self@.cpu.mmu.cartridge.saved_ram() is Some,
            r.ram matches Some(ram) ==> Some(ram@) == self@.cpu.mmu.cartridge.saved_ram(),
            r.rtc is Some <==> self@.cpu.mmu.cartridge.saved_rtc(now) is Some,
            r.rtc matches Some(rtc) ==> Some(rtc@) == self@.cpu.mmu.cartridge.saved_rtc(now),
    {
        self.cpu.mmu.cartridge.save_data_at(now)
    }

    /// What is to be kept of the cartridge for a save made now, by the
    /// system's time.
    pub fn save_data(&self) -> (r: SaveData)
        requires
            self.wf(),
        ensures
            r.ram is Some <==> self@.cpu.mmu.cartridge.saved_ram() is Some,
            r.ram matches Some(ram) ==> Some(ram@) == self@.cpu.mmu.cartridge.saved_ram(),
            exists|now: u64|
                {
                    &&& r.rtc is Some <==> (#[trigger] self@.cpu.mmu.cartridge.saved_rtc(now)) is Some
                    &&& r.rtc matches Some(rtc) ==> Some(rtc@) == self@.cpu.mmu.cartridge.saved_rtc(
                        now,
                    )
                },
    {
        self.cpu.mmu.cartridge.save_data()
    }

    /// Whether a state that was saved without its images can be put
    /// into a machine.
    pub fn is_restorable(&self) -> (r: bool)
        ensures
            r == self.restorable(),
    {
        self.cpu.mmu.is_units_wf()
    }

    /// Puts the machine into a saved state, keeping its ROM and boot
    /// image, which a saved state does not hold. A state that runs
    /// the boot image cannot be put into a machine that has none.
    pub fn reinit(&mut self, gameboy: Gameboy) -> (r: Result<(), Error>)
        requires
            old(self).wf(),
            gameboy.restorable(),
        ensures
            r is Err <==> gameboy.cpu.mmu.cartridge.bootrom_enabled
                && old(self).cpu.mmu.cartridge.bootrom is None,
            r is Err ==> r == Err::<(), Error>(Error::MissingBootrom) && final(self)@ == old(self)@,
            r is Ok ==> final(self)@ == old(self)@.restored_from(gameboy@),
            final(self).wf(),
    {
        if gameboy.cpu.mmu.cartridge.bootrom_enabled && self.cpu.mmu.cartridge.bootrom.is_none() {
            return Err(Error::MissingBootrom);
        }
        let mut incoming = gameboy;
        let mut mine = Cartridge {
            header: Header {
                title: String::new(),
                rom_size: 0,
                rom_bank_count: 0,
                ram_size: 0,
                ram_bank_count: 0,
                destination: cartridge::Destination::Japanese,
            },
            mapper: Mapper::RomOnly(cartridge::rom_only::RomOnly),
            bootrom: None,
            bootrom_enabled: false,
            rom: Vec::new(),
            ram: Vec::new(),
        };
        std::mem::swap(&mut self.cpu.mmu.cartridge, &mut mine);
        let mut theirs = Cartridge {
            header: Header {
                title: String::new(),
                rom_size: 0,
                rom_bank_count: 0,
                ram_size: 0,
                ram_bank_count: 0,
                destination: cartridge::Destination::Japanese,
            },
            mapper: Mapper::RomOnly(cartridge::rom_only::RomOnly),
            bootrom: None,
            bootrom_enabled: false,
            rom: Vec::new(),
            ram: Vec::new(),
        };
        std::mem::swap(&mut incoming.cpu.mmu.cartridge, &mut theirs);
        incoming.cpu.mmu.cartridge = Cartridge {
            header: theirs.header,
            mapper: theirs.mapper,
            bootrom: mine.bootrom,
            bootrom_enabled: theirs.bootrom_enabled,
            rom: mine.rom,
            ram: theirs.ram,
        };
        *self = incoming;
        Ok(())
    }

    /// What the cartridge's header says.
    pub fn rom_header(&self) -> (r: &Header)
        ensures
            *r == self.cpu.mmu.cartridge.header,
    {
        &self.cpu.mmu.cartridge.header
    }

    /// The cartridge's mapper.
    pub fn mapper(&self) -> (r: &Mapper)
        ensures
            *r == self.cpu.mmu.cartridge.mapper,
    {
        &self.cpu.mmu.cartridge.mapper
    }

    /// Records that a button went down (`set`) or up.
    pub fn set_button(&mut self, button: Button, set: bool)
        requires
            old(self).wf(),
        ensures
            final(self).cpu.mmu.io.buttons == old(self).cpu.mmu.io.buttons.with_button(button, set),
            final(self)@ == (GameboyView {
                cpu: CpuView {
                    mmu: mmu::MmuView {
                        io: io::Io {
                            buttons: old(self).cpu.mmu.io.buttons.with_button(button, set),
                            ..old(self).cpu.mmu.io
                        },
                        ..old(self)@.cpu.mmu
                    },
                    ..old(self)@.cpu
                },
                ..old(self)@
            }),
            final(self).wf(),
    {
        let mut buttons = self.cpu.mmu.io.buttons;
        buttons.set_button(button, set);
        self.cpu.mmu.io.buttons = buttons;
    }

    /// Asks for the debugger before the next step.
    pub fn debug_break(&mut self)
        ensures
            final(self)@ == (GameboyView { should_break: true, ..old(self)@ }),
            old(self).wf() ==> final(self).wf(),
    {
        self.debug_status.should_break = true;
    }
}

} // verus!
