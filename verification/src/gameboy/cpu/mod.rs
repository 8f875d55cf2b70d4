//! The processor: the register file, the bus accesses that pace it,
//! and the instruction set.

pub mod alu;
pub mod instructions;
pub mod registers;

use self::registers::{word, RegisterIndex, Registers};
use super::cartridge::{bytes_of, CartridgeView};
use super::interrupts::Interrupt;
use super::mmu::{MemoryOps, Mmu, MmuView};
use crate::error::Error;
use vstd::prelude::*;

verus! {

/// Machine cycles of the longest instruction.
pub const MAX_TICKS_PER_INSTR: u8 = 6;

/// What the processor does on its next step.
#[derive(Clone, Copy, Debug, PartialEq, Eq)]
pub enum ExecutionState {
    /// It runs the next instruction.
    Continue,
    /// It stands still until a button is pressed.
    Stop,
    /// It met an opcode that names no instruction, and does no more.
    IllegalInstruction,
    /// It sleeps until an interrupt is pending.
    Halt,
}

/// The processor with the memory it drives.
#[derive(Clone, Debug, PartialEq, Eq)]
pub struct Cpu {
    pub registers: Registers,
    /// Whether interrupts are to be enabled after the next instruction.
    pub enable_ime: bool,
    pub mmu: Mmu,
    /// Master cycles of the steps taken since power on, counted
    /// modulo 2^64.
    pub cycles: u64,
    pub execution_state: ExecutionState,
    /// Machine cycles that the step in progress has taken; the
    /// count stops at 255.
    pub ticks: u8,
}

/// The processor with the cartridge's images as sequences of bytes.
pub struct CpuView {
    pub registers: Registers,
    pub enable_ime: bool,
    pub mmu: MmuView,
    pub cycles: u64,
    pub execution_state: ExecutionState,
    pub ticks: u8,
}

impl View for Cpu {
    type V = CpuView;

    open spec fn view(&self) -> CpuView {
        CpuView {
            registers: self.registers,
            enable_ime: self.enable_ime,
            mmu: self.mmu@,
            cycles: self.cycles,
            execution_state: self.execution_state,
            ticks: self.ticks,
        }
    }
}

/// A count of master cycles moved on, modulo 2^64.
pub open spec fn advanced(count: u64, by: int) -> u64 {
    ((count + by) % 0x1_0000_0000_0000_0000) as u64
}

/// The address after `address`, modulo 2^16.
pub open spec fn following(address: u16) -> u16 {
    if address == 0xFFFF {
        0
    } else {
        (address + 1) as u16
    }
}

impl CpuView {
    pub open spec fn wf(self) -> bool {
        self.mmu.wf()
    }

    pub open spec fn with_registers(self, registers: Registers) -> CpuView {
        CpuView { registers, ..self }
    }

    pub open spec fn with_pc(self, pc: u16) -> CpuView {
        CpuView { registers: Registers { pc, ..self.registers }, ..self }
    }

    /// The machine one machine cycle later: every unit behind the bus
    /// moves on, and the step has taken one machine cycle more.
    pub open spec fn ticked(self) -> CpuView {
        CpuView {
            mmu: self.mmu.ticked(),
            ticks: if self.ticks < 255 { (self.ticks + 1) as u8 } else { 255 },
            ..self
        }
    }

    /// The same for a stopped machine, of which only the joypad runs.
    pub open spec fn ticked_stopped(self) -> CpuView {
        CpuView {
            mmu: self.mmu.ticked_stopped(),
            ticks: if self.ticks < 255 { (self.ticks + 1) as u8 } else { 255 },
            ..self
        }
    }

    /// What a read of `address` returns: the bus ticks, then memory
    /// answers.
    pub open spec fn read_value(self, address: u16) -> u8 {
        self.ticked().mmu.read(address)
    }

    /// The machine after a write: the bus ticks, then memory takes the
    /// byte.
    pub open spec fn written(self, address: u16, value: u8) -> CpuView {
        CpuView { mmu: self.ticked().mmu.written(address, value), ..self.ticked() }
    }

    /// The byte at the program counter.
    pub open spec fn fetch_value(self) -> u8 {
        self.read_value(self.registers.pc)
    }

    /// The machine after that byte was fetched.
    pub open spec fn fetched(self) -> CpuView {
        self.ticked().with_pc(following(self.registers.pc))
    }

    /// The word at the program counter, low byte first.
    pub open spec fn fetch_word(self) -> u16 {
        word(self.fetched().fetch_value(), self.fetch_value())
    }

    pub open spec fn fetched_word(self) -> CpuView {
        self.fetched().fetched()
    }

    /// The stack pointer after a push.
    pub open spec fn sp_below(self) -> u16 {
        ((self.registers.sp + 0x1_0000 - 2) % 0x1_0000) as u16
    }

    /// The machine after a word was pushed: the stack pointer drops by
    /// two, the high byte is stored above the low one and before it.
    pub open spec fn pushed(self, value: u16) -> CpuView {
        let sp = self.sp_below();
        CpuView { registers: Registers { sp, ..self.registers }, ..self }.written(
            following(sp),
            (value / 256) as u8,
        ).written(sp, (value % 256) as u8)
    }

    /// The word on top of the stack, read low byte first.
    pub open spec fn pop_value(self) -> u16 {
        word(
            self.ticked().read_value(following(self.registers.sp)),
            self.read_value(self.registers.sp),
        )
    }

    /// The machine after a word was popped.
    pub open spec fn popped(self) -> CpuView {
        let read = self.ticked().ticked();
        CpuView {
            registers: Registers {
                sp: following(following(self.registers.sp)),
                ..read.registers
            },
            ..read
        }
    }

    /// The value that a register field names: a register, or the byte
    /// at HL, which costs a read.
    pub open spec fn r8_value(self, index: RegisterIndex) -> u8 {
        if index.indirect() {
            self.read_value(self.registers.hl_word())
        } else {
            self.registers.reg(index)
        }
    }

    /// The machine after that value was taken.
    pub open spec fn after_r8(self, index: RegisterIndex) -> CpuView {
        if index.indirect() {
            self.ticked()
        } else {
            self
        }
    }

    /// The machine after a value was stored where a register field
    /// names.
    pub open spec fn with_r8(self, index: RegisterIndex, value: u8) -> CpuView {
        if index.indirect() {
            self.written(self.registers.hl_word(), value)
        } else {
            self.with_registers(self.registers.with_reg(index, value))
        }
    }

    /// Whether the condition in bits 4 and 3 of an opcode holds: not
    /// zero, zero, no carry, carry.
    pub open spec fn condition(self, opcode: u8) -> bool {
        let code = (opcode / 8) % 4;
        if code == 0 {
            !self.registers.flags.zero
        } else if code == 1 {
            self.registers.flags.zero
        } else if code == 2 {
            !self.registers.flags.carry
        } else {
            self.registers.flags.carry
        }
    }
}

impl Cpu {
    pub open spec fn wf(&self) -> bool {
        self@.wf()
    }

    /// Whether this machine is the outcome `after` of a well-formed
    /// one, reached in `ticks` machine cycles from `before`.
    pub open spec fn follows(self, before: Cpu, after: CpuView, ticks: int) -> bool {
        &&& self@ == after
        &&& self.wf()
        &&& self.cycles == before.cycles
        &&& before.ticks + ticks <= 255 ==> self.ticks == before.ticks + ticks
    }

    /// The processor at power on for a machine built at time `now`:
    /// with a boot image the registers are zero, without one they are
    /// as the boot program leaves them.
    pub fn new_at(rom: Vec<u8>, bootrom: Option<Vec<u8>>, save: Option<Vec<u8>>, now: u64) -> (r:
        Result<Self, Error>)
        ensures
            ({
                let built = CartridgeView::built(rom@, bytes_of(bootrom), bytes_of(save), now);
                &&& r is Ok <==> built is Ok
                &&& r matches Err(e) ==> built == Err::<CartridgeView, Error>(e)
                &&& r matches Ok(cpu) ==> {
                    &&& cpu.wf()
                    &&& built == Ok::<CartridgeView, Error>(cpu@.mmu.cartridge)
                    &&& cpu.mmu.is_fresh(bootrom is Some)
                    &&& cpu.registers == (if bootrom is Some {
                        Registers::zeroed()
                    } else {
                        Registers::post_bootrom()
                    })
                    &&& !cpu.enable_ime
                    &&& cpu.cycles == 0
                    &&& cpu.ticks == 0
                    &&& cpu.execution_state is Continue
                }
            }),
    {
        let registers = if bootrom.is_some() {
            Registers::new()
        } else {
            Registers::new_post_bootrom()
        };
        let mmu = match Mmu::new_at(rom, bootrom, save, now) {
            Ok(mmu) => mmu,
            Err(e) => {
                return Err(e);
            },
        };
        Ok(
            Cpu {
                registers,
                enable_ime: false,
                mmu,
                cycles: 0,
                execution_state: ExecutionState::Continue,
                ticks: 0,
            },
        )
    }

    /// The processor at power on; a saved clock that was running is
    /// moved on to the system's time.
    pub fn new(rom: Vec<u8>, bootrom: Option<Vec<u8>>, save: Option<Vec<u8>>) -> (r: Result<
        Self,
        Error,
    >)
        ensures
            exists|now: u64|
                {
                    let built = #[trigger] CartridgeView::built(
                        rom@,
                        bytes_of(bootrom),
                        bytes_of(save),
                        now,
                    );
                    &&& r is Ok <==> built is Ok
                    &&& r matches Err(e) ==> built == Err::<CartridgeView, Error>(e)
                    &&& r matches Ok(cpu) ==> {
                        &&& cpu.wf()
                        &&& built == Ok::<CartridgeView, Error>(cpu@.mmu.cartridge)
                        &&& cpu.mmu.is_fresh(bootrom is Some)
                        &&& cpu.registers == (if bootrom is Some {
                            Registers::zeroed()
                        } else {
                            Registers::post_bootrom()
                        })
                        &&& !cpu.enable_ime
                        &&& cpu.cycles == 0
                        &&& cpu.ticks == 0
                        &&& cpu.execution_state is Continue
                    }
                },
    {
        let now = crate::gameboy::cartridge::mbc3::system_time();
        Self::new_at(rom, bootrom, save, now)
    }

    /// Passes one machine cycle.
    pub fn tick(&mut self)
        requires
            old(self).wf(),
        ensures
            final(self).follows(*old(self), old(self)@.ticked(), 1),
    {
        if self.ticks < 255 {
            self.ticks += 1;
        }
        self.mmu.tick();
    }

    /// Passes one machine cycle of a stopped machine.
    pub fn tick_stopped(&mut self)
        requires
            old(self).wf(),
        ensures
            final(self).follows(*old(self), old(self)@.ticked_stopped(), 1),
    {
        if self.ticks < 255 {
            self.ticks += 1;
        }
        self.mmu.tick_stopped();
    }

    pub fn fetch_byte_pc(&mut self) -> (r: u8)
        requires
            old(self).wf(),
        ensures
            r == old(self)@.fetch_value(),
            final(self).follows(*old(self), old(self)@.fetched(), 1),
    {
        let value = self.read_byte(self.registers.pc);
        let mut registers = self.registers;
        registers.pc = registers.pc.wrapping_add(1);
        self.registers = registers;
        value
    }

    pub fn fetch_dbyte_pc(&mut self) -> (r: u16)
        requires
            old(self).wf(),
        ensures
            r == old(self)@.fetch_word(),
            final(self).follows(*old(self), old(self)@.fetched_word(), 2),
    {
        let lower = self.fetch_byte_pc();
        let upper = self.fetch_byte_pc();
        upper as u16 * 256 + lower as u16
    }

    /// Spends a machine cycle on setting the program counter.
    pub fn set_pc_tick(&mut self, address: u16)
        requires
            old(self).wf(),
        ensures
            final(self).follows(*old(self), old(self)@.ticked().with_pc(address), 1),
    {
        self.tick();
        let mut registers = self.registers;
        registers.pc = address;
        self.registers = registers;
    }

    pub fn r(&mut self, index: RegisterIndex) -> (r: u8)
        requires
            old(self).wf(),
            index.wf(),
        ensures
            r == old(self)@.r8_value(index),
            final(self).follows(
                *old(self),
                old(self)@.after_r8(index),
                if index.indirect() { 1int } else { 0 },
            ),
    {
        if index.value() == 6 {
            self.read_byte(self.registers.hl())
        } else {
            self.registers.r(index)
        }
    }

    pub fn set_r(&mut self, index: RegisterIndex, value: u8)
        requires
            old(self).wf(),
            index.wf(),
        ensures
            final(self).follows(
                *old(self),
                old(self)@.with_r8(index, value),
                if index.indirect() { 1int } else { 0 },
            ),
    {
        if index.value() == 6 {
            self.write_byte(self.registers.hl(), value);
        } else {
            let mut registers = self.registers;
            registers.set_r(index, value);
            self.registers = registers;
        }
    }

    pub fn test_cc(&self, opcode: u8) -> (r: bool)
        ensures
            r == self@.condition(opcode),
    {
        let code: u8 = (opcode / 8) % 4;
        if code == 0 {
            !self.registers.flags.zero()
        } else if code == 1 {
            self.registers.flags.zero()
        } else if code == 2 {
            !self.registers.flags.carry()
        } else {
            self.registers.flags.carry()
        }
    }

    pub fn pop_stack(&mut self) -> (r: u16)
        requires
            old(self).wf(),
        ensures
            r == old(self)@.pop_value(),
            final(self).follows(*old(self), old(self)@.popped(), 2),
    {
        let value = self.read_dbyte(self.registers.sp);
        let mut registers = self.registers;
        registers.sp = registers.sp.wrapping_add(2);
        self.registers = registers;
        value
    }

    pub fn push_stack(&mut self, value: u16)
        requires
            old(self).wf(),
        ensures
            final(self).follows(*old(self), old(self)@.pushed(value), 2),
    {
        let mut registers = self.registers;
        registers.sp = registers.sp.wrapping_sub(2);
        self.registers = registers;
        self.write_dbyte(self.registers.sp, value);
    }
}

impl MemoryOps for Cpu {
    open spec fn wf(&self) -> bool {
        self@.wf()
    }

    open spec fn read_result(state: CpuView, address: u16) -> u8 {
        state.read_value(address)
    }

    open spec fn after_read(state: CpuView, address: u16) -> CpuView {
        state.ticked()
    }

    open spec fn after_write(state: CpuView, address: u16, value: u8) -> CpuView {
        state.written(address, value)
    }

    fn read_byte(&mut self, address: u16) -> (r: u8)
        ensures
            old(self).ticks < 255 ==> final(self).ticks == old(self).ticks + 1,
    {
        self.tick();
        self.mmu.read_byte_no_conflict(address)
    }

    fn write_byte(&mut self, address: u16, value: u8)
        ensures
            old(self).ticks < 255 ==> final(self).ticks == old(self).ticks + 1,
    {
        self.tick();
        self.mmu.write_byte_no_conflict(address, value);
    }
}


impl CpuView {
    /// The machine after an interrupt was taken, which costs five
    /// machine cycles: two pass, the program counter is pushed, and
    /// one more passes as the handler's address is loaded. The
    /// request is cleared and interrupts are disabled.
    #[verifier::opaque]
    pub open spec fn interrupt_served(self, interrupt: Interrupt) -> CpuView {
        let loaded = self.ticked().ticked().pushed(self.registers.pc).ticked();
        CpuView {
            registers: Registers { pc: interrupt.vector(), ime: false, ..loaded.registers },
            mmu: loaded.mmu.with_interrupt_reset(interrupt),
            ..loaded
        }
    }

    /// The machine with interrupts enabled where the instruction
    /// before asked for it.
    pub open spec fn armed(self) -> CpuView {
        if self.enable_ime {
            CpuView {
                enable_ime: false,
                registers: Registers { ime: true, ..self.registers },
                ..self
            }
        } else {
            self
        }
    }

    /// The machine after the instruction at the program counter.
    pub open spec fn instruction_run(self) -> CpuView {
        self.armed().fetched().executed(self.armed().fetch_value())
    }

    /// Whether the step takes an interrupt: interrupts are enabled and
    /// one is both requested and enabled.
    pub open spec fn serves(self) -> bool {
        self.registers.ime && self.mmu.pending().first() is Some
    }

    /// A step of a running machine: the pending interrupt of highest
    /// priority is taken, or else an instruction runs.
    pub open spec fn run(self) -> CpuView {
        if self.serves() {
            self.interrupt_served(self.mmu.pending().first()->0)
        } else {
            self.instruction_run()
        }
    }

    /// What a step does before the master cycles are counted. A
    /// halted machine passes a machine cycle unless an interrupt is
    /// pending, which wakes it whether interrupts are enabled or not.
    /// A stopped machine does the same with only the joypad running.
    /// A machine that met an illegal opcode passes machine cycles for
    /// ever.
    pub open spec fn step_work(self) -> CpuView {
        let start = CpuView { ticks: 0, ..self };
        match self.execution_state {
            ExecutionState::Continue => start.run(),
            ExecutionState::Halt => if self.mmu.pending().none() {
                start.ticked()
            } else {
                CpuView { execution_state: ExecutionState::Continue, ..start }.run()
            },
            ExecutionState::Stop => if self.mmu.pending().none() {
                start.ticked_stopped()
            } else {
                CpuView { execution_state: ExecutionState::Continue, ..start }.run()
            },
            ExecutionState::IllegalInstruction => start.ticked(),
        }
    }

    /// The machine one step later: the step's work is done and four
    /// master cycles are counted for each machine cycle it took.
    pub open spec fn stepped(self) -> CpuView {
        let done = self.step_work();
        CpuView { cycles: advanced(self.cycles, 4 * done.ticks), ..done }
    }
}

impl Cpu {
    fn serve_interrupt(&mut self, interrupt: Interrupt)
        requires
            old(self).wf(),
        ensures
            final(self).follows(*old(self), old(self)@.interrupt_served(interrupt), 5),
    {
        reveal(CpuView::interrupt_served);
        let from = self.registers.pc;
        self.tick();
        self.tick();
        self.push_stack(from);
        self.tick();
        let mut registers = self.registers;
        registers.pc = interrupt.address();
        registers.ime = false;
        self.registers = registers;
        self.mmu.reset_interrupt(interrupt);
    }

    fn run_instruction(&mut self)
        requires
            old(self).wf(),
        ensures
            final(self)@ == old(self)@.instruction_run(),
            final(self).wf(),
            final(self).took(*old(self), 1, 6),
    {
        if self.enable_ime {
            self.enable_ime = false;
            let mut registers = self.registers;
            registers.ime = true;
            self.registers = registers;
        }
        let opcode = self.fetch_byte_pc();
        self.execute(opcode);
    }

    fn run(&mut self)
        requires
            old(self).wf(),
        ensures
            final(self)@ == old(self)@.run(),
            final(self).wf(),
            final(self).took(*old(self), 1, 6),
    {
        if self.registers.ime {
            if let Some(interrupt) = self.mmu.next_interrupt() {
                self.serve_interrupt(interrupt);
                return ;
            }
        }
        self.run_instruction();
    }

    fn work(&mut self)
        requires
            old(self).wf(),
        ensures
            final(self)@ == old(self)@.step_work(),
            final(self).wf(),
            1 <= final(self).ticks <= MAX_TICKS_PER_INSTR,
            final(self).cycles == old(self).cycles,
    {
        self.ticks = 0;
        match self.execution_state {
            ExecutionState::Continue => self.run(),
            ExecutionState::Halt => {
                if self.mmu.interrupts().is_empty() {
                    self.tick();
                } else {
                    self.execution_state = ExecutionState::Continue;
                    self.run();
                }
            },
            ExecutionState::Stop => {
                if self.mmu.interrupts().is_empty() {
                    self.tick_stopped();
                } else {
                    self.execution_state = ExecutionState::Continue;
                    self.run();
                }
            },
            ExecutionState::IllegalInstruction => self.tick(),
        }
    }

    /// Takes one step: serves an interrupt, runs an instruction, or
    /// passes a machine cycle asleep. Returns the master cycles
    /// counted since power on.
    ///
    /// A step takes from one to six machine cycles, each of which is
    /// one tick of the bus, and counts four master cycles for each.
    pub fn next_instruction(&mut self) -> (r: u64)
        requires
            old(self).wf(),
        ensures
            final(self)@ == old(self)@.stepped(),
            final(self).wf(),
            r == final(self).cycles,
            1 <= final(self).ticks <= MAX_TICKS_PER_INSTR,
            final(self).cycles == advanced(old(self).cycles, 4 * final(self).ticks),
    {
        self.work();
        self.cycles = self.cycles.wrapping_add(4 * self.ticks as u64);
        self.cycles
    }
}

} // verus!
