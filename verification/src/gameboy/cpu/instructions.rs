//! The instruction set: what each instruction makes of the machine,
//! and the code that carries it out over the bus.
//!
//! Every function here starts where the opcode has been fetched.

use super::alu;
use super::alu::{Alu, Alu16};
use super::registers::{DoubleRegisterIndex, Flags, RegisterIndex, Registers};
use super::{following, Cpu, CpuView, ExecutionState};
use crate::gameboy::mmu::MemoryOps;
use vstd::prelude::*;

verus! {

/// One where a register field stands for memory, which costs a bus
/// access, and zero where it names a register.
pub open spec fn access_ticks(index: RegisterIndex) -> int {
    if index.indirect() {
        1
    } else {
        0
    }
}

/// The address in the page of the input and output registers.
pub open spec fn high_page(offset: u8) -> u16 {
    (0xFF00 + offset) as u16
}

/// The word after `value`, modulo 2^16.
pub open spec fn word_after(value: u16) -> u16 {
    following(value)
}

/// The word before `value`, modulo 2^16.
pub open spec fn word_before(value: u16) -> u16 {
    if value == 0 {
        0xFFFF
    } else {
        (value - 1) as u16
    }
}

/// What one of the eight accumulator operations makes of the
/// registers: add, add with carry, subtract, subtract with carry, and,
/// exclusive or, or, compare. A compare leaves the accumulator.
pub open spec fn accumulated(registers: Registers, kind: u8, operand: u8) -> Registers {
    let a = registers.a;
    let carry = registers.flags.carry;
    let result = if kind == 0 {
        alu::added(a, operand, false)
    } else if kind == 1 {
        alu::added(a, operand, carry)
    } else if kind == 2 {
        alu::subtracted(a, operand, false)
    } else if kind == 3 {
        alu::subtracted(a, operand, carry)
    } else if kind == 4 {
        alu::anded(a, operand)
    } else if kind == 5 {
        alu::xored(a, operand)
    } else if kind == 6 {
        alu::ored(a, operand)
    } else {
        Alu { value: a, flags: alu::subtracted(a, operand, false).flags }
    };
    Registers { a: result.value, flags: result.flags, ..registers }
}

/// What one of the eight shifts of the prefixed opcodes makes of a
/// value: rotate left, rotate right, both through carry, shift left,
/// shift right keeping the sign, swap the nibbles, shift right.
pub open spec fn shifted_by(kind: u8, value: u8, carry: bool) -> Alu {
    if kind == 0 {
        alu::rotated_left(value)
    } else if kind == 1 {
        alu::rotated_right(value)
    } else if kind == 2 {
        alu::rotated_left_through(value, carry)
    } else if kind == 3 {
        alu::rotated_right_through(value, carry)
    } else if kind == 4 {
        alu::shifted_left(value)
    } else if kind == 5 {
        alu::shifted_right_signed(value)
    } else if kind == 6 {
        alu::swapped(value)
    } else {
        alu::shifted_right(value)
    }
}

impl CpuView {
    pub open spec fn with_state(self, execution_state: ExecutionState) -> CpuView {
        CpuView { execution_state, ..self }
    }

    pub open spec fn with_a(self, a: u8) -> CpuView {
        self.with_registers(Registers { a, ..self.registers })
    }

    pub open spec fn with_flags(self, flags: Flags) -> CpuView {
        self.with_registers(Registers { flags, ..self.registers })
    }

    pub open spec fn with_result(self, result: Alu) -> CpuView {
        self.with_registers(Registers { a: result.value, flags: result.flags, ..self.registers })
    }

    /// `LD r, r'`.
    #[verifier::opaque]
    pub open spec fn ld_r_r(self, opcode: u8) -> CpuView {
        let source = RegisterIndex::second_of(opcode);
        self.after_r8(source).with_r8(RegisterIndex::first_of(opcode), self.r8_value(source))
    }

    /// `LD r, n`.
    #[verifier::opaque]
    pub open spec fn ld_r_u8(self, opcode: u8) -> CpuView {
        self.fetched().with_r8(RegisterIndex::first_of(opcode), self.fetch_value())
    }

    /// `LD rr, nn`.
    #[verifier::opaque]
    pub open spec fn ld_rr_u16(self, opcode: u8) -> CpuView {
        let after = self.fetched_word();
        after.with_registers(
            after.registers.with_pair(DoubleRegisterIndex::of(opcode), self.fetch_word()),
        )
    }

    /// `LD A, (BC)` and `LD A, (DE)`.
    #[verifier::opaque]
    pub open spec fn ld_a_mrr(self, opcode: u8) -> CpuView {
        self.ticked().with_a(
            self.read_value(self.registers.pair(DoubleRegisterIndex::of(opcode))),
        )
    }

    /// `LD (BC), A` and `LD (DE), A`.
    #[verifier::opaque]
    pub open spec fn ld_mrr_a(self, opcode: u8) -> CpuView {
        self.written(self.registers.pair(DoubleRegisterIndex::of(opcode)), self.registers.a)
    }

    /// `LD (HL+), A` and `LD (HL-), A`.
    #[verifier::opaque]
    pub open spec fn ld_mhl_a(self, up: bool) -> CpuView {
        let hl = self.registers.hl_word();
        let after = self.written(hl, self.registers.a);
        after.with_registers(
            after.registers.with_hl(if up { word_after(hl) } else { word_before(hl) }),
        )
    }

    /// `LD A, (HL+)` and `LD A, (HL-)`.
    #[verifier::opaque]
    pub open spec fn ld_a_mhl(self, up: bool) -> CpuView {
        let hl = self.registers.hl_word();
        let after = self.ticked().with_a(self.read_value(hl));
        after.with_registers(
            after.registers.with_hl(if up { word_after(hl) } else { word_before(hl) }),
        )
    }

    /// `LD A, (nn)`.
    #[verifier::opaque]
    pub open spec fn ld_a_mu16(self) -> CpuView {
        let after = self.fetched_word();
        after.ticked().with_a(after.read_value(self.fetch_word()))
    }

    /// `LD (nn), A`.
    #[verifier::opaque]
    pub open spec fn ld_mu16_a(self) -> CpuView {
        self.fetched_word().written(self.fetch_word(), self.registers.a)
    }

    /// `LD (nn), SP`.
    #[verifier::opaque]
    pub open spec fn ld_mu16_sp(self) -> CpuView {
        let address = self.fetch_word();
        let sp = self.registers.sp;
        self.fetched_word().written(following(address), (sp / 256) as u8).written(
            address,
            (sp % 256) as u8,
        )
    }

    /// `LD HL, SP+e`.
    #[verifier::opaque]
    pub open spec fn ld_hl_spu8(self) -> CpuView {
        let result = alu::added_offset(self.registers.sp, self.fetch_value());
        let after = self.fetched().ticked();
        after.with_registers(
            Registers { flags: result.flags, ..after.registers }.with_hl(result.value),
        )
    }

    /// `LD SP, HL`.
    #[verifier::opaque]
    pub open spec fn ld_sp_hl(self) -> CpuView {
        let after = self.ticked();
        after.with_registers(Registers { sp: self.registers.hl_word(), ..after.registers })
    }

    /// `LDH (n), A`.
    #[verifier::opaque]
    pub open spec fn ldh_mu8_a(self) -> CpuView {
        self.fetched().written(high_page(self.fetch_value()), self.registers.a)
    }

    /// `LDH A, (n)`.
    #[verifier::opaque]
    pub open spec fn ldh_a_mu8(self) -> CpuView {
        let after = self.fetched();
        after.ticked().with_a(after.read_value(high_page(self.fetch_value())))
    }

    /// `LDH (C), A`.
    #[verifier::opaque]
    pub open spec fn ldh_mc_a(self) -> CpuView {
        self.written(high_page(self.registers.c), self.registers.a)
    }

    /// `LDH A, (C)`.
    #[verifier::opaque]
    pub open spec fn ldh_a_mc(self) -> CpuView {
        self.ticked().with_a(self.read_value(high_page(self.registers.c)))
    }

    /// `INC r`.
    #[verifier::opaque]
    pub open spec fn inc_r(self, opcode: u8) -> CpuView {
        let index = RegisterIndex::first_of(opcode);
        let result = alu::incremented(self.r8_value(index), self.registers.flags);
        self.after_r8(index).with_flags(result.flags).with_r8(index, result.value)
    }

    /// `DEC r`.
    #[verifier::opaque]
    pub open spec fn dec_r(self, opcode: u8) -> CpuView {
        let index = RegisterIndex::first_of(opcode);
        let result = alu::decremented(self.r8_value(index), self.registers.flags);
        self.after_r8(index).with_flags(result.flags).with_r8(index, result.value)
    }

    /// `INC rr` and `DEC rr`.
    #[verifier::opaque]
    pub open spec fn step_rr(self, opcode: u8, up: bool) -> CpuView {
        let index = DoubleRegisterIndex::of(opcode);
        let value = self.registers.pair(index);
        let after = self.ticked();
        after.with_registers(
            after.registers.with_pair(index, if up { word_after(value) } else { word_before(value) }),
        )
    }

    /// The eight accumulator operations on a register or on the byte
    /// at HL.
    #[verifier::opaque]
    pub open spec fn alu_a_r(self, opcode: u8) -> CpuView {
        let index = RegisterIndex::second_of(opcode);
        let after = self.after_r8(index);
        after.with_registers(accumulated(after.registers, (opcode / 8) % 8, self.r8_value(index)))
    }

    /// The eight accumulator operations on the byte after the opcode.
    #[verifier::opaque]
    pub open spec fn alu_a_u8(self, opcode: u8) -> CpuView {
        let after = self.fetched();
        after.with_registers(accumulated(after.registers, (opcode / 8) % 8, self.fetch_value()))
    }

    /// `ADD HL, rr`.
    #[verifier::opaque]
    pub open spec fn add_hl_rr(self, opcode: u8) -> CpuView {
        let result = alu::added_words(
            self.registers.hl_word(),
            self.registers.pair(DoubleRegisterIndex::of(opcode)),
            self.registers.flags,
        );
        let after = self.ticked();
        after.with_registers(
            Registers { flags: result.flags, ..after.registers }.with_hl(result.value),
        )
    }

    /// `ADD SP, e`.
    #[verifier::opaque]
    pub open spec fn add_sp_r8(self) -> CpuView {
        let result = alu::added_offset(self.registers.sp, self.fetch_value());
        let after = self.fetched().ticked().ticked();
        after.with_registers(Registers { sp: result.value, flags: result.flags, ..after.registers })
    }

    /// `RLCA`, `RRCA`, `RLA` and `RRA`, by bits 4 and 3 of the opcode.
    #[verifier::opaque]
    pub open spec fn rotate_a(self, opcode: u8) -> CpuView {
        self.with_result(
            alu::without_zero(
                shifted_by((opcode / 8) % 4, self.registers.a, self.registers.flags.carry),
            ),
        )
    }

    #[verifier::opaque]
    pub open spec fn daa(self) -> CpuView {
        self.with_result(alu::decimal_adjusted(self.registers.a, self.registers.flags))
    }

    #[verifier::opaque]
    pub open spec fn cpl(self) -> CpuView {
        self.with_result(alu::complemented(self.registers.a, self.registers.flags))
    }

    #[verifier::opaque]
    pub open spec fn scf(self) -> CpuView {
        self.with_flags(
            Flags { negative: false, half_carry: false, carry: true, ..self.registers.flags },
        )
    }

    #[verifier::opaque]
    pub open spec fn ccf(self) -> CpuView {
        self.with_flags(
            Flags {
                negative: false,
                half_carry: false,
                carry: !self.registers.flags.carry,
                ..self.registers.flags
            },
        )
    }

    /// `JP nn`.
    #[verifier::opaque]
    pub open spec fn jp_u16(self) -> CpuView {
        self.fetched_word().ticked().with_pc(self.fetch_word())
    }

    /// `JP HL`.
    #[verifier::opaque]
    pub open spec fn jp_hl(self) -> CpuView {
        self.with_pc(self.registers.hl_word())
    }

    /// `JP cc, nn`.
    #[verifier::opaque]
    pub open spec fn jp_cc_u16(self, opcode: u8) -> CpuView {
        if self.condition(opcode) {
            self.jp_u16()
        } else {
            self.fetched_word()
        }
    }

    /// `JR e`.
    #[verifier::opaque]
    pub open spec fn jr_r8(self) -> CpuView {
        let after = self.fetched();
        after.ticked().with_pc(alu::displaced(after.registers.pc, self.fetch_value()))
    }

    /// `JR cc, e`.
    #[verifier::opaque]
    pub open spec fn jr_cc(self, opcode: u8) -> CpuView {
        if self.condition(opcode) {
            self.jr_r8()
        } else {
            self.fetched()
        }
    }

    /// `CALL nn`.
    #[verifier::opaque]
    pub open spec fn call_u16(self) -> CpuView {
        let after = self.fetched_word();
        after.ticked().pushed(after.registers.pc).with_pc(self.fetch_word())
    }

    /// `CALL cc, nn`.
    #[verifier::opaque]
    pub open spec fn call_cc_u16(self, opcode: u8) -> CpuView {
        if self.condition(opcode) {
            self.call_u16()
        } else {
            self.fetched_word()
        }
    }

    /// `RET`.
    #[verifier::opaque]
    pub open spec fn ret(self) -> CpuView {
        self.popped().ticked().with_pc(self.pop_value())
    }

    /// `RETI`.
    #[verifier::opaque]
    pub open spec fn reti(self) -> CpuView {
        let after = self.ret();
        after.with_registers(Registers { ime: true, ..after.registers })
    }

    /// `RET cc`.
    #[verifier::opaque]
    pub open spec fn ret_cc(self, opcode: u8) -> CpuView {
        if self.condition(opcode) {
            self.ticked().ret()
        } else {
            self.ticked()
        }
    }

    /// `RST`: a call of the address in bits 5 to 3 of the opcode.
    #[verifier::opaque]
    pub open spec fn rst(self, opcode: u8) -> CpuView {
        self.ticked().pushed(self.registers.pc).with_pc((((opcode / 8) % 8) * 8) as u16)
    }

    /// `PUSH rr`.
    #[verifier::opaque]
    pub open spec fn push_rr(self, opcode: u8) -> CpuView {
        self.ticked().pushed(self.registers.pair(DoubleRegisterIndex::of(opcode)))
    }

    /// `PUSH AF`.
    #[verifier::opaque]
    pub open spec fn push_af(self) -> CpuView {
        self.ticked().pushed(self.registers.af_word())
    }

    /// `POP rr`.
    #[verifier::opaque]
    pub open spec fn pop_rr(self, opcode: u8) -> CpuView {
        let after = self.popped();
        after.with_registers(
            after.registers.with_pair(DoubleRegisterIndex::of(opcode), self.pop_value()),
        )
    }

    /// `POP AF`.
    #[verifier::opaque]
    pub open spec fn pop_af(self) -> CpuView {
        let after = self.popped();
        after.with_registers(after.registers.with_af(self.pop_value()))
    }

    /// `EI`: interrupts are enabled after the next instruction.
    #[verifier::opaque]
    pub open spec fn ei(self) -> CpuView {
        CpuView { enable_ime: true, ..self }
    }

    /// `DI`: interrupts are disabled at once.
    #[verifier::opaque]
    pub open spec fn di(self) -> CpuView {
        CpuView { enable_ime: false, ..self }.with_registers(
            Registers { ime: false, ..self.registers },
        )
    }

    /// The prefixed opcodes, from where the second opcode byte has
    /// been fetched: shifts below 0x40, then bit tests, bit clears and
    /// bit sets, with the bit in bits 5 to 3 and the register in bits
    /// 2 to 0.
    #[verifier::opaque]
    pub open spec fn cb_executed(self, opcode: u8) -> CpuView {
        let index = RegisterIndex::second_of(opcode);
        let value = self.r8_value(index);
        let after = self.after_r8(index);
        let bit = (opcode / 8) % 8;
        if opcode < 0x40 {
            let result = shifted_by(bit, value, self.registers.flags.carry);
            after.with_flags(result.flags).with_r8(index, result.value)
        } else if opcode < 0x80 {
            after.with_flags(alu::bit_tested(value, bit, self.registers.flags))
        } else if opcode < 0xC0 {
            after.with_r8(index, alu::bit_cleared(value, bit))
        } else {
            after.with_r8(index, alu::bit_raised(value, bit))
        }
    }

    /// The prefix opcode.
    #[verifier::opaque]
    pub open spec fn prefix_cb(self) -> CpuView {
        self.fetched().cb_executed(self.fetch_value())
    }
}

impl Cpu {
    fn set_registers(&mut self, registers: Registers)
        requires
            old(self).wf(),
        ensures
            final(self).follows(*old(self), old(self)@.with_registers(registers), 0),
    {
        self.registers = registers;
    }

    fn set_state(&mut self, execution_state: ExecutionState)
        requires
            old(self).wf(),
        ensures
            final(self).follows(*old(self), old(self)@.with_state(execution_state), 0),
    {
        self.execution_state = execution_state;
    }

    fn set_a(&mut self, a: u8)
        requires
            old(self).wf(),
        ensures
            final(self).follows(*old(self), old(self)@.with_a(a), 0),
    {
        let mut registers = self.registers;
        registers.a = a;
        self.registers = registers;
    }

    fn set_flags(&mut self, flags: Flags)
        requires
            old(self).wf(),
        ensures
            final(self).follows(*old(self), old(self)@.with_flags(flags), 0),
    {
        let mut registers = self.registers;
        registers.flags = flags;
        self.registers = registers;
    }

    fn set_result(&mut self, result: Alu)
        requires
            old(self).wf(),
        ensures
            final(self).follows(*old(self), old(self)@.with_result(result), 0),
    {
        let mut registers = self.registers;
        registers.a = result.value;
        registers.flags = result.flags;
        self.registers = registers;
    }

    fn set_pc(&mut self, pc: u16)
        requires
            old(self).wf(),
        ensures
            final(self).follows(*old(self), old(self)@.with_pc(pc), 0),
    {
        let mut registers = self.registers;
        registers.pc = pc;
        self.registers = registers;
    }

    pub fn ld_r_r(&mut self, opcode: u8)
        requires
            old(self).wf(),
        ensures
            final(self).follows(
                *old(self),
                old(self)@.ld_r_r(opcode),
                access_ticks(RegisterIndex::second_of(opcode)) + access_ticks(
                    RegisterIndex::first_of(opcode),
                ),
            ),
    {
        reveal(CpuView::ld_r_r);
        let target = RegisterIndex::from_opcode_first(opcode);
        let value = self.r(RegisterIndex::from_opcode_second(opcode));
        self.set_r(target, value);
    }

    pub fn ld_r_u8(&mut self, opcode: u8)
        requires
            old(self).wf(),
        ensures
            final(self).follows(
                *old(self),
                old(self)@.ld_r_u8(opcode),
                1 + access_ticks(RegisterIndex::first_of(opcode)),
            ),
    {
        reveal(CpuView::ld_r_u8);
        let index = RegisterIndex::from_opcode_first(opcode);
        let value = self.fetch_byte_pc();
        self.set_r(index, value);
    }

    pub fn ld_rr_u16(&mut self, opcode: u8)
        requires
            old(self).wf(),
        ensures
            final(self).follows(*old(self), old(self)@.ld_rr_u16(opcode), 2),
    {
        reveal(CpuView::ld_rr_u16);
        let value = self.fetch_dbyte_pc();
        let mut registers = self.registers;
        registers.set_rr(DoubleRegisterIndex::from_opcode(opcode), value);
        self.set_registers(registers);
    }

    pub fn ld_a_mrr(&mut self, opcode: u8)
        requires
            old(self).wf(),
        ensures
            final(self).follows(*old(self), old(self)@.ld_a_mrr(opcode), 1),
    {
        reveal(CpuView::ld_a_mrr);
        let address = self.registers.rr(DoubleRegisterIndex::from_opcode(opcode));
        let value = self.read_byte(address);
        self.set_a(value);
    }

    pub fn ld_mrr_a(&mut self, opcode: u8)
        requires
            old(self).wf(),
        ensures
            final(self).follows(*old(self), old(self)@.ld_mrr_a(opcode), 1),
    {
        reveal(CpuView::ld_mrr_a);
        let address = self.registers.rr(DoubleRegisterIndex::from_opcode(opcode));
        self.write_byte(address, self.registers.a);
    }

    fn move_hl(&mut self, from: u16, up: bool)
        requires
            old(self).wf(),
        ensures
            final(self).follows(
                *old(self),
                old(self)@.with_registers(
                    old(self).registers.with_hl(
                        if up { word_after(from) } else { word_before(from) },
                    ),
                ),
                0,
            ),
    {
        let mut registers = self.registers;
        registers.set_hl(if up { from.wrapping_add(1) } else { from.wrapping_sub(1) });
        self.registers = registers;
    }

    pub fn ld_mhl_a(&mut self, up: bool)
        requires
            old(self).wf(),
        ensures
            final(self).follows(*old(self), old(self)@.ld_mhl_a(up), 1),
    {
        reveal(CpuView::ld_mhl_a);
        let address = self.registers.hl();
        self.write_byte(address, self.registers.a);
        self.move_hl(address, up);
    }

    pub fn ld_a_mhl(&mut self, up: bool)
        requires
            old(self).wf(),
        ensures
            final(self).follows(*old(self), old(self)@.ld_a_mhl(up), 1),
    {
        reveal(CpuView::ld_a_mhl);
        let address = self.registers.hl();
        let value = self.read_byte(address);
        self.set_a(value);
        self.move_hl(address, up);
    }

    pub fn ld_a_mu16(&mut self)
        requires
            old(self).wf(),
        ensures
            final(self).follows(*old(self), old(self)@.ld_a_mu16(), 3),
    {
        reveal(CpuView::ld_a_mu16);
        let address = self.fetch_dbyte_pc();
        let value = self.read_byte(address);
        self.set_a(value);
    }

    pub fn ld_mu16_a(&mut self)
        requires
            old(self).wf(),
        ensures
            final(self).follows(*old(self), old(self)@.ld_mu16_a(), 3),
    {
        reveal(CpuView::ld_mu16_a);
        let address = self.fetch_dbyte_pc();
        self.write_byte(address, self.registers.a);
    }

    pub fn ld_mu16_sp(&mut self)
        requires
            old(self).wf(),
        ensures
            final(self).follows(*old(self), old(self)@.ld_mu16_sp(), 4),
    {
        reveal(CpuView::ld_mu16_sp);
        let address = self.fetch_dbyte_pc();
        self.write_dbyte(address, self.registers.sp);
    }

    pub fn ld_hl_spu8(&mut self)
        requires
            old(self).wf(),
        ensures
            final(self).follows(*old(self), old(self)@.ld_hl_spu8(), 2),
    {
        reveal(CpuView::ld_hl_spu8);
        let sp = self.registers.sp;
        let offset = self.fetch_byte_pc();
        let result = alu::add_offset(sp, offset);
        self.tick();
        let mut registers = self.registers;
        registers.flags = result.flags;
        registers.set_hl(result.value);
        self.set_registers(registers);
    }

    pub fn ld_sp_hl(&mut self)
        requires
            old(self).wf(),
        ensures
            final(self).follows(*old(self), old(self)@.ld_sp_hl(), 1),
    {
        reveal(CpuView::ld_sp_hl);
        self.tick();
        let mut registers = self.registers;
        registers.sp = registers.hl();
        self.set_registers(registers);
    }

    pub fn ldh_mu8_a(&mut self)
        requires
            old(self).wf(),
        ensures
            final(self).follows(*old(self), old(self)@.ldh_mu8_a(), 2),
    {
        reveal(CpuView::ldh_mu8_a);
        let address = 0xFF00 + self.fetch_byte_pc() as u16;
        self.write_byte(address, self.registers.a);
    }

    pub fn ldh_a_mu8(&mut self)
        requires
            old(self).wf(),
        ensures
            final(self).follows(*old(self), old(self)@.ldh_a_mu8(), 2),
    {
        reveal(CpuView::ldh_a_mu8);
        let address = 0xFF00 + self.fetch_byte_pc() as u16;
        let value = self.read_byte(address);
        self.set_a(value);
    }

    pub fn ldh_mc_a(&mut self)
        requires
            old(self).wf(),
        ensures
            final(self).follows(*old(self), old(self)@.ldh_mc_a(), 1),
    {
        reveal(CpuView::ldh_mc_a);
        let address = 0xFF00 + self.registers.c as u16;
        self.write_byte(address, self.registers.a);
    }

    pub fn ldh_a_mc(&mut self)
        requires
            old(self).wf(),
        ensures
            final(self).follows(*old(self), old(self)@.ldh_a_mc(), 1),
    {
        reveal(CpuView::ldh_a_mc);
        let address = 0xFF00 + self.registers.c as u16;
        let value = self.read_byte(address);
        self.set_a(value);
    }

    pub fn inc_r(&mut self, opcode: u8)
        requires
            old(self).wf(),
        ensures
            final(self).follows(
                *old(self),
                old(self)@.inc_r(opcode),
                2 * access_ticks(RegisterIndex::first_of(opcode)),
            ),
    {
        reveal(CpuView::inc_r);
        let index = RegisterIndex::from_opcode_first(opcode);
        let flags = self.registers.flags;
        let value = self.r(index);
        let result = alu::inc(value, flags);
        self.set_flags(result.flags);
        self.set_r(index, result.value);
    }

    pub fn dec_r(&mut self, opcode: u8)
        requires
            old(self).wf(),
        ensures
            final(self).follows(
                *old(self),
                old(self)@.dec_r(opcode),
                2 * access_ticks(RegisterIndex::first_of(opcode)),
            ),
    {
        reveal(CpuView::dec_r);
        let index = RegisterIndex::from_opcode_first(opcode);
        let flags = self.registers.flags;
        let value = self.r(index);
        let result = alu::dec(value, flags);
        self.set_flags(result.flags);
        self.set_r(index, result.value);
    }

    pub fn step_rr(&mut self, opcode: u8, up: bool)
        requires
            old(self).wf(),
        ensures
            final(self).follows(*old(self), old(self)@.step_rr(opcode, up), 1),
    {
        reveal(CpuView::step_rr);
        let index = DoubleRegisterIndex::from_opcode(opcode);
        let value = self.registers.rr(index);
        self.tick();
        let mut registers = self.registers;
        registers.set_rr(index, if up { value.wrapping_add(1) } else { value.wrapping_sub(1) });
        self.set_registers(registers);
    }

    /// Adds to the accumulator, with the carry flag where asked.
    pub fn add_a_generic(&mut self, added: u8, with_carry: bool)
        requires
            old(self).wf(),
        ensures
            final(self).follows(
                *old(self),
                old(self)@.with_result(
                    alu::added(
                        old(self).registers.a,
                        added,
                        with_carry && old(self).registers.flags.carry,
                    ),
                ),
                0,
            ),
    {
        let carry = with_carry && self.registers.flags.carry();
        self.set_result(alu::add_with_carry(self.registers.a, added, carry));
    }

    /// Subtracts from the accumulator, with the carry flag where asked.
    pub fn sub_a_generic(&mut self, subbed: u8, with_carry: bool)
        requires
            old(self).wf(),
        ensures
            final(self).follows(
                *old(self),
                old(self)@.with_result(
                    alu::subtracted(
                        old(self).registers.a,
                        subbed,
                        with_carry && old(self).registers.flags.carry,
                    ),
                ),
                0,
            ),
    {
        let carry = with_carry && self.registers.flags.carry();
        self.set_result(alu::sub_with_borrow(self.registers.a, subbed, carry));
    }

    pub fn and_a_generic(&mut self, value: u8)
        requires
            old(self).wf(),
        ensures
            final(self).follows(
                *old(self),
                old(self)@.with_result(alu::anded(old(self).registers.a, value)),
                0,
            ),
    {
        self.set_result(alu::and(self.registers.a, value));
    }

    pub fn or_a_generic(&mut self, value: u8)
        requires
            old(self).wf(),
        ensures
            final(self).follows(
                *old(self),
                old(self)@.with_result(alu::ored(old(self).registers.a, value)),
                0,
            ),
    {
        self.set_result(alu::or(self.registers.a, value));
    }

    pub fn xor_a_generic(&mut self, value: u8)
        requires
            old(self).wf(),
        ensures
            final(self).follows(
                *old(self),
                old(self)@.with_result(alu::xored(old(self).registers.a, value)),
                0,
            ),
    {
        self.set_result(alu::xor(self.registers.a, value));
    }

    /// Compares with the accumulator: the flags of a subtraction whose
    /// result is dropped.
    pub fn cp_a_generic(&mut self, subbed: u8)
        requires
            old(self).wf(),
        ensures
            final(self).follows(
                *old(self),
                old(self)@.with_flags(alu::subtracted(old(self).registers.a, subbed, false).flags),
                0,
            ),
    {
        self.set_flags(alu::sub_with_borrow(self.registers.a, subbed, false).flags);
    }

    fn accumulate(&mut self, kind: u8, operand: u8)
        requires
            old(self).wf(),
            kind < 8,
        ensures
            final(self).follows(
                *old(self),
                old(self)@.with_registers(accumulated(old(self).registers, kind, operand)),
                0,
            ),
    {
        match kind {
            0 => self.add_a_generic(operand, false),
            1 => self.add_a_generic(operand, true),
            2 => self.sub_a_generic(operand, false),
            3 => self.sub_a_generic(operand, true),
            4 => self.and_a_generic(operand),
            5 => self.xor_a_generic(operand),
            6 => self.or_a_generic(operand),
            _ => self.cp_a_generic(operand),
        }
    }

    pub fn alu_a_r(&mut self, opcode: u8)
        requires
            old(self).wf(),
        ensures
            final(self).follows(
                *old(self),
                old(self)@.alu_a_r(opcode),
                access_ticks(RegisterIndex::second_of(opcode)),
            ),
    {
        reveal(CpuView::alu_a_r);
        let operand = self.r(RegisterIndex::from_opcode_second(opcode));
        self.accumulate((opcode / 8) % 8, operand);
    }

    pub fn alu_a_u8(&mut self, opcode: u8)
        requires
            old(self).wf(),
        ensures
            final(self).follows(*old(self), old(self)@.alu_a_u8(opcode), 1),
    {
        reveal(CpuView::alu_a_u8);
        let operand = self.fetch_byte_pc();
        self.accumulate((opcode / 8) % 8, operand);
    }

    pub fn add_hl_rr(&mut self, opcode: u8)
        requires
            old(self).wf(),
        ensures
            final(self).follows(*old(self), old(self)@.add_hl_rr(opcode), 1),
    {
        reveal(CpuView::add_hl_rr);
        let index = DoubleRegisterIndex::from_opcode(opcode);
        let result = alu::add_words(
            self.registers.hl(),
            self.registers.rr(index),
            self.registers.flags,
        );
        self.tick();
        let mut registers = self.registers;
        registers.flags = result.flags;
        registers.set_hl(result.value);
        self.set_registers(registers);
    }

    pub fn add_sp_r8(&mut self)
        requires
            old(self).wf(),
        ensures
            final(self).follows(*old(self), old(self)@.add_sp_r8(), 3),
    {
        reveal(CpuView::add_sp_r8);
        let sp = self.registers.sp;
        let offset = self.fetch_byte_pc();
        let result = alu::add_offset(sp, offset);
        self.tick();
        self.tick();
        let mut registers = self.registers;
        registers.sp = result.value;
        registers.flags = result.flags;
        self.set_registers(registers);
    }

    fn shift(kind: u8, value: u8, carry: bool) -> (r: Alu)
        requires
            kind < 8,
        ensures
            r == shifted_by(kind, value, carry),
    {
        match kind {
            0 => alu::rotate_left(value),
            1 => alu::rotate_right(value),
            2 => alu::rotate_left_through(value, carry),
            3 => alu::rotate_right_through(value, carry),
            4 => alu::shift_left(value),
            5 => alu::shift_right_signed(value),
            6 => alu::swap(value),
            _ => alu::shift_right(value),
        }
    }

    pub fn rotate_a(&mut self, opcode: u8)
        requires
            old(self).wf(),
        ensures
            final(self).follows(*old(self), old(self)@.rotate_a(opcode), 0),
    {
        reveal(CpuView::rotate_a);
        let result = Self::shift((opcode / 8) % 4, self.registers.a, self.registers.flags.carry());
        self.set_result(alu::clear_zero(result));
    }

    pub fn daa(&mut self)
        requires
            old(self).wf(),
        ensures
            final(self).follows(*old(self), old(self)@.daa(), 0),
    {
        reveal(CpuView::daa);
        self.set_result(alu::daa(self.registers.a, self.registers.flags));
    }

    pub fn cpl(&mut self)
        requires
            old(self).wf(),
        ensures
            final(self).follows(*old(self), old(self)@.cpl(), 0),
    {
        reveal(CpuView::cpl);
        self.set_result(alu::cpl(self.registers.a, self.registers.flags));
    }

    pub fn scf(&mut self)
        requires
            old(self).wf(),
        ensures
            final(self).follows(*old(self), old(self)@.scf(), 0),
    {
        reveal(CpuView::scf);
        let mut flags = self.registers.flags;
        flags.negative = false;
        flags.half_carry = false;
        flags.carry = true;
        self.set_flags(flags);
    }

    pub fn ccf(&mut self)
        requires
            old(self).wf(),
        ensures
            final(self).follows(*old(self), old(self)@.ccf(), 0),
    {
        reveal(CpuView::ccf);
        let mut flags = self.registers.flags;
        flags.negative = false;
        flags.half_carry = false;
        flags.carry = !flags.carry;
        self.set_flags(flags);
    }

    pub fn jp_u16(&mut self)
        requires
            old(self).wf(),
        ensures
            final(self).follows(*old(self), old(self)@.jp_u16(), 3),
    {
        reveal(CpuView::jp_u16);
        let address = self.fetch_dbyte_pc();
        self.set_pc_tick(address);
    }

    pub fn jp_hl(&mut self)
        requires
            old(self).wf(),
        ensures
            final(self).follows(*old(self), old(self)@.jp_hl(), 0),
    {
        reveal(CpuView::jp_hl);
        self.set_pc(self.registers.hl());
    }

    pub fn jp_cc_u16(&mut self, opcode: u8)
        requires
            old(self).wf(),
        ensures
            final(self).follows(
                *old(self),
                old(self)@.jp_cc_u16(opcode),
                if old(self)@.condition(opcode) { 3int } else { 2 },
            ),
    {
        reveal(CpuView::jp_cc_u16);
        reveal(CpuView::jp_u16);
        let taken = self.test_cc(opcode);
        let address = self.fetch_dbyte_pc();
        if taken {
            self.set_pc_tick(address);
        }
    }

    pub fn jr_r8(&mut self)
        requires
            old(self).wf(),
        ensures
            final(self).follows(*old(self), old(self)@.jr_r8(), 2),
    {
        reveal(CpuView::jr_r8);
        let offset = self.fetch_byte_pc();
        let target = alu::displace(self.registers.pc, offset);
        self.set_pc_tick(target);
    }

    pub fn jr_cc(&mut self, opcode: u8)
        requires
            old(self).wf(),
        ensures
            final(self).follows(
                *old(self),
                old(self)@.jr_cc(opcode),
                if old(self)@.condition(opcode) { 2int } else { 1 },
            ),
    {
        reveal(CpuView::jr_cc);
        reveal(CpuView::jr_r8);
        let taken = self.test_cc(opcode);
        let offset = self.fetch_byte_pc();
        if taken {
            let target = alu::displace(self.registers.pc, offset);
            self.set_pc_tick(target);
        }
    }

    pub fn call_u16(&mut self)
        requires
            old(self).wf(),
        ensures
            final(self).follows(*old(self), old(self)@.call_u16(), 5),
    {
        reveal(CpuView::call_u16);
        let address = self.fetch_dbyte_pc();
        self.tick();
        self.push_stack(self.registers.pc);
        self.set_pc(address);
    }

    pub fn call_cc_u16(&mut self, opcode: u8)
        requires
            old(self).wf(),
        ensures
            final(self).follows(
                *old(self),
                old(self)@.call_cc_u16(opcode),
                if old(self)@.condition(opcode) { 5int } else { 2 },
            ),
    {
        reveal(CpuView::call_cc_u16);
        reveal(CpuView::call_u16);
        let taken = self.test_cc(opcode);
        let address = self.fetch_dbyte_pc();
        if taken {
            self.tick();
            self.push_stack(self.registers.pc);
            self.set_pc(address);
        }
    }

    pub fn ret(&mut self)
        requires
            old(self).wf(),
        ensures
            final(self).follows(*old(self), old(self)@.ret(), 3),
    {
        reveal(CpuView::ret);
        let address = self.pop_stack();
        self.set_pc_tick(address);
    }

    pub fn reti(&mut self)
        requires
            old(self).wf(),
        ensures
            final(self).follows(*old(self), old(self)@.reti(), 3),
    {
        reveal(CpuView::reti);
        reveal(CpuView::ret);
        self.ret();
        let mut registers = self.registers;
        registers.ime = true;
        self.set_registers(registers);
    }

    pub fn ret_cc(&mut self, opcode: u8)
        requires
            old(self).wf(),
        ensures
            final(self).follows(
                *old(self),
                old(self)@.ret_cc(opcode),
                if old(self)@.condition(opcode) { 4int } else { 1 },
            ),
    {
        reveal(CpuView::ret_cc);
        reveal(CpuView::ret);
        let taken = self.test_cc(opcode);
        self.tick();
        if taken {
            self.ret();
        }
    }

    pub fn rst(&mut self, opcode: u8)
        requires
            old(self).wf(),
        ensures
            final(self).follows(*old(self), old(self)@.rst(opcode), 3),
    {
        reveal(CpuView::rst);
        let from = self.registers.pc;
        self.tick();
        self.push_stack(from);
        self.set_pc((((opcode / 8) % 8) * 8) as u16);
    }

    pub fn push_rr(&mut self, opcode: u8)
        requires
            old(self).wf(),
        ensures
            final(self).follows(*old(self), old(self)@.push_rr(opcode), 3),
    {
        reveal(CpuView::push_rr);
        let value = self.registers.rr(DoubleRegisterIndex::from_opcode(opcode));
        self.tick();
        self.push_stack(value);
    }

    pub fn push_af(&mut self)
        requires
            old(self).wf(),
        ensures
            final(self).follows(*old(self), old(self)@.push_af(), 3),
    {
        reveal(CpuView::push_af);
        let value = self.registers.af();
        self.tick();
        self.push_stack(value);
    }

    pub fn pop_rr(&mut self, opcode: u8)
        requires
            old(self).wf(),
        ensures
            final(self).follows(*old(self), old(self)@.pop_rr(opcode), 2),
    {
        reveal(CpuView::pop_rr);
        let value = self.pop_stack();
        let mut registers = self.registers;
        registers.set_rr(DoubleRegisterIndex::from_opcode(opcode), value);
        self.set_registers(registers);
    }

    pub fn pop_af(&mut self)
        requires
            old(self).wf(),
        ensures
            final(self).follows(*old(self), old(self)@.pop_af(), 2),
    {
        reveal(CpuView::pop_af);
        let value = self.pop_stack();
        let mut registers = self.registers;
        registers.set_af(value);
        self.set_registers(registers);
    }

    pub fn ei(&mut self)
        requires
            old(self).wf(),
        ensures
            final(self).follows(*old(self), old(self)@.ei(), 0),
    {
        reveal(CpuView::ei);
        self.enable_ime = true;
    }

    pub fn di(&mut self)
        requires
            old(self).wf(),
        ensures
            final(self).follows(*old(self), old(self)@.di(), 0),
    {
        reveal(CpuView::di);
        self.enable_ime = false;
        let mut registers = self.registers;
        registers.ime = false;
        self.registers = registers;
    }

    /// How many machine cycles a prefixed opcode takes after its
    /// second byte: one to read the byte at HL, and one more to write
    /// it back unless the opcode only tests a bit.
    pub open spec fn cb_ticks(opcode: u8) -> int {
        if !RegisterIndex::second_of(opcode).indirect() {
            0
        } else if 0x40 <= opcode < 0x80 {
            1
        } else {
            2
        }
    }

    fn execute_cb(&mut self, opcode: u8)
        requires
            old(self).wf(),
        ensures
            final(self).follows(*old(self), old(self)@.cb_executed(opcode), Self::cb_ticks(opcode)),
    {
        reveal(CpuView::cb_executed);
        let index = RegisterIndex::from_opcode_second(opcode);
        let flags = self.registers.flags;
        let value = self.r(index);
        let bit: u8 = (opcode / 8) % 8;
        if opcode < 0x40 {
            let result = Self::shift(bit, value, flags.carry);
            self.set_flags(result.flags);
            self.set_r(index, result.value);
        } else if opcode < 0x80 {
            self.set_flags(alu::bit(value, bit, flags));
        } else if opcode < 0xC0 {
            self.set_r(index, alu::res(value, bit));
        } else {
            self.set_r(index, alu::set(value, bit));
        }
    }

    pub fn prefix_cb(&mut self)
        requires
            old(self).wf(),
        ensures
            final(self).follows(
                *old(self),
                old(self)@.prefix_cb(),
                1 + Self::cb_ticks(old(self)@.fetch_value()),
            ),
    {
        reveal(CpuView::prefix_cb);
        let opcode = self.fetch_byte_pc();
        self.execute_cb(opcode);
    }
}


impl CpuView {
    /// The opcodes below 0x40: loads of immediates, loads through
    /// register pairs, steps of registers and pairs, word additions,
    /// relative jumps, the accumulator rotates and the flag
    /// operations.
    #[verifier::opaque]
    pub open spec fn executed_low(self, opcode: u8) -> CpuView {
        if opcode == 0x00 {
            self
        } else if opcode == 0x08 {
            self.ld_mu16_sp()
        } else if opcode == 0x10 {
            self.with_state(ExecutionState::Stop)
        } else if opcode == 0x18 {
            self.jr_r8()
        } else if opcode % 8 == 0 {
            self.jr_cc(opcode)
        } else if opcode % 16 == 1 {
            self.ld_rr_u16(opcode)
        } else if opcode == 0x02 || opcode == 0x12 {
            self.ld_mrr_a(opcode)
        } else if opcode == 0x22 || opcode == 0x32 {
            self.ld_mhl_a(opcode == 0x22)
        } else if opcode % 16 == 3 {
            self.step_rr(opcode, true)
        } else if opcode % 8 == 4 {
            self.inc_r(opcode)
        } else if opcode % 8 == 5 {
            self.dec_r(opcode)
        } else if opcode % 8 == 6 {
            self.ld_r_u8(opcode)
        } else if opcode == 0x27 {
            self.daa()
        } else if opcode == 0x2F {
            self.cpl()
        } else if opcode == 0x37 {
            self.scf()
        } else if opcode == 0x3F {
            self.ccf()
        } else if opcode % 8 == 7 {
            self.rotate_a(opcode)
        } else if opcode % 16 == 9 {
            self.add_hl_rr(opcode)
        } else if opcode == 0x0A || opcode == 0x1A {
            self.ld_a_mrr(opcode)
        } else if opcode == 0x2A || opcode == 0x3A {
            self.ld_a_mhl(opcode == 0x2A)
        } else {
            self.step_rr(opcode, false)
        }
    }

    /// The opcodes from 0xC0 on: returns, jumps and calls, the stack,
    /// the accumulator operations on an immediate, the loads through
    /// the high page and through an address, the prefix, and the
    /// interrupt switches. Eleven opcodes name no instruction.
    #[verifier::opaque]
    pub open spec fn executed_high(self, opcode: u8) -> CpuView {
        if opcode == 0xE0 {
            self.ldh_mu8_a()
        } else if opcode == 0xE8 {
            self.add_sp_r8()
        } else if opcode == 0xF0 {
            self.ldh_a_mu8()
        } else if opcode == 0xF8 {
            self.ld_hl_spu8()
        } else if opcode % 8 == 0 {
            self.ret_cc(opcode)
        } else if opcode == 0xF1 {
            self.pop_af()
        } else if opcode % 16 == 1 {
            self.pop_rr(opcode)
        } else if opcode == 0xE2 {
            self.ldh_mc_a()
        } else if opcode == 0xEA {
            self.ld_mu16_a()
        } else if opcode == 0xF2 {
            self.ldh_a_mc()
        } else if opcode == 0xFA {
            self.ld_a_mu16()
        } else if opcode % 8 == 2 {
            self.jp_cc_u16(opcode)
        } else if opcode == 0xC3 {
            self.jp_u16()
        } else if opcode == 0xCB {
            self.prefix_cb()
        } else if opcode == 0xF3 {
            self.di()
        } else if opcode == 0xFB {
            self.ei()
        } else if opcode == 0xC4 || opcode == 0xCC || opcode == 0xD4 || opcode == 0xDC {
            self.call_cc_u16(opcode)
        } else if opcode == 0xF5 {
            self.push_af()
        } else if opcode == 0xC5 || opcode == 0xD5 || opcode == 0xE5 {
            self.push_rr(opcode)
        } else if opcode == 0xCD {
            self.call_u16()
        } else if opcode % 8 == 6 {
            self.alu_a_u8(opcode)
        } else if opcode % 8 == 7 {
            self.rst(opcode)
        } else if opcode == 0xC9 {
            self.ret()
        } else if opcode == 0xD9 {
            self.reti()
        } else if opcode == 0xE9 {
            self.jp_hl()
        } else if opcode == 0xF9 {
            self.ld_sp_hl()
        } else {
            self.with_state(ExecutionState::IllegalInstruction)
        }
    }

    /// What the instruction with opcode `opcode` makes of the machine,
    /// from where the opcode has been fetched. The opcodes from 0x40
    /// to 0x7F move between registers, but for 0x76, which halts; those
    /// from 0x80 to 0xBF operate on the accumulator.
    pub open spec fn executed(self, opcode: u8) -> CpuView {
        if opcode < 0x40 {
            self.executed_low(opcode)
        } else if opcode == 0x76 {
            self.with_state(ExecutionState::Halt)
        } else if opcode < 0x80 {
            self.ld_r_r(opcode)
        } else if opcode < 0xC0 {
            self.alu_a_r(opcode)
        } else {
            self.executed_high(opcode)
        }
    }
}

impl Cpu {
    /// Whether a part of an instruction took between `least` and
    /// `most` machine cycles.
    pub open spec fn took(self, before: Cpu, least: int, most: int) -> bool {
        &&& self.cycles == before.cycles
        &&& before.ticks + most <= 255 ==> before.ticks + least <= self.ticks <= before.ticks + most
    }

    fn execute_low(&mut self, opcode: u8)
        requires
            old(self).wf(),
            opcode < 0x40,
        ensures
            final(self)@ == old(self)@.executed_low(opcode),
            final(self).wf(),
            final(self).took(*old(self), 0, 4),
    {
        reveal(CpuView::executed_low);
        if opcode == 0x00 {
        } else if opcode == 0x08 {
            self.ld_mu16_sp();
        } else if opcode == 0x10 {
            self.set_state(ExecutionState::Stop);
        } else if opcode == 0x18 {
            self.jr_r8();
        } else if opcode % 8 == 0 {
            self.jr_cc(opcode);
        } else if opcode % 16 == 1 {
            self.ld_rr_u16(opcode);
        } else if opcode == 0x02 || opcode == 0x12 {
            self.ld_mrr_a(opcode);
        } else if opcode == 0x22 || opcode == 0x32 {
            self.ld_mhl_a(opcode == 0x22);
        } else if opcode % 16 == 3 {
            self.step_rr(opcode, true);
        } else if opcode % 8 == 4 {
            self.inc_r(opcode);
        } else if opcode % 8 == 5 {
            self.dec_r(opcode);
        } else if opcode % 8 == 6 {
            self.ld_r_u8(opcode);
        } else if opcode == 0x27 {
            self.daa();
        } else if opcode == 0x2F {
            self.cpl();
        } else if opcode == 0x37 {
            self.scf();
        } else if opcode == 0x3F {
            self.ccf();
        } else if opcode % 8 == 7 {
            self.rotate_a(opcode);
        } else if opcode % 16 == 9 {
            self.add_hl_rr(opcode);
        } else if opcode == 0x0A || opcode == 0x1A {
            self.ld_a_mrr(opcode);
        } else if opcode == 0x2A || opcode == 0x3A {
            self.ld_a_mhl(opcode == 0x2A);
        } else {
            self.step_rr(opcode, false);
        }
    }

    fn execute_high(&mut self, opcode: u8)
        requires
            old(self).wf(),
            opcode >= 0xC0,
        ensures
            final(self)@ == old(self)@.executed_high(opcode),
            final(self).wf(),
            final(self).took(*old(self), 0, 5),
    {
        reveal(CpuView::executed_high);
        if opcode == 0xE0 {
            self.ldh_mu8_a();
        } else if opcode == 0xE8 {
            self.add_sp_r8();
        } else if opcode == 0xF0 {
            self.ldh_a_mu8();
        } else if opcode == 0xF8 {
            self.ld_hl_spu8();
        } else if opcode % 8 == 0 {
            self.ret_cc(opcode);
        } else if opcode == 0xF1 {
            self.pop_af();
        } else if opcode % 16 == 1 {
            self.pop_rr(opcode);
        } else if opcode == 0xE2 {
            self.ldh_mc_a();
        } else if opcode == 0xEA {
            self.ld_mu16_a();
        } else if opcode == 0xF2 {
            self.ldh_a_mc();
        } else if opcode == 0xFA {
            self.ld_a_mu16();
        } else if opcode % 8 == 2 {
            self.jp_cc_u16(opcode);
        } else if opcode == 0xC3 {
            self.jp_u16();
        } else if opcode == 0xCB {
            self.prefix_cb();
        } else if opcode == 0xF3 {
            self.di();
        } else if opcode == 0xFB {
            self.ei();
        } else if opcode == 0xC4 || opcode == 0xCC || opcode == 0xD4 || opcode == 0xDC {
            self.call_cc_u16(opcode);
        } else if opcode == 0xF5 {
            self.push_af();
        } else if opcode == 0xC5 || opcode == 0xD5 || opcode == 0xE5 {
            self.push_rr(opcode);
        } else if opcode == 0xCD {
            self.call_u16();
        } else if opcode % 8 == 6 {
            self.alu_a_u8(opcode);
        } else if opcode % 8 == 7 {
            self.rst(opcode);
        } else if opcode == 0xC9 {
            self.ret();
        } else if opcode == 0xD9 {
            self.reti();
        } else if opcode == 0xE9 {
            self.jp_hl();
        } else if opcode == 0xF9 {
            self.ld_sp_hl();
        } else {
            self.set_state(ExecutionState::IllegalInstruction);
        }
    }

    /// Carries out the instruction whose opcode has just been
    /// fetched. No instruction takes more than five machine cycles
    /// after its opcode.
    pub fn execute(&mut self, opcode: u8)
        requires
            old(self).wf(),
        ensures
            final(self)@ == old(self)@.executed(opcode),
            final(self).wf(),
            final(self).took(*old(self), 0, 5),
    {
        if opcode < 0x40 {
            self.execute_low(opcode);
        } else if opcode == 0x76 {
            self.set_state(ExecutionState::Halt);
        } else if opcode < 0x80 {
            self.ld_r_r(opcode);
        } else if opcode < 0xC0 {
            self.alu_a_r(opcode);
        } else {
            self.execute_high(opcode);
        }
    }
}

} // verus!
