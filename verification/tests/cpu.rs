use oxidegb::gameboy::cpu::registers::{DoubleRegisterIndex, Flags, RegisterIndex, Registers};
use oxidegb::gameboy::cpu::{Cpu, ExecutionState};
use oxidegb::gameboy::mmu::MemoryOps;

/// A machine without boot image whose ROM holds `program` at 0x0100,
/// where it starts to run.
fn machine(program: &[u8]) -> Cpu {
    let mut image = vec![0u8; 0x8000];
    image[0x100..0x100 + program.len()].copy_from_slice(program);
    image[0x40] = 0xD9;
    let mut cpu = Cpu::new_at(image, None, None, 0).unwrap();
    cpu.registers = Registers::new();
    cpu.registers.pc = 0x100;
    cpu.registers.sp = 0xFFFE;
    cpu
}

/// Takes one step and returns the master cycles it took.
fn step(cpu: &mut Cpu) -> u64 {
    let before = cpu.cycles;
    let after = cpu.next_instruction();
    assert_eq!(after, cpu.cycles);
    let taken = after - before;
    assert_eq!(taken, 4 * cpu.ticks as u64);
    assert!(taken >= 4 && taken <= 24 && taken % 4 == 0);
    taken
}

fn flags(zero: bool, negative: bool, half_carry: bool, carry: bool) -> Flags {
    Flags { zero, negative, half_carry, carry }
}

#[test]
fn add_a_b() {
    let mut cpu = machine(&[0x80]);
    cpu.registers.a = 0x3A;
    cpu.registers.b = 0xC6;
    assert_eq!(step(&mut cpu), 4);
    assert_eq!(cpu.registers.a, 0x00);
    assert_eq!(cpu.registers.flags, flags(true, false, true, true));
    assert_eq!(cpu.registers.pc, 0x101);
}

#[test]
fn sub_a_b() {
    let mut cpu = machine(&[0x90]);
    cpu.registers.a = 0x3E;
    cpu.registers.b = 0x3E;
    assert_eq!(step(&mut cpu), 4);
    assert_eq!(cpu.registers.a, 0x00);
    assert_eq!(cpu.registers.flags, flags(true, true, false, false));
}

#[test]
fn daa_after_add() {
    let mut cpu = machine(&[0x80, 0x27]);
    cpu.registers.a = 0x45;
    cpu.registers.b = 0x38;
    step(&mut cpu);
    assert_eq!(cpu.registers.a, 0x7D);
    assert_eq!(step(&mut cpu), 4);
    assert_eq!(cpu.registers.a, 0x83);
    assert!(!cpu.registers.flags.half_carry);
    assert!(!cpu.registers.flags.carry);
}

#[test]
fn every_step_takes_a_positive_multiple_of_four_cycles() {
    // Each opcode once, from the same state; the checks are in `step`.
    for opcode in 0..=255u8 {
        let mut cpu = machine(&[opcode, 0x12, 0xC0]);
        cpu.registers.h = 0xC0;
        step(&mut cpu);
        step(&mut cpu);
        assert_eq!(cpu.registers.flags.value() & 0x0F, 0);
        assert_eq!(cpu.registers.af() & 0x000F, 0);
    }
    for opcode in 0..=255u8 {
        let mut cpu = machine(&[0xCB, opcode]);
        cpu.registers.h = 0xC0;
        let through_memory = opcode & 7 == 6;
        let only_tests = (0x40..0x80).contains(&opcode);
        let expected = if !through_memory { 8 } else if only_tests { 12 } else { 16 };
        assert_eq!(step(&mut cpu), expected, "prefixed opcode {:02X}", opcode);
    }
}

#[test]
fn documented_instruction_timings() {
    // (program, Z set before, cycles)
    let cases: [(&[u8], bool, u64); 38] = [
        (&[0x00], false, 4),
        (&[0x01, 0x34, 0x12], false, 12),
        (&[0x02], false, 8),
        (&[0x03], false, 8),
        (&[0x04], false, 4),
        (&[0x34], false, 12),
        (&[0x06, 0x12], false, 8),
        (&[0x36, 0x12], false, 12),
        (&[0x08, 0x00, 0xC0], false, 20),
        (&[0x09], false, 8),
        (&[0x0A], false, 8),
        (&[0x18, 0x02], false, 12),
        (&[0x20, 0x02], false, 12),
        (&[0x20, 0x02], true, 8),
        (&[0x40], false, 4),
        (&[0x46], false, 8),
        (&[0x70], false, 8),
        (&[0x86], false, 8),
        (&[0xC0], false, 20),
        (&[0xC0], true, 8),
        (&[0xC1], false, 12),
        (&[0xC2, 0x00, 0x02], false, 16),
        (&[0xC2, 0x00, 0x02], true, 12),
        (&[0xC3, 0x00, 0x02], false, 16),
        (&[0xC4, 0x00, 0x02], false, 24),
        (&[0xC4, 0x00, 0x02], true, 12),
        (&[0xC5], false, 16),
        (&[0xC6, 0x01], false, 8),
        (&[0xC7], false, 16),
        (&[0xC9], false, 16),
        (&[0xCD, 0x00, 0x02], false, 24),
        (&[0xD9], false, 16),
        (&[0xE0, 0x80], false, 12),
        (&[0xE8, 0x01], false, 16),
        (&[0xE9], false, 4),
        (&[0xEA, 0x00, 0xC0], false, 16),
        (&[0xF8, 0x01], false, 12),
        (&[0xF9], false, 8),
    ];
    for (program, zero, cycles) in cases {
        let mut cpu = machine(program);
        cpu.registers.h = 0xC0;
        cpu.registers.flags.zero = zero;
        assert_eq!(step(&mut cpu), cycles, "opcode {:02X}", program[0]);
    }
}

#[test]
fn loads_between_registers_and_memory() {
    let mut cpu = machine(&[
        0x3E, 0x12, // LD A, 0x12
        0x47, // LD B, A
        0x21, 0x00, 0xC0, // LD HL, 0xC000
        0x70, // LD (HL), B
        0x4E, // LD C, (HL)
        0x22, // LD (HL+), A
        0x36, 0x99, // LD (HL), 0x99
        0x3A, // LD A, (HL-)
        0x11, 0x01, 0xC0, // LD DE, 0xC001
        0x1A, // LD A, (DE)
        0xEA, 0x10, 0xC0, // LD (0xC010), A
        0xFA, 0x00, 0xC0, // LD A, (0xC000)
        0xE0, 0x80, // LDH (0x80), A
        0x0E, 0x80, // LD C, 0x80
        0xF2, // LDH A, (C)
        0x08, 0x20, 0xC0, // LD (0xC020), SP
        0xF9, // LD SP, HL
    ]);
    for _ in 0..17 {
        step(&mut cpu);
    }
    assert_eq!(cpu.registers.b, 0x12);
    assert_eq!(cpu.registers.a, 0x12);
    assert_eq!(cpu.registers.hl(), 0xC000);
    assert_eq!(cpu.registers.sp, 0xC000);
    assert_eq!(cpu.mmu.read_byte(0xC000), 0x12);
    assert_eq!(cpu.mmu.read_byte(0xC001), 0x99);
    assert_eq!(cpu.mmu.read_byte(0xC010), 0x99);
    assert_eq!(cpu.mmu.read_byte(0xFF80), 0x12);
    assert_eq!(cpu.mmu.read_byte(0xC020), 0xFE);
    assert_eq!(cpu.mmu.read_byte(0xC021), 0xFF);
}

#[test]
fn calls_and_returns_use_the_stack() {
    let mut cpu = machine(&[
        0xCD, 0x10, 0x01, // 0100: CALL 0x0110
        0x00, // 0103: NOP
        0, 0, 0, 0, 0, 0, 0, 0, 0, 0, 0, 0, //
        0xC5, // 0110: PUSH BC
        0xD1, // 0111: POP DE
        0xC9, // 0112: RET
    ]);
    cpu.registers.b = 0xAB;
    cpu.registers.c = 0xCD;
    step(&mut cpu);
    assert_eq!(cpu.registers.pc, 0x0110);
    assert_eq!(cpu.registers.sp, 0xFFFC);
    assert_eq!(cpu.mmu.read_byte(0xFFFC), 0x03);
    assert_eq!(cpu.mmu.read_byte(0xFFFD), 0x01);
    step(&mut cpu);
    assert_eq!(cpu.registers.sp, 0xFFFA);
    assert_eq!(cpu.mmu.read_byte(0xFFFB), 0xAB);
    assert_eq!(cpu.mmu.read_byte(0xFFFA), 0xCD);
    step(&mut cpu);
    assert_eq!((cpu.registers.d, cpu.registers.e), (0xAB, 0xCD));
    step(&mut cpu);
    assert_eq!(cpu.registers.pc, 0x0103);
    assert_eq!(cpu.registers.sp, 0xFFFE);
}

#[test]
fn pop_af_drops_the_low_nibble() {
    let mut cpu = machine(&[0x01, 0xFF, 0x12, 0xC5, 0xF1, 0xF5, 0xD1]);
    for _ in 0..5 {
        step(&mut cpu);
    }
    assert_eq!(cpu.registers.a, 0x12);
    assert_eq!(cpu.registers.flags, flags(true, true, true, true));
    assert_eq!(cpu.registers.af(), 0x12F0);
    assert_eq!(cpu.registers.e, 0xF0);
}

#[test]
fn jumps() {
    let mut cpu = machine(&[0x18, 0xFE]);
    step(&mut cpu);
    assert_eq!(cpu.registers.pc, 0x0100);
    let mut cpu = machine(&[0x28, 0x10, 0x20, 0x10]);
    step(&mut cpu);
    assert_eq!(cpu.registers.pc, 0x0102);
    step(&mut cpu);
    assert_eq!(cpu.registers.pc, 0x0114);
    let mut cpu = machine(&[0xE9]);
    cpu.registers.set_hl(0x1234);
    step(&mut cpu);
    assert_eq!(cpu.registers.pc, 0x1234);
    let mut cpu = machine(&[0xEF]);
    step(&mut cpu);
    assert_eq!(cpu.registers.pc, 0x0028);
    assert_eq!(cpu.mmu.read_byte(0xFFFC), 0x01);
    let mut cpu = machine(&[0xDA, 0x00, 0x02, 0x37, 0xDA, 0x00, 0x02]);
    step(&mut cpu);
    assert_eq!(cpu.registers.pc, 0x0103);
    step(&mut cpu);
    step(&mut cpu);
    assert_eq!(cpu.registers.pc, 0x0200);
}

#[test]
fn sixteen_bit_arithmetic() {
    let mut cpu = machine(&[0x09, 0x03, 0x0B, 0x0B, 0xE8, 0xFF, 0xF8, 0x02]);
    cpu.registers.set_hl(0x8A23);
    cpu.registers.b = 0x06;
    cpu.registers.c = 0x05;
    cpu.registers.flags.zero = true;
    step(&mut cpu);
    assert_eq!(cpu.registers.hl(), 0x9028);
    assert_eq!(cpu.registers.flags, flags(true, false, true, false));
    step(&mut cpu);
    assert_eq!(cpu.registers.rr(DoubleRegisterIndex(0)), 0x0606);
    step(&mut cpu);
    step(&mut cpu);
    assert_eq!(cpu.registers.rr(DoubleRegisterIndex(0)), 0x0604);
    cpu.registers.sp = 0x0000;
    step(&mut cpu);
    assert_eq!(cpu.registers.sp, 0xFFFF);
    assert_eq!(cpu.registers.flags, flags(false, false, false, false));
    step(&mut cpu);
    assert_eq!(cpu.registers.hl(), 0x0001);
    assert_eq!(cpu.registers.flags, flags(false, false, true, true));
}

#[test]
fn accumulator_rotates_clear_zero() {
    let mut cpu = machine(&[0x07, 0x17, 0x0F, 0x1F]);
    cpu.registers.a = 0x80;
    step(&mut cpu);
    assert_eq!(cpu.registers.a, 0x01);
    assert_eq!(cpu.registers.flags, flags(false, false, false, true));
    step(&mut cpu);
    assert_eq!(cpu.registers.a, 0x03);
    assert_eq!(cpu.registers.flags, flags(false, false, false, false));
    step(&mut cpu);
    assert_eq!(cpu.registers.a, 0x81);
    assert!(cpu.registers.flags.carry);
    cpu.registers.a = 0x00;
    cpu.registers.flags.carry = false;
    step(&mut cpu);
    assert_eq!(cpu.registers.a, 0x00);
    assert!(!cpu.registers.flags.zero);
}

#[test]
fn prefixed_operations() {
    let mut cpu = machine(&[0xCB, 0x37, 0xCB, 0x7F, 0xCB, 0xC6, 0xCB, 0x86, 0xCB, 0x00, 0xCB, 0x46]);
    cpu.registers.a = 0xF1;
    cpu.registers.b = 0x80;
    cpu.registers.set_hl(0xC000);
    step(&mut cpu);
    assert_eq!(cpu.registers.a, 0x1F);
    step(&mut cpu);
    assert_eq!(cpu.registers.flags, flags(true, false, true, false));
    step(&mut cpu);
    assert_eq!(cpu.mmu.read_byte(0xC000), 0x01);
    step(&mut cpu);
    assert_eq!(cpu.mmu.read_byte(0xC000), 0x00);
    step(&mut cpu);
    assert_eq!(cpu.registers.b, 0x01);
    assert_eq!(cpu.registers.flags, flags(false, false, false, true));
    step(&mut cpu);
    assert_eq!(cpu.registers.flags, flags(true, false, true, true));
}

#[test]
fn interrupt_is_served_in_five_machine_cycles() {
    let mut cpu = machine(&[0x00, 0x00]);
    cpu.registers.ime = true;
    cpu.mmu.write_byte(0xFFFF, 0x04);
    cpu.mmu.write_byte(0xFF0F, 0x05);
    assert_eq!(step(&mut cpu), 20);
    assert_eq!(cpu.registers.pc, 0x0050);
    assert!(!cpu.registers.ime);
    assert_eq!(cpu.mmu.read_byte(0xFF0F) & 0x1F, 0x01);
    assert_eq!(cpu.registers.sp, 0xFFFC);
    assert_eq!(cpu.mmu.read_byte(0xFFFC), 0x00);
    assert_eq!(cpu.mmu.read_byte(0xFFFD), 0x01);
    // With interrupts disabled the request waits.
    let mut cpu = machine(&[0x00]);
    cpu.mmu.write_byte(0xFFFF, 0x04);
    cpu.mmu.write_byte(0xFF0F, 0x04);
    assert_eq!(step(&mut cpu), 4);
    assert_eq!(cpu.registers.pc, 0x0101);
}

#[test]
fn interrupts_are_served_by_priority() {
    let mut cpu = machine(&[0x00]);
    cpu.registers.ime = true;
    cpu.mmu.write_byte(0xFFFF, 0x1F);
    cpu.mmu.write_byte(0xFF0F, 0x1A);
    step(&mut cpu);
    assert_eq!(cpu.registers.pc, 0x0048);
    assert_eq!(cpu.mmu.read_byte(0xFF0F) & 0x1F, 0x18);
}

#[test]
fn ei_takes_effect_after_the_next_instruction() {
    let mut cpu = machine(&[0xFB, 0x00, 0x00]);
    cpu.mmu.write_byte(0xFFFF, 0x01);
    cpu.mmu.write_byte(0xFF0F, 0x01);
    step(&mut cpu);
    assert!(!cpu.registers.ime);
    step(&mut cpu);
    assert!(cpu.registers.ime);
    assert_eq!(cpu.registers.pc, 0x0102);
    assert_eq!(step(&mut cpu), 20);
    assert_eq!(cpu.registers.pc, 0x0040);
    // The handler at 0x0040 is a RETI.
    assert_eq!(step(&mut cpu), 16);
    assert_eq!(cpu.registers.pc, 0x0102);
    assert!(cpu.registers.ime);
    let mut cpu = machine(&[0xFB, 0xF3, 0x00]);
    step(&mut cpu);
    step(&mut cpu);
    step(&mut cpu);
    assert!(!cpu.registers.ime);
}

#[test]
fn halt_sleeps_until_an_interrupt_is_pending() {
    let mut cpu = machine(&[0x76, 0x3C]);
    cpu.mmu.write_byte(0xFFFF, 0x04);
    step(&mut cpu);
    assert_eq!(cpu.execution_state, ExecutionState::Halt);
    for _ in 0..10 {
        assert_eq!(step(&mut cpu), 4);
        assert_eq!(cpu.registers.pc, 0x0101);
    }
    cpu.mmu.write_byte(0xFF0F, 0x04);
    step(&mut cpu);
    assert_eq!(cpu.execution_state, ExecutionState::Continue);
    assert_eq!(cpu.registers.a, 1);
    assert_eq!(cpu.registers.pc, 0x0102);
}

#[test]
fn stop_waits_for_a_button() {
    let mut cpu = machine(&[0x10, 0x3C]);
    cpu.mmu.write_byte(0xFFFF, 0x10);
    step(&mut cpu);
    assert_eq!(cpu.execution_state, ExecutionState::Stop);
    let divider = cpu.mmu.io.timer.divider;
    for _ in 0..10 {
        assert_eq!(step(&mut cpu), 4);
    }
    assert_eq!(cpu.mmu.io.timer.divider, divider);
    cpu.mmu.io.buttons.set_button(oxidegb::gameboy::io::Button::Start, true);
    step(&mut cpu);
    assert_eq!(cpu.execution_state, ExecutionState::Stop);
    step(&mut cpu);
    assert_eq!(cpu.execution_state, ExecutionState::Continue);
    assert_eq!(cpu.registers.a, 1);
}

#[test]
fn illegal_opcodes_latch() {
    for opcode in [0xD3u8, 0xDB, 0xDD, 0xE3, 0xE4, 0xEB, 0xEC, 0xED, 0xF4, 0xFC, 0xFD] {
        let mut cpu = machine(&[opcode, 0x3C]);
        step(&mut cpu);
        assert_eq!(cpu.execution_state, ExecutionState::IllegalInstruction);
        let pc = cpu.registers.pc;
        let divider = cpu.mmu.io.timer.divider;
        for _ in 0..5 {
            assert_eq!(step(&mut cpu), 4);
        }
        assert_eq!(cpu.registers.pc, pc);
        assert_eq!(cpu.registers.a, 0);
        assert_eq!(cpu.mmu.io.timer.divider, divider.wrapping_add(20));
    }
}

#[test]
fn register_file() {
    let mut registers = Registers::new();
    for index in [0u8, 1, 2, 3, 4, 5, 7] {
        registers.set_r(RegisterIndex(index), 0x10 + index);
    }
    assert_eq!(
        (registers.b, registers.c, registers.d, registers.e, registers.h, registers.l, registers.a),
        (0x10, 0x11, 0x12, 0x13, 0x14, 0x15, 0x17)
    );
    for index in [0u8, 1, 2, 3, 4, 5, 7] {
        assert_eq!(registers.r(RegisterIndex(index)), 0x10 + index);
    }
    assert_eq!(registers.rr(DoubleRegisterIndex(0)), 0x1011);
    assert_eq!(registers.rr(DoubleRegisterIndex(1)), 0x1213);
    assert_eq!(registers.rr(DoubleRegisterIndex(2)), 0x1415);
    registers.set_rr(DoubleRegisterIndex(3), 0xABCD);
    assert_eq!(registers.sp, 0xABCD);
    registers.set_rr(DoubleRegisterIndex(1), 0x5678);
    assert_eq!((registers.d, registers.e), (0x56, 0x78));
    registers.set_af(0x12FF);
    assert_eq!(registers.af(), 0x12F0);
    assert_eq!(RegisterIndex::from_opcode_first(0b01_101_110).value(), 0b101);
    assert_eq!(RegisterIndex::from_opcode_second(0b01_101_110).value(), 0b110);
    assert_eq!(DoubleRegisterIndex::from_opcode(0b00_10_0001), DoubleRegisterIndex(2));
    let booted = Registers::new_post_bootrom();
    assert_eq!((booted.a, booted.pc, booted.sp), (0x01, 0x0100, 0xFFFE));
    assert_eq!(booted.flags, flags(true, false, true, true));
    assert_eq!(booted.flags.value(), 0xB0);
}

#[test]
fn bus_accesses_tick_the_machine() {
    let mut cpu = machine(&[0x00]);
    let divider = cpu.mmu.io.timer.divider;
    cpu.write_byte(0xC000, 0x42);
    assert_eq!(cpu.read_byte(0xC000), 0x42);
    assert_eq!(cpu.mmu.io.timer.divider, divider + 8);
    assert_eq!(cpu.ticks, 2);
    cpu.write_dbyte(0xC010, 0xBEEF);
    assert_eq!(cpu.read_dbyte(0xC010), 0xBEEF);
    assert_eq!(cpu.ticks, 6);
    cpu.push_stack(0x1234);
    assert_eq!(cpu.pop_stack(), 0x1234);
    assert_eq!(cpu.fetch_dbyte_pc(), 0x0000);
    assert_eq!(cpu.registers.pc, 0x0102);
    assert!(cpu.test_cc(0x20));
    assert!(!cpu.test_cc(0x28));
}

#[test]
fn a_processor_is_built_with_its_memory() {
    let mut image = vec![0u8; 0x8000];
    image[0x147] = 0x10;
    image[0x149] = 0x02;
    let cpu = Cpu::new(image.clone(), None, Some(vec![0; 0x2000])).unwrap();
    assert_eq!(cpu.registers, Registers::new_post_bootrom());
    assert_eq!(cpu.execution_state, ExecutionState::Continue);
    assert!(cpu.mmu.is_wf());
    let with_boot = Cpu::new(image, Some(vec![0; 256]), None).unwrap();
    assert_eq!(with_boot.registers, Registers::new());
    let mmu = oxidegb::gameboy::mmu::Mmu::new(vec![0u8; 0x8000], None, None).unwrap();
    assert!(mmu.ppu.lcdc.lcd_enable);
    assert!(oxidegb::gameboy::mmu::Mmu::new(vec![0u8; 0x100], None, None).is_err());
}

#[test]
fn every_instruction_has_its_length() {
    let lengths: [u8; 256] = [
        1, 3, 1, 1, 1, 1, 2, 1, 3, 1, 1, 1, 1, 1, 2, 1,
        1, 3, 1, 1, 1, 1, 2, 1, 0, 1, 1, 1, 1, 1, 2, 1,
        2, 3, 1, 1, 1, 1, 2, 1, 2, 1, 1, 1, 1, 1, 2, 1,
        2, 3, 1, 1, 1, 1, 2, 1, 2, 1, 1, 1, 1, 1, 2, 1,
        1, 1, 1, 1, 1, 1, 1, 1, 1, 1, 1, 1, 1, 1, 1, 1,
        1, 1, 1, 1, 1, 1, 1, 1, 1, 1, 1, 1, 1, 1, 1, 1,
        1, 1, 1, 1, 1, 1, 1, 1, 1, 1, 1, 1, 1, 1, 1, 1,
        1, 1, 1, 1, 1, 1, 1, 1, 1, 1, 1, 1, 1, 1, 1, 1,
        1, 1, 1, 1, 1, 1, 1, 1, 1, 1, 1, 1, 1, 1, 1, 1,
        1, 1, 1, 1, 1, 1, 1, 1, 1, 1, 1, 1, 1, 1, 1, 1,
        1, 1, 1, 1, 1, 1, 1, 1, 1, 1, 1, 1, 1, 1, 1, 1,
        1, 1, 1, 1, 1, 1, 1, 1, 1, 1, 1, 1, 1, 1, 1, 1,
        1, 1, 3, 0, 3, 1, 2, 0, 1, 0, 3, 2, 3, 0, 2, 0,
        1, 1, 3, 1, 3, 1, 2, 0, 1, 0, 3, 1, 3, 1, 2, 0,
        2, 1, 1, 1, 1, 1, 2, 0, 2, 0, 3, 1, 1, 1, 2, 0,
        2, 1, 1, 1, 1, 1, 2, 0, 2, 1, 3, 1, 1, 1, 2, 0,
    ];
    for opcode in 0..=255u8 {
        let length = lengths[opcode as usize];
        if length == 0 {
            // Jumps, calls and returns that are always taken.
            continue;
        }
        let mut cpu = machine(&[opcode, 0x00, 0xC0]);
        cpu.registers.h = 0xC0;
        // Conditions on a clear flag see it set, and the other way round.
        let on_clear_flag = (opcode >> 3) & 1 == 0;
        cpu.registers.flags.zero = on_clear_flag;
        cpu.registers.flags.carry = on_clear_flag;
        step(&mut cpu);
        assert_eq!(cpu.registers.pc, 0x0100 + length as u16, "opcode {:02X}", opcode);
    }
}

#[test]
fn accumulator_operations_are_decoded_by_bits_5_to_3() {
    // (opcode, A before, operand, carry before, A after, flags after)
    let cases: [(u8, u8, u8, bool, u8, Flags); 8] = [
        (0x80, 0x0F, 0x01, true, 0x10, flags(false, false, true, false)),
        (0x88, 0x0F, 0x01, true, 0x11, flags(false, false, true, false)),
        (0x90, 0x10, 0x01, true, 0x0F, flags(false, true, true, false)),
        (0x98, 0x10, 0x01, true, 0x0E, flags(false, true, true, false)),
        (0xA0, 0x3C, 0x0F, true, 0x0C, flags(false, false, true, false)),
        (0xA8, 0x3C, 0x0F, true, 0x33, flags(false, false, false, false)),
        (0xB0, 0x3C, 0x0F, true, 0x3F, flags(false, false, false, false)),
        (0xB8, 0x3C, 0x3D, true, 0x3C, flags(false, true, true, true)),
    ];
    for (opcode, a, operand, carry, result, after) in cases {
        // Once on register B, once on the byte at HL, once on an immediate.
        let mut on_register = machine(&[opcode]);
        on_register.registers.a = a;
        on_register.registers.b = operand;
        on_register.registers.flags.carry = carry;
        assert_eq!(step(&mut on_register), 4);
        assert_eq!(on_register.registers.a, result, "opcode {:02X}", opcode);
        assert_eq!(on_register.registers.flags, after, "opcode {:02X}", opcode);
        let mut on_memory = machine(&[opcode | 0x06]);
        on_memory.registers.a = a;
        on_memory.registers.set_hl(0xC000);
        on_memory.mmu.write_byte(0xC000, operand);
        on_memory.registers.flags.carry = carry;
        assert_eq!(step(&mut on_memory), 8);
        assert_eq!(on_memory.registers.a, result);
        assert_eq!(on_memory.registers.flags, after);
        let mut on_immediate = machine(&[opcode | 0x46, operand]);
        on_immediate.registers.a = a;
        on_immediate.registers.flags.carry = carry;
        assert_eq!(step(&mut on_immediate), 8);
        assert_eq!(on_immediate.registers.a, result);
        assert_eq!(on_immediate.registers.flags, after);
    }
}
