use oxidegb::error::Error;
use oxidegb::gameboy::cartridge::Mapper;
use oxidegb::gameboy::cpu::ExecutionState;
use oxidegb::gameboy::debugger::{parse_address, DebugCommand, DebugReply, InvalidAddress};
use oxidegb::gameboy::ppu::palette::Color as Shade;
use oxidegb::gameboy::ppu::Color;
use oxidegb::gameboy::{Button, Gameboy, CYCLES_PER_SECOND};

fn rom(program: &[u8]) -> Vec<u8> {
    let mut image = vec![0u8; 0x8000];
    image[0x100..0x100 + program.len()].copy_from_slice(program);
    image[0x134..0x138].copy_from_slice(b"GAME");
    image[0x147] = 0x03;
    image[0x149] = 0x02;
    image
}

fn gameboy(program: &[u8]) -> Gameboy {
    Gameboy::new_at(rom(program), None, None, false, 0).unwrap()
}

#[test]
fn a_machine_without_boot_image_starts_after_it() {
    let mut gb = gameboy(&[0x00, 0xC3, 0x00, 0x01]);
    assert_eq!(gb.cpu.registers.pc, 0x0100);
    assert_eq!(gb.cpu.registers.sp, 0xFFFE);
    assert_eq!(gb.cpu.registers.a, 0x01);
    assert_eq!(gb.rom_header().title, "GAME");
    assert!(matches!(gb.mapper(), Mapper::Mbc1(_)));
    assert!(gb.can_save());
    assert_eq!(CYCLES_PER_SECOND, 4_194_304);
    assert_eq!(gb.run_instruction(), 4);
    assert_eq!(gb.run_instruction(), 16);
    assert_eq!(gb.cpu.registers.pc, 0x0100);
    assert_eq!(gb.cpu.cycles, 20);
    assert_eq!(gb.screen().len(), 160 * 144);
}

#[test]
fn a_machine_with_boot_image_starts_in_it() {
    let mut boot = vec![0u8; 256];
    boot[0] = 0x3E;
    boot[1] = 0x77;
    let mut gb = Gameboy::new_at(rom(&[]), Some(boot), None, false, 0).unwrap();
    assert_eq!(gb.cpu.registers.pc, 0x0000);
    assert_eq!(gb.cpu.registers.a, 0x00);
    assert_eq!(gb.run_instruction(), 8);
    assert_eq!(gb.cpu.registers.a, 0x77);
}

#[test]
fn construction_errors_surface() {
    assert_eq!(
        Gameboy::new_at(rom(&[]), Some(vec![0; 10]), None, false, 0).unwrap_err(),
        Error::InvalidBootRom
    );
    assert_eq!(
        Gameboy::new_at(rom(&[]), None, Some(vec![0; 10]), false, 0).unwrap_err(),
        Error::InvalidSave
    );
    let mut plain = rom(&[]);
    plain[0x147] = 0x00;
    assert_eq!(
        Gameboy::new_at(plain, None, Some(vec![0; 0x2000]), false, 0).unwrap_err(),
        Error::SaveNotSupported
    );
    assert!(Gameboy::new(rom(&[]), None, Some(vec![0; 0x2000]), true).is_ok());
}

#[test]
fn a_frame_of_instructions_takes_70224_cycles() {
    // A loop of NOPs and a jump; the frame is over when the line counter
    // comes back to where it was.
    let mut gb = gameboy(&[0x00, 0x00, 0x18, 0xFC]);
    let mut cycles = 0;
    while gb.cpu.mmu.ppu.line_y == 0 {
        cycles += gb.run_instruction();
    }
    let lead = cycles;
    while gb.cpu.mmu.ppu.line_y != 0 {
        cycles += gb.run_instruction();
    }
    while gb.cpu.mmu.ppu.line_y == 0 {
        cycles += gb.run_instruction();
    }
    // From the start of line 1 to the start of line 1 of the next frame,
    // give or take the instruction in flight at either end.
    let frame = cycles - lead;
    assert!((70_224 - 12..=70_224 + 12).contains(&frame), "frame took {} cycles", frame);
    let position = |gb: &Gameboy| {
        gb.cpu.mmu.ppu.line_y as u64 * 456 + gb.cpu.mmu.ppu.line_cycles_count as u64 * 4
    };
    let start = position(&gb);
    let mut exact = 0;
    for _ in 0..10_000 {
        exact += gb.run_instruction();
    }
    assert_eq!((start + exact) % 70_224, position(&gb));
}

#[test]
fn the_picture_shows_the_background() {
    let mut gb = gameboy(&[0x18, 0xFE]);
    for _ in 0..20_000 {
        gb.run_instruction();
    }
    let white = Color::from_shade(Shade::White);
    assert!(gb.screen().iter().all(|pixel| *pixel == white));
    assert!(gb.cpu.mmu.is_wf());
}

#[test]
fn sound_deltas_are_drained() {
    let mut gb = gameboy(&[
        0x3E, 0x80, 0xE0, 0x26, // NR52 = 0x80
        0x3E, 0x77, 0xE0, 0x24, // NR50 = 0x77
        0x3E, 0x11, 0xE0, 0x25, // NR51 = 0x11
        0x3E, 0xF0, 0xE0, 0x12, // NR12 = 0xF0
        0x3E, 0x80, 0xE0, 0x14, // NR14 = 0x80
        0x00,
    ]);
    let mut total = 0;
    for _ in 0..11 {
        gb.run_instruction();
        let deltas = gb.samples();
        assert!(deltas.count <= 12);
        for i in 0..deltas.count {
            total += deltas.left[i];
            assert_eq!(deltas.left[i], deltas.right[i]);
        }
    }
    assert_eq!(total, -7 * 8 * 64);
    gb.run_instruction();
    assert_eq!(gb.samples().count, 0);
}

#[test]
fn buttons_reach_the_joypad_register() {
    let mut gb = gameboy(&[0x3E, 0x20, 0xE0, 0x00, 0xF0, 0x00]);
    gb.set_button(Button::Left, true);
    gb.run_instruction();
    gb.run_instruction();
    gb.run_instruction();
    assert_eq!(gb.cpu.registers.a, 0xC0 | 0x20 | 0x0D);
    gb.set_button(Button::Left, false);
    assert_eq!(gb.peek(0xFF00), 0xEF);
}

#[test]
fn save_data_comes_from_the_cartridge() {
    let mut gb = gameboy(&[
        0x3E, 0x0A, 0xEA, 0x00, 0x00, // enable RAM
        0x3E, 0x5A, 0xEA, 0x34, 0xA0, // RAM[0x34] = 0x5A
    ]);
    for _ in 0..4 {
        gb.run_instruction();
    }
    let save = gb.save_data_at(0);
    let ram = save.ram.unwrap();
    assert_eq!(ram.len(), 0x2000);
    assert_eq!(ram[0x34], 0x5A);
    assert_eq!(save.rtc, None);
    assert_eq!(gb.save_data().ram, Some(ram.clone()));
    let again = Gameboy::new_at(rom(&[]), None, Some(ram), false, 0).unwrap();
    assert_eq!(again.cpu.mmu.cartridge.ram[0x34], 0x5A);
}

#[test]
fn a_saved_state_is_restored_with_the_machines_rom() {
    let mut gb = gameboy(&[0x3C, 0x3C, 0x3C, 0x18, 0xFE]);
    gb.run_instruction();
    let mut state = gb.clone();
    state.cpu.mmu.cartridge.rom = Vec::new();
    state.cpu.mmu.cartridge.bootrom = None;
    gb.run_instruction();
    gb.run_instruction();
    assert_eq!(gb.cpu.registers.a, 4);
    assert!(state.is_restorable());
    assert_eq!(gb.reinit(state), Ok(()));
    assert_eq!(gb.cpu.registers.a, 2);
    assert_eq!(gb.cpu.mmu.cartridge.rom.len(), 0x8000);
    gb.run_instruction();
    assert_eq!(gb.cpu.registers.a, 3);
    let boot = Gameboy::new_at(rom(&[]), Some(vec![0; 256]), None, false, 0).unwrap();
    let mut needs_boot = boot.clone();
    needs_boot.cpu.mmu.cartridge.bootrom = None;
    needs_boot.cpu.mmu.cartridge.rom = Vec::new();
    assert_eq!(gb.reinit(needs_boot.clone()), Err(Error::MissingBootrom));
    assert_eq!(gb.cpu.registers.a, 3);
    let mut with_boot = boot;
    assert_eq!(with_boot.reinit(needs_boot), Ok(()));
    assert!(with_boot.cpu.mmu.cartridge.bootrom_enabled);
    assert_eq!(with_boot.cpu.mmu.cartridge.bootrom.as_ref().map(|b| b.len()), Some(256));
    let mut broken = gb.clone();
    broken.cpu.mmu.apu.delta_count = 99;
    assert!(!broken.is_restorable());
}

#[test]
fn debugger_commands() {
    let mut gb = Gameboy::new_at(rom(&[0x3C, 0x3C, 0x18, 0xFC]), None, None, true, 0).unwrap();
    assert!(gb.debugger_due());
    gb.debugger_entered();
    assert!(!gb.debugger_due());
    assert_eq!(gb.debug_command(DebugCommand::Breakpoint { address: 0x0102 }), DebugReply::Done);
    assert_eq!(gb.debug_command(DebugCommand::Breakpoint { address: 0x0102 }), DebugReply::Done);
    assert_eq!(gb.debug_command(DebugCommand::Breakpoint { address: 0x0200 }), DebugReply::Done);
    assert_eq!(
        gb.debug_command(DebugCommand::List),
        DebugReply::Breakpoints(vec![0x0102, 0x0200])
    );
    assert_eq!(
        gb.debug_command(DebugCommand::Read { address: 0x0102 }),
        DebugReply::Value { address: 0x0102, value: 0x18 }
    );
    assert_eq!(gb.debug_command(DebugCommand::Step), DebugReply::Stepped);
    assert_eq!(gb.cpu.registers.pc, 0x0101);
    assert!(!gb.debugger_due());
    assert_eq!(gb.debug_command(DebugCommand::Continue), DebugReply::Resume);
    gb.run_instruction();
    assert!(gb.debugger_due());
    match gb.debug_command(DebugCommand::Registers) {
        DebugReply::State { registers, interrupt_enable, interrupt_flags, execution_state } => {
            assert_eq!(registers.pc, 0x0102);
            assert_eq!(registers.a, 3);
            assert_eq!(interrupt_enable, 0);
            assert_eq!(interrupt_flags, 0);
            assert_eq!(execution_state, ExecutionState::Continue);
        }
        other => panic!("unexpected reply {:?}", other),
    }
    assert_eq!(gb.debug_command(DebugCommand::Delete { address: 0x0102 }), DebugReply::Done);
    assert_eq!(gb.debug_command(DebugCommand::List), DebugReply::Breakpoints(vec![0x0200]));
    assert!(!gb.debugger_due());
    gb.debug_break();
    assert!(gb.debugger_due());
}

#[test]
fn addresses_are_read_in_decimal_and_hexadecimal() {
    assert_eq!(parse_address("0"), Ok(0));
    assert_eq!(parse_address("256"), Ok(256));
    assert_eq!(parse_address("65535"), Ok(0xFFFF));
    assert_eq!(parse_address("0x0"), Ok(0));
    assert_eq!(parse_address("0x1fF"), Ok(0x1FF));
    assert_eq!(parse_address("0xFFFF"), Ok(0xFFFF));
    assert_eq!(parse_address("0007"), Ok(7));
    // One plus sign may stand before the digits.
    assert_eq!(parse_address("+12"), Ok(12));
    assert_eq!(parse_address("0x+1f"), Ok(0x1F));
    assert_eq!(parse_address("+65535"), Ok(0xFFFF));
    for bad in [
        "", "0x", "65536", "0x10000", "12a", "0xg", "-1", " 1", "1 ", "x10", "99999999999", "+",
        "0x+", "++1", "+0x1f", "1+", "+65536", "0X10",
    ] {
        assert_eq!(parse_address(bad), Err(InvalidAddress), "{:?}", bad);
    }
}

#[test]
fn a_tick_is_one_step() {
    let mut gb = gameboy(&[0x3C, 0xC3, 0x00, 0x01]);
    gb.tick();
    assert_eq!(gb.cpu.registers.a, 2);
    assert_eq!(gb.cpu.cycles, 4);
    gb.tick();
    assert_eq!(gb.cpu.registers.pc, 0x0100);
    assert_eq!(gb.cpu.cycles, 20);
}
