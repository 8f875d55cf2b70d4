use oxidegb::gameboy::interrupts::{Interrupt, InterruptSet};
use oxidegb::gameboy::mmu::{Dma, MemoryOps, Mmu};

fn rom() -> Vec<u8> {
    let mut image = vec![0u8; 0x8000];
    for (i, byte) in image.iter_mut().enumerate() {
        *byte = (i % 251) as u8;
    }
    for i in 0x134..0x150 {
        image[i] = 0;
    }
    image
}

fn mmu() -> Mmu {
    Mmu::new_at(rom(), None, None, 0).unwrap()
}

#[test]
fn sprite_memory_copy_takes_160_ticks() {
    let mut mmu = mmu();
    for i in 0..160u16 {
        mmu.write_byte(0xC000 + i, i as u8);
    }
    mmu.write_byte(0xFF46, 0xC0);
    for tick in 0..160usize {
        assert_eq!(mmu.dma, if tick == 0 { Dma::Idle } else { Dma::InProgress { offset: tick as u8, base_address: 0xC000 } });
        mmu.tick();
        for i in 0..160usize {
            assert_eq!(mmu.ppu.oam[i], if i <= tick { i as u8 } else { 0 }, "byte {} after tick {}", i, tick);
        }
    }
    assert_eq!(mmu.dma, Dma::Idle);
    for i in 0..160usize {
        assert_eq!(mmu.ppu.oam[i], i as u8);
    }
    assert_eq!(mmu.read_byte(0xFF46), 0xC0);
}

#[test]
fn memory_map() {
    let mut mmu = mmu();
    assert_eq!(mmu.read_byte(0x0000), 0);
    assert_eq!(mmu.read_byte(0x0101), (0x101 % 251) as u8);
    assert_eq!(mmu.read_byte(0x7FFF), (0x7FFF % 251) as u8);
    mmu.write_byte(0xC123, 0x11);
    assert_eq!(mmu.read_byte(0xC123), 0x11);
    assert_eq!(mmu.read_byte(0xE123), 0x11);
    mmu.write_byte(0xFDFF, 0x22);
    assert_eq!(mmu.read_byte(0xDDFF), 0x22);
    assert_eq!(mmu.read_byte(0xA000), 0xFF);
    for address in 0xFEA0..=0xFEFFu16 {
        mmu.write_byte(address, 0x33);
        assert_eq!(mmu.read_byte(address), 0xFF);
    }
    for address in 0xFF08..=0xFF0Eu16 {
        assert_eq!(mmu.read_byte(address), 0xFF);
    }
    for address in 0xFF50..=0xFF7Fu16 {
        mmu.write_byte(address, 0);
        assert_eq!(mmu.read_byte(address), 0xFF);
    }
    for address in 0xFF80..=0xFFFEu16 {
        mmu.write_byte(address, address as u8);
    }
    for address in 0xFF80..=0xFFFEu16 {
        assert_eq!(mmu.read_byte(address), address as u8);
    }
    mmu.write_byte(0xFF42, 0x44);
    assert_eq!(mmu.read_byte(0xFF42), 0x44);
    assert_eq!(mmu.ppu.scroll_y, 0x44);
    mmu.write_byte(0xFF06, 0x55);
    assert_eq!(mmu.read_byte(0xFF06), 0x55);
    mmu.write_byte(0xFF26, 0x80);
    mmu.write_byte(0xFF24, 0x66);
    assert_eq!(mmu.read_byte(0xFF24), 0x66);
    mmu.write_byte(0xFF30, 0x77);
    assert_eq!(mmu.read_byte(0xFF30), 0x77);
}

#[test]
fn interrupt_registers() {
    let mut mmu = mmu();
    assert_eq!(mmu.read_byte(0xFF0F), 0xE0);
    mmu.write_byte(0xFF0F, 0xFF);
    assert_eq!(mmu.read_byte(0xFF0F), 0xFF);
    mmu.write_byte(0xFF0F, 0x05);
    assert_eq!(mmu.read_byte(0xFF0F), 0xE5);
    assert_eq!(mmu.read_byte(0xFFFF), 0x00);
    mmu.write_byte(0xFFFF, 0xE4);
    assert_eq!(mmu.read_byte(0xFFFF), 0xE4);
    assert_eq!(mmu.interrupts(), InterruptSet::new_truncated(0x04));
    assert_eq!(mmu.next_interrupt(), Some(Interrupt::Timer));
    mmu.write_byte(0xFFFF, 0x1F);
    assert_eq!(mmu.next_interrupt(), Some(Interrupt::VBlank));
    mmu.reset_interrupt(Interrupt::VBlank);
    assert_eq!(mmu.next_interrupt(), Some(Interrupt::Timer));
    mmu.reset_interrupt(Interrupt::Timer);
    assert_eq!(mmu.next_interrupt(), None);
}

#[test]
fn words_are_read_low_byte_first_and_written_high_byte_first() {
    let mut mmu = mmu();
    mmu.write_dbyte(0xC000, 0x1234);
    assert_eq!(mmu.read_byte(0xC000), 0x34);
    assert_eq!(mmu.read_byte(0xC001), 0x12);
    assert_eq!(mmu.read_dbyte(0xC000), 0x1234);
    mmu.write_byte(0xFFFF, 0x0A);
    assert_eq!(mmu.read_dbyte(0xFFFF), 0x000A | ((mmu.read_byte(0x0000) as u16) << 8));
}

#[test]
fn boot_image_is_switched_off_by_a_nonzero_write() {
    let mut mmu = Mmu::new_at(rom(), Some(vec![0x5A; 256]), None, 0).unwrap();
    assert!(!mmu.ppu.lcdc.lcd_enable);
    assert_eq!(mmu.read_byte(0x0000), 0x5A);
    assert_eq!(mmu.read_byte(0x00FF), 0x5A);
    assert_eq!(mmu.read_byte(0x0100), (0x100 % 251) as u8);
    mmu.write_byte(0xFF50, 0x00);
    assert_eq!(mmu.read_byte(0x0000), 0x5A);
    mmu.write_byte(0xFF50, 0x01);
    assert_eq!(mmu.read_byte(0x0000), 0x00);
    assert_eq!(mmu.read_byte(0x0005), 0x05);
    mmu.write_byte(0xFF50, 0x00);
    assert_eq!(mmu.read_byte(0x0005), 0x05);
}

#[test]
fn a_tick_moves_every_unit() {
    let mut mmu = mmu();
    mmu.write_byte(0xFFFF, 0x01);
    let mut vblank_at = None;
    for tick in 1..=(114 * 145) {
        mmu.tick();
        if vblank_at.is_none() && mmu.interrupt_flags.vblank {
            vblank_at = Some(tick);
        }
    }
    assert_eq!(vblank_at, Some(114 * 144));
    assert_eq!(mmu.io.read(0xFF04), ((114 * 145 * 4) >> 8) as u8);
    assert_eq!(mmu.next_interrupt(), Some(Interrupt::VBlank));
    assert!(mmu.is_wf());
    let mut stopped = self::mmu();
    let divider = stopped.io.timer.divider;
    stopped.io.buttons.set_button(oxidegb::gameboy::io::Button::A, true);
    stopped.tick_stopped();
    assert!(stopped.interrupt_flags.joypad);
    assert_eq!(stopped.io.timer.divider, divider);
    assert_eq!(stopped.ppu.line_cycles_count, 0);
}
