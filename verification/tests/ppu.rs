use oxidegb::gameboy::interrupts::InterruptSet;
use oxidegb::gameboy::ppu::lcd_control::{LcdControl, SpriteSize, TileDataAddressing, TileMapRange};
use oxidegb::gameboy::ppu::lcd_status::{LcdStatus, Mode};
use oxidegb::gameboy::ppu::obj::{Attributes, Palette as ObjPalette, Priority, VisibleObjs};
use oxidegb::gameboy::ppu::palette::{Color as Shade, Palette};
use oxidegb::gameboy::ppu::pixel_transfer::{mix_pixels, BgPixel, Fetcher, ObjPixel, PixelFifo};
use oxidegb::gameboy::ppu::{Color, DmaRequest, Palettes, Ppu};

/// A unit with the display off, tile zero filled with colour index
/// `index`, and the identity palette.
fn with_solid_tile(index: u8) -> Ppu {
    let mut ppu = Ppu::new();
    for row in 0..8u16 {
        ppu.write_vram(row * 2, if index & 1 != 0 { 0xFF } else { 0x00 });
        ppu.write_vram(row * 2 + 1, if index & 2 != 0 { 0xFF } else { 0x00 });
    }
    ppu.write_registers(0xFF47, 0xE4);
    ppu
}

fn run_line(ppu: &mut Ppu) {
    for _ in 0..114 {
        ppu.tick();
    }
}

#[test]
fn a_frame_takes_70224_master_cycles() {
    let mut ppu = Ppu::new_post_bootrom();
    let mut vblanks = 0;
    let mut lines = Vec::new();
    for tick in 1..=17_556u32 {
        let before = ppu.line_y;
        let (raised, _) = ppu.tick();
        if raised.vblank {
            vblanks += 1;
        }
        if ppu.line_y != before {
            lines.push(ppu.line_y);
        }
        if tick < 17_556 {
            assert!(!(ppu.line_y == 0 && ppu.line_cycles_count == 0));
        }
    }
    assert_eq!(17_556 * 4, 70_224);
    assert_eq!((ppu.line_y, ppu.line_cycles_count), (0, 0));
    assert_eq!(vblanks, 1);
    let mut expected: Vec<u8> = (1..=153).collect();
    expected.push(0);
    assert_eq!(lines, expected);
}

#[test]
fn modes_follow_the_line() {
    let mut ppu = Ppu::new_post_bootrom();
    assert_eq!(ppu.stat.mode, Mode::OamSearch);
    for _ in 0..19 {
        ppu.tick();
        assert_eq!(ppu.stat.mode, Mode::OamSearch);
    }
    ppu.tick();
    assert_eq!(ppu.stat.mode, Mode::PixelTransfer);
    let mut transfer = 0;
    while ppu.stat.mode == Mode::PixelTransfer {
        ppu.tick();
        transfer += 1;
    }
    assert!(transfer > 40 && transfer < 94, "pixel transfer took {} cycles", transfer);
    assert_eq!(ppu.stat.mode, Mode::HBlank);
    while ppu.line_y == 0 {
        ppu.tick();
    }
    assert_eq!(ppu.stat.mode, Mode::OamSearch);
    while ppu.line_y != 144 {
        ppu.tick();
    }
    assert_eq!(ppu.stat.mode, Mode::VBlank);
}

#[test]
fn scrolled_background_starts_at_the_scroll_position() {
    let mut ppu = with_solid_tile(2);
    ppu.write_registers(0xFF43, 4);
    ppu.write_registers(0xFF42, 0);
    ppu.write_registers(0xFF40, 0x91);
    run_line(&mut ppu);
    let dark = Color::from_shade(Shade::DarkGray);
    assert_eq!(ppu.screen()[0], dark);
    for column in 0..160 {
        assert_eq!(ppu.screen()[column], dark, "column {}", column);
    }
    assert_eq!(dark.rgba(), [0x34, 0x68, 0x56, 0xFF]);
}

#[test]
fn a_plain_line_is_painted_whatever_the_scroll() {
    let light = Color::from_shade(Shade::LightGray);
    for scroll_x in 0..=255u8 {
        let mut ppu = with_solid_tile(1);
        ppu.write_registers(0xFF43, scroll_x);
        ppu.write_registers(0xFF42, scroll_x.wrapping_mul(7));
        ppu.write_registers(0xFF40, 0x91);
        for _ in 0..66 {
            ppu.tick();
        }
        assert_eq!(ppu.stat.mode, Mode::HBlank, "scroll {}", scroll_x);
        assert_eq!((ppu.line_y, ppu.line_cycles_count), (0, 66));
        for column in 0..160 {
            assert_eq!(ppu.screen()[column], light, "scroll {} column {}", scroll_x, column);
        }
        for _ in 66..114 {
            assert_eq!(ppu.stat.mode, Mode::HBlank);
            ppu.tick();
        }
        assert_eq!(ppu.line_y, 1, "scroll {}", scroll_x);
        for column in 0..160 {
            assert_eq!(ppu.screen()[column], light, "scroll {} column {}", scroll_x, column);
        }
    }
}

#[test]
fn a_line_without_sprites_takes_172_dots_and_the_fine_scroll() {
    for scroll_x in 0..=255u8 {
        let mut ppu = with_solid_tile(1);
        ppu.write_registers(0xFF43, scroll_x);
        ppu.write_registers(0xFF40, 0x91);
        for _ in 0..20 {
            assert_eq!(ppu.stat.mode, Mode::OamSearch);
            ppu.tick();
        }
        assert!(!ppu.fetcher.waiting_cycle);
        let dots = 172 + (scroll_x % 8) as u32;
        let mut cycles = 0;
        while ppu.stat.mode == Mode::PixelTransfer {
            ppu.tick();
            cycles += 1;
        }
        assert_eq!(cycles, (dots + 3) / 4, "scroll {}", scroll_x);
        assert_eq!(ppu.stat.mode, Mode::HBlank);
        assert_eq!(ppu.line_y, 0);
    }
}

#[test]
fn fine_scroll_shifts_the_picture() {
    // Tile 0 is white, tile 1 is black; the map holds tile 1 in column 1 only.
    let mut ppu = Ppu::new();
    for row in 0..8u16 {
        ppu.write_vram(16 + row * 2, 0xFF);
        ppu.write_vram(16 + row * 2 + 1, 0xFF);
    }
    ppu.write_vram(0x1800 + 1, 1);
    ppu.write_registers(0xFF47, 0xE4);
    ppu.write_registers(0xFF43, 3);
    ppu.write_registers(0xFF40, 0x91);
    run_line(&mut ppu);
    let white = Color::from_shade(Shade::White);
    let black = Color::from_shade(Shade::Black);
    for column in 0..160usize {
        let expected = if (5..13).contains(&column) { black } else { white };
        assert_eq!(ppu.screen()[column], expected, "column {}", column);
    }
}

#[test]
fn background_off_shows_white() {
    let mut ppu = with_solid_tile(3);
    ppu.write_registers(0xFF40, 0x90);
    run_line(&mut ppu);
    assert_eq!(ppu.screen()[0], Color::from_shade(Shade::White));
}

#[test]
fn sprites_are_drawn_over_the_background() {
    let mut ppu = with_solid_tile(0);
    // Tile 1: every pixel colour index 3.
    for row in 0..8u16 {
        ppu.write_vram(16 + row * 2, 0xFF);
        ppu.write_vram(16 + row * 2 + 1, 0xFF);
    }
    // Sprite 0 at screen column 16, row 0.
    ppu.oam[0] = 16;
    ppu.oam[1] = 24;
    ppu.oam[2] = 1;
    ppu.oam[3] = 0;
    ppu.write_registers(0xFF48, 0xE4);
    ppu.write_registers(0xFF40, 0x93);
    run_line(&mut ppu);
    let white = Color::from_shade(Shade::White);
    let black = Color::from_shade(Shade::Black);
    for column in 0..160usize {
        let expected = if (16..24).contains(&column) { black } else { white };
        assert_eq!(ppu.screen()[column], expected, "column {}", column);
    }
}

#[test]
fn sprite_search_keeps_ten_in_memory_order() {
    let mut ppu = Ppu::new();
    for slot in 0..12usize {
        ppu.oam[slot * 4] = 16;
        ppu.oam[slot * 4 + 1] = 8 + slot as u8;
        ppu.oam[slot * 4 + 2] = slot as u8;
    }
    // One sprite off the line and one parked at column zero.
    ppu.oam[12 * 4] = 40;
    ppu.oam[12 * 4 + 1] = 8;
    ppu.oam[13 * 4] = 16;
    ppu.oam[13 * 4 + 1] = 0;
    for _ in 0..40 {
        ppu.tick_oam_search();
    }
    assert_eq!(ppu.oam_index, 160);
    assert_eq!(ppu.visible_objs.count, 10);
    for slot in 0..10usize {
        assert_eq!(ppu.visible_objs.objs[slot].tile_index, slot as u8);
    }
    let mut few = Ppu::new();
    few.oam[12 * 4] = 40;
    few.oam[12 * 4 + 1] = 8;
    few.oam[13 * 4] = 16;
    few.oam[13 * 4 + 1] = 0;
    few.oam[14 * 4] = 9;
    few.oam[14 * 4 + 1] = 8;
    for _ in 0..40 {
        few.tick_oam_search();
    }
    // Rows 16 to 23 of a sprite at y = 9 are lines -7 to 0: it shows on line 0.
    assert_eq!(few.visible_objs.count, 1);
    assert_eq!(few.visible_objs.objs[0].y, 9);
}

#[test]
fn video_memory_is_locked_during_transfer() {
    let mut ppu = Ppu::new_post_bootrom();
    ppu.write_vram(0x10, 0xAA);
    assert_eq!(ppu.read_vram(0x10), 0xAA);
    assert_eq!(ppu.read_oam(0x10), 0xFF);
    ppu.write_oam(0x10, 0x55);
    for _ in 0..20 {
        ppu.tick();
    }
    assert_eq!(ppu.stat.mode, Mode::PixelTransfer);
    assert_eq!(ppu.read_vram(0x10), 0xFF);
    ppu.write_vram(0x10, 0xBB);
    while ppu.stat.mode != Mode::HBlank {
        ppu.tick();
    }
    assert_eq!(ppu.read_vram(0x10), 0xAA);
    assert_eq!(ppu.read_oam(0x10), 0x00);
    ppu.write_oam(0x10, 0x55);
    assert_eq!(ppu.read_oam(0x10), 0x55);
    assert_eq!(ppu.read_vram(0x2000), 0xFF);
    assert_eq!(ppu.read_oam(0xA0), 0xFF);
    ppu.copy_to_oam(0x11, 0x66);
    assert_eq!(ppu.oam[0x11], 0x66);
}

#[test]
fn registers_read_back() {
    let mut ppu = Ppu::new();
    let cases: [(u16, u8, u8); 11] = [
        (0xFF40, 0x13, 0x13),
        (0xFF41, 0xFF, 0xFA),
        (0xFF42, 0x12, 0x12),
        (0xFF43, 0x34, 0x34),
        (0xFF44, 0x99, 0x00),
        (0xFF45, 0x56, 0x56),
        (0xFF47, 0x1B, 0x1B),
        (0xFF48, 0xE4, 0xE4),
        (0xFF49, 0x27, 0x27),
        (0xFF4A, 0x78, 0x78),
        (0xFF4B, 0x9A, 0x9A),
    ];
    for (address, written, read) in cases {
        ppu.write_registers(address, written);
        assert_eq!(ppu.read_registers(address), read, "register {:04X}", address);
    }
    assert_eq!(ppu.read_registers(0xFF4C), 0xFF);
    assert_eq!(ppu.read_registers(0xFF4F), 0xFF);
    ppu.write_registers(0xFF46, 0xC0);
    assert_eq!(ppu.read_registers(0xFF46), 0xC0);
    assert_eq!(ppu.dma, DmaRequest::Start(0xC0));
    let (_, request) = ppu.tick();
    assert_eq!(request, DmaRequest::Start(0xC0));
    assert_eq!(ppu.tick().1, DmaRequest::Idle);
}

#[test]
fn status_interrupts_follow_their_enables() {
    let mut ppu = Ppu::new_post_bootrom();
    ppu.write_registers(0xFF41, 0x08);
    let mut hblanks = 0;
    for _ in 0..114 {
        let (raised, _) = ppu.tick();
        if raised.lcd_stat {
            hblanks += 1;
            assert_eq!(ppu.stat.mode, Mode::HBlank);
        }
    }
    assert_eq!(hblanks, 1);
    let mut ppu = Ppu::new_post_bootrom();
    ppu.write_registers(0xFF41, 0x40);
    ppu.write_registers(0xFF45, 2);
    let mut hits = Vec::new();
    for _ in 0..(114 * 4) {
        let (raised, _) = ppu.tick();
        if raised.lcd_stat {
            hits.push(ppu.line_y);
        }
    }
    assert_eq!(hits, vec![2]);
    assert_eq!(ppu.read_registers(0xFF41) & 0x04, 0);
    let mut ppu = Ppu::new_post_bootrom();
    ppu.write_registers(0xFF41, 0x10);
    let mut raised_at = Vec::new();
    for _ in 0..(114 * 154) {
        let (raised, _) = ppu.tick();
        if raised.lcd_stat {
            raised_at.push(ppu.line_y);
            assert!(raised.vblank);
        }
    }
    assert_eq!(raised_at, vec![144]);
    let mut off = Ppu::new();
    assert_eq!(off.tick().0, InterruptSet::new());
    assert_eq!(off.stat.mode, Mode::VBlank);
}

#[test]
fn switching_the_display_on_restarts_the_frame() {
    let mut ppu = Ppu::new_post_bootrom();
    for _ in 0..(114 * 150) {
        ppu.tick();
    }
    assert_eq!(ppu.line_y, 150);
    ppu.write_registers(0xFF40, 0x11);
    ppu.write_registers(0xFF40, 0x91);
    assert_eq!((ppu.line_y, ppu.line_cycles_count, ppu.stat.mode), (0, 0, Mode::OamSearch));
    assert!(ppu.is_wf());
}

#[test]
fn control_and_status_bytes() {
    let mut lcdc = LcdControl::new();
    assert_eq!(lcdc.value(), 0);
    for byte in 0..=255u8 {
        lcdc.set_value(byte);
        assert_eq!(lcdc.value(), byte);
    }
    lcdc.set_value(0x91);
    assert!(lcdc.lcd_enable && lcdc.bg_window_enable && !lcdc.obj_enable);
    assert_eq!(lcdc.bg_window_addressing, TileDataAddressing::Unsigned);
    assert_eq!(lcdc.bg_tile_map, TileMapRange::Low);
    assert_eq!(lcdc.obj_size, SpriteSize::S8x8);
    let mut stat = LcdStatus::new();
    assert_eq!(stat.value(), 0x82);
    stat.set_value(0x78);
    assert!(stat.coincidence_interrupt_enabled() && stat.oam_interrupt_enabled());
    assert!(stat.vblank_interrupt_enabled() && stat.hblank_interrupt_enabled());
    stat.lyc_coincidence = true;
    stat.mode = Mode::PixelTransfer;
    assert_eq!(stat.value(), 0xFF);
}

#[test]
fn tile_addresses() {
    assert_eq!(TileMapRange::Low.base_address(), 0x1800);
    assert_eq!(TileMapRange::High.base_address(), 0x1C00);
    assert_eq!(TileDataAddressing::Unsigned.address_from_index_bg(0, 0), 0x0000);
    assert_eq!(TileDataAddressing::Unsigned.address_from_index_bg(255, 7), 0x0FFE);
    assert_eq!(TileDataAddressing::Signed.address_from_index_bg(0, 0), 0x1000);
    assert_eq!(TileDataAddressing::Signed.address_from_index_bg(127, 9), 0x17F2);
    assert_eq!(TileDataAddressing::Signed.address_from_index_bg(128, 0), 0x0800);
    assert_eq!(TileDataAddressing::Signed.address_from_index_bg(255, 0), 0x0FF0);
    assert_eq!(
        TileDataAddressing::Unsigned.address_from_index_obj(2, 15, SpriteSize::S8x16),
        0x003E
    );
    assert_eq!(
        TileDataAddressing::Unsigned.address_from_index_obj(2, 15, SpriteSize::S8x8),
        0x002E
    );
    assert_eq!(SpriteSize::S8x8.height(), 8);
    assert_eq!(SpriteSize::S8x16.height(), 16);
}

#[test]
fn sprite_attributes_are_decoded() {
    let a = Attributes::parse([0x20, 0x30, 0x42, 0xF0]);
    assert_eq!((a.y, a.x, a.tile_index), (0x20, 0x30, 0x42));
    assert!(a.flip_x && a.flip_y);
    assert_eq!(a.priority, Priority::BehindNonZeroBg);
    assert_eq!(a.palette, ObjPalette::ObjP1);
    let b = Attributes::parse([0, 0, 0, 0x0F]);
    assert!(!b.flip_x && !b.flip_y);
    assert_eq!(b.priority, Priority::AboveBg);
    assert_eq!(b.palette, ObjPalette::ObjP0);
    let mut found = VisibleObjs::new();
    assert_eq!(found.len(), 0);
    found.push(a);
    assert_eq!(found.len(), 1);
    assert_eq!(found.objs[0], a);
    found.clear();
    assert_eq!(found.len(), 0);
}

#[test]
fn palettes_pick_shades() {
    let mut palette = Palette::new();
    assert_eq!(palette.value(), 0);
    for byte in 0..=255u8 {
        palette.set_value(byte);
        assert_eq!(palette.value(), byte);
    }
    palette.set_value(0x1B);
    assert_eq!(palette.color(0), Shade::Black);
    assert_eq!(palette.color(1), Shade::DarkGray);
    assert_eq!(palette.color(2), Shade::LightGray);
    assert_eq!(palette.color(3), Shade::White);
    assert_eq!(Color::from_shade(Shade::White).rgba(), [0xE0, 0xF8, 0xD0, 0xFF]);
    assert_eq!(Color::from_shade(Shade::LightGray).rgba(), [0x88, 0xC0, 0x70, 0xFF]);
    assert_eq!(Color::from_shade(Shade::Black).rgba(), [0x08, 0x18, 0x20, 0xFF]);
}

#[test]
fn mixing_follows_priority_and_transparency() {
    let mut identity = Palette::new();
    identity.set_value(0xE4);
    let mut inverted = Palette::new();
    inverted.set_value(0x1B);
    let palettes = Palettes { bg: identity, obj_0: inverted, obj_1: identity };
    let mut lcdc = LcdControl::new();
    lcdc.set_value(0x93);
    let bg = |index| BgPixel { index };
    let obj = |index, palette, priority| Some(ObjPixel { index, palette, priority });
    assert_eq!(mix_pixels(bg(2), None, &lcdc, &palettes), Shade::DarkGray);
    assert_eq!(
        mix_pixels(bg(2), obj(1, ObjPalette::ObjP0, Priority::AboveBg), &lcdc, &palettes),
        Shade::DarkGray
    );
    assert_eq!(
        mix_pixels(bg(2), obj(1, ObjPalette::ObjP1, Priority::AboveBg), &lcdc, &palettes),
        Shade::LightGray
    );
    assert_eq!(
        mix_pixels(bg(2), obj(0, ObjPalette::ObjP1, Priority::AboveBg), &lcdc, &palettes),
        Shade::DarkGray
    );
    assert_eq!(
        mix_pixels(bg(2), obj(3, ObjPalette::ObjP1, Priority::BehindNonZeroBg), &lcdc, &palettes),
        Shade::DarkGray
    );
    assert_eq!(
        mix_pixels(bg(0), obj(3, ObjPalette::ObjP1, Priority::BehindNonZeroBg), &lcdc, &palettes),
        Shade::Black
    );
    lcdc.set_value(0x91);
    assert_eq!(
        mix_pixels(bg(1), obj(3, ObjPalette::ObjP1, Priority::AboveBg), &lcdc, &palettes),
        Shade::LightGray
    );
    lcdc.set_value(0x90);
    assert_eq!(mix_pixels(bg(3), None, &lcdc, &palettes), Shade::White);
}

#[test]
fn pixel_queues() {
    let mut queue: PixelFifo<BgPixel> = PixelFifo::new();
    assert_eq!(queue.pop(), None);
    let line = [0u8, 1, 2, 3, 0, 1, 2, 3].map(|index| BgPixel { index });
    assert!(queue.push_line(&line));
    assert!(!queue.push_line(&line));
    for expected in line {
        assert_eq!(queue.pop(), Some(expected));
    }
    assert_eq!(queue.pop(), None);
    assert!(queue.push_line(&line));
    queue.clear();
    assert_eq!(queue.pop(), None);
    let pixel = |index, palette| ObjPixel { index, palette, priority: Priority::AboveBg };
    let mut sprites: PixelFifo<ObjPixel> = PixelFifo::new();
    let first = [1u8, 0, 2, 0, 0, 0, 0, 3].map(|i| pixel(i, ObjPalette::ObjP0));
    sprites.push_line(&first);
    assert_eq!(sprites.pop(), Some(first[0]));
    // A transparent pixel is kept as the blank one.
    assert_eq!(sprites.pop(), Some(ObjPixel::default()));
    let second = [3u8, 3, 3, 3, 3, 3, 3, 3].map(|i| pixel(i, ObjPalette::ObjP1));
    sprites.push_line(&second);
    // What was left of the first sprite stays where it is not transparent.
    let expected = [
        first[2], second[1], second[2], second[3], second[4], first[7], second[6], second[7],
    ];
    for e in expected {
        assert_eq!(sprites.pop(), Some(e));
    }
    assert_eq!(sprites.pop(), None);
}

#[test]
fn fetcher_unpacks_rows_and_steps_every_other_dot() {
    assert_eq!(Fetcher::unpack_indices(0b1010_0101, 0b1100_0011), [3, 2, 1, 0, 0, 1, 2, 3]);
    let mut fetcher = Fetcher::new();
    let mut bg: PixelFifo<BgPixel> = PixelFifo::new();
    let mut obj: PixelFifo<ObjPixel> = PixelFifo::new();
    let found = VisibleObjs::new();
    let mut lcdc = LcdControl::new();
    lcdc.set_value(0x91);
    let mut vram = [0u8; 8192];
    vram[0x1800] = 1;
    vram[16] = 0b1010_0101;
    vram[17] = 0b1100_0011;
    let mut dots = 0;
    // Three steps of start-up give eight blank pixels.
    while bg.size == 0 {
        let pending = fetcher.tick(&mut bg, &mut obj, &found, &lcdc, 0, 0, 0, 0, &vram, false, 0);
        assert!(!pending);
        dots += 1;
    }
    assert_eq!(dots, 5);
    for _ in 0..8 {
        assert_eq!(bg.pop(), Some(BgPixel { index: 0 }));
    }
    while bg.size == 0 {
        fetcher.tick(&mut bg, &mut obj, &found, &lcdc, 0, 0, 0, 0, &vram, false, 0);
        dots += 1;
    }
    let row: Vec<u8> = (0..8).map(|_| bg.pop().unwrap().index).collect();
    assert_eq!(row, vec![3, 2, 1, 0, 0, 1, 2, 3]);
    assert_eq!(fetcher.tile_map_index, 1);
    fetcher.start_window();
    assert_eq!(fetcher.tile_map_index, 0);
    fetcher.tile_map_index = 5;
    fetcher.start_line();
    assert_eq!(fetcher.tile_map_index, 0);
}

#[test]
fn window_covers_the_background_from_its_column() {
    // Background: tile 0 (white). Window map at 0x1C00: tile 1 (black).
    let mut ppu = Ppu::new();
    for row in 0..8u16 {
        ppu.write_vram(16 + row * 2, 0xFF);
        ppu.write_vram(16 + row * 2 + 1, 0xFF);
    }
    for column in 0..32u16 {
        ppu.write_vram(0x1C00 + column, 1);
    }
    ppu.write_registers(0xFF47, 0xE4);
    ppu.write_registers(0xFF4A, 0);
    ppu.write_registers(0xFF4B, 87);
    ppu.write_registers(0xFF40, 0xF1);
    run_line(&mut ppu);
    let white = Color::from_shade(Shade::White);
    let black = Color::from_shade(Shade::Black);
    assert_eq!(ppu.screen()[0], white);
    assert_eq!(ppu.screen()[79], white);
    assert_eq!(ppu.screen()[80], black);
    assert_eq!(ppu.screen()[159], black);
    assert_eq!(ppu.line_y_window, 1);
}

#[test]
fn status_shows_the_live_line_comparison() {
    let mut ppu = Ppu::new_post_bootrom();
    // Display on, on line zero, compared with line zero.
    assert_eq!(ppu.read_registers(0xFF41), 0x80 | 0x04 | 0x02);
    ppu.write_registers(0xFF45, 1);
    assert_eq!(ppu.read_registers(0xFF41) & 0x04, 0);
    ppu.write_registers(0xFF45, 0);
    assert_eq!(ppu.read_registers(0xFF41) & 0x04, 0x04);
    ppu.write_registers(0xFF41, 0x28);
    ppu.write_registers(0xFF45, 100);
    for _ in 0..(2 * 114 * 154) {
        ppu.tick();
        let status = ppu.read_registers(0xFF41);
        let line = ppu.read_registers(0xFF44);
        let compared = ppu.read_registers(0xFF45);
        assert_eq!(status & 0x04 != 0, line == compared, "line {}", line);
        assert_eq!(status & 0x78, 0x28);
        assert_eq!(status & 0x80, 0x80);
        let mode = match ppu.stat.mode {
            Mode::HBlank => 0,
            Mode::VBlank => 1,
            Mode::OamSearch => 2,
            Mode::PixelTransfer => 3,
        };
        assert_eq!(status & 0x03, mode);
        if line == 50 && ppu.line_cycles_count == 7 {
            // A write to the compared line shows at once.
            ppu.write_registers(0xFF45, 50);
            assert_eq!(ppu.read_registers(0xFF41) & 0x04, 0x04);
            ppu.write_registers(0xFF45, 100);
            assert_eq!(ppu.read_registers(0xFF41) & 0x04, 0);
        }
    }
    assert!(ppu.is_wf());
}

#[test]
fn status_flag_rests_while_the_display_is_off() {
    let mut ppu = Ppu::new_post_bootrom();
    for _ in 0..(114 * 3) {
        ppu.tick();
    }
    ppu.write_registers(0xFF45, 3);
    assert_eq!(ppu.read_registers(0xFF41) & 0x04, 0x04);
    ppu.write_registers(0xFF40, 0x11);
    // Off: the flag keeps what it last showed, whatever is written.
    assert_eq!(ppu.read_registers(0xFF41) & 0x04, 0x04);
    ppu.tick();
    ppu.write_registers(0xFF45, 9);
    assert_eq!(ppu.read_registers(0xFF41) & 0x04, 0x04);
    // On again: the frame restarts on line zero and the flag is taken anew.
    ppu.write_registers(0xFF40, 0x91);
    assert_eq!(ppu.read_registers(0xFF44), 0);
    assert_eq!(ppu.read_registers(0xFF41) & 0x04, 0);
    ppu.write_registers(0xFF40, 0x11);
    ppu.write_registers(0xFF45, 0);
    ppu.write_registers(0xFF40, 0x91);
    assert_eq!(ppu.read_registers(0xFF41) & 0x04, 0x04);
    assert!(ppu.is_wf());
    let mut stale = Ppu::new_post_bootrom();
    stale.stat.lyc_coincidence = false;
    assert!(!stale.is_wf());
}
