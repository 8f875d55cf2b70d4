use oxidegb::error::{Error, HeaderFault};
use oxidegb::gameboy::cartridge::mbc1::Mbc1;
use oxidegb::gameboy::cartridge::mbc2::Mbc2;
use oxidegb::gameboy::cartridge::mbc3::{Mbc3, RtcRegisters};
use oxidegb::gameboy::cartridge::mbc5::Mbc5;
use oxidegb::gameboy::cartridge::rom_only::RomOnly;
use oxidegb::gameboy::cartridge::{Cartridge, Destination, Header, Mapper, MapperOps};

/// A ROM image of `banks` banks whose every byte holds the number of
/// its bank, with a header for the given cartridge type and sizes.
fn rom(kind: u8, rom_code: u8, ram_code: u8) -> Vec<u8> {
    let banks = 2usize << rom_code;
    let mut image = vec![0u8; banks * 0x4000];
    for (i, byte) in image.iter_mut().enumerate() {
        *byte = (i / 0x4000) as u8;
    }
    for (i, byte) in b"TEST".iter().enumerate() {
        image[0x134 + i] = *byte;
    }
    for i in 4..16 {
        image[0x134 + i] = 0;
    }
    image[0x147] = kind;
    image[0x148] = rom_code;
    image[0x149] = ram_code;
    image[0x14A] = 1;
    image
}

fn cartridge(kind: u8, rom_code: u8, ram_code: u8) -> Cartridge {
    Cartridge::new_at(rom(kind, rom_code, ram_code), None, None, 0).unwrap()
}

#[test]
fn header_is_read_from_the_image() {
    let (header, mapper) = Header::parse(&rom(0x03, 2, 3)).unwrap();
    assert_eq!(header.title, "TEST");
    assert_eq!(header.rom_bank_count, 8);
    assert_eq!(header.rom_size, 8 * 0x4000);
    assert_eq!(header.ram_bank_count, 4);
    assert_eq!(header.ram_size, 4 * 0x2000);
    assert_eq!(header.destination, Destination::NonJapanese);
    assert_eq!(mapper, Mapper::Mbc1(Mbc1::new(8, true, true)));
}

#[test]
fn rom_size_byte_names_a_power_of_two() {
    for code in 0..=8u8 {
        let mut image = vec![0u8; 0x150];
        image[0x148] = code;
        let (header, _) = Header::parse(&image).unwrap();
        assert_eq!(header.rom_bank_count, 1u32 << (code + 1));
    }
}

#[test]
fn title_field_may_be_full() {
    let mut image = rom(0, 0, 0);
    for i in 0..16 {
        image[0x134 + i] = b'A' + i as u8;
    }
    let (header, _) = Header::parse(&image).unwrap();
    assert_eq!(header.title, "ABCDEFGHIJKLMNOP");
}

#[test]
fn header_faults_are_told_apart() {
    assert_eq!(
        Header::parse(&vec![0u8; 0x14E]).unwrap_err(),
        Error::InvalidRomHeader(HeaderFault::TooShort)
    );
    // An image of 0x14F bytes lacks the header's last byte, at 0x14F.
    assert_eq!(
        Header::parse(&vec![0u8; 0x14F]).unwrap_err(),
        Error::InvalidRomHeader(HeaderFault::TooShort)
    );
    assert!(Header::parse(&vec![0u8; 0x150]).is_ok());
    assert_eq!(
        Header::parse(&[]).unwrap_err(),
        Error::InvalidRomHeader(HeaderFault::TooShort)
    );
    let mut image = rom(0, 0, 0);
    image[0x134] = 0xFF;
    assert_eq!(Header::parse(&image).unwrap_err(), Error::InvalidRomHeader(HeaderFault::Title));
    let mut image = rom(0, 0, 0);
    image[0x148] = 9;
    assert_eq!(
        Header::parse(&image).unwrap_err(),
        Error::InvalidRomHeader(HeaderFault::RomBankCount)
    );
    let mut image = rom(0, 0, 0);
    image[0x149] = 1;
    assert_eq!(
        Header::parse(&image).unwrap_err(),
        Error::InvalidRomHeader(HeaderFault::RamBankCount)
    );
    let mut image = rom(0, 0, 0);
    image[0x147] = 0x20;
    assert_eq!(Header::parse(&image).unwrap_err(), Error::UnsupportedMapper(0x20));
    let mut image = rom(0, 0, 0);
    image[0x14A] = 2;
    assert_eq!(
        Header::parse(&image).unwrap_err(),
        Error::InvalidRomHeader(HeaderFault::Destination)
    );
    assert_eq!(HeaderFault::TooShort.reason(), "Header is too short");
}

#[test]
fn save_needs_a_battery() {
    let r = Cartridge::new_at(rom(0x02, 0, 2), None, Some(vec![0; 0x2000]), 0);
    assert_eq!(r.unwrap_err(), Error::SaveNotSupported);
}

#[test]
fn save_must_have_the_ram_size() {
    let r = Cartridge::new_at(rom(0x03, 0, 2), None, Some(vec![0; 0x1FFF]), 0);
    assert_eq!(r.unwrap_err(), Error::InvalidSave);
    let c = Cartridge::new_at(rom(0x03, 0, 2), None, Some(vec![7; 0x2000]), 0).unwrap();
    assert_eq!(c.ram, vec![7; 0x2000]);
}

#[test]
fn clock_data_needs_a_clock() {
    let r = Cartridge::new_at(rom(0x03, 0, 2), None, Some(vec![0; 0x2000 + 48]), 0);
    assert_eq!(r.unwrap_err(), Error::InvalidRtcData);
    let r = Cartridge::new_at(rom(0x13, 0, 2), None, Some(vec![0; 0x2000 + 48]), 0);
    assert_eq!(r.unwrap_err(), Error::InvalidRtcData);
    let c = Cartridge::new_at(rom(0x10, 0, 2), None, Some(vec![0; 0x2000 + 48]), 0).unwrap();
    assert_eq!(c.ram.len(), 0x2000);
}

#[test]
fn boot_image_must_have_256_bytes() {
    let r = Cartridge::new_at(rom(0, 0, 0), Some(vec![0; 255]), None, 0);
    assert_eq!(r.unwrap_err(), Error::InvalidBootRom);
    let c = Cartridge::new_at(rom(0, 0, 0), Some(vec![0xAB; 256]), None, 0).unwrap();
    assert!(c.bootrom_enabled);
}

#[test]
fn boot_image_shadows_the_first_256_bytes_until_disabled() {
    let mut image = rom(0, 0, 0);
    image[0x00] = 0x11;
    image[0xFF] = 0x22;
    image[0x100] = 0x33;
    let mut c = Cartridge::new_at(image, Some(vec![0xAB; 256]), None, 0).unwrap();
    assert_eq!(c.read_rom(0x00), 0xAB);
    assert_eq!(c.read_rom(0xFF), 0xAB);
    assert_eq!(c.read_rom(0x100), 0x33);
    c.disable_bootrom();
    assert_eq!(c.read_rom(0x00), 0x11);
    assert_eq!(c.read_rom(0xFF), 0x22);
}

#[test]
fn rom_only_has_no_ram() {
    let mut c = cartridge(0x00, 0, 0);
    assert_eq!(c.read_rom(0x0000), 0);
    assert_eq!(c.read_rom(0x4000), 1);
    c.write_rom(0x2000, 5);
    assert_eq!(c.read_rom(0x4000), 1);
    c.write_rom(0x0000, 0x0A);
    c.write_ram(0, 0x42);
    assert_eq!(c.read_ram(0), 0xFF);
    assert!(!RomOnly.has_battery());
}

#[test]
fn reads_past_the_image_are_absorbed() {
    let mut image = rom(0x19, 0, 0);
    image.truncate(0x8000);
    let mut c = Cartridge::new_at(image, None, None, 0).unwrap();
    c.write_rom(0x2000, 0x40);
    assert_eq!(c.read_rom(0x4000), 0xFF);
}

#[test]
fn ram_written_after_enabling_is_read_back() {
    // (cartridge type, value written, value read back)
    for (kind, ram_code) in [(0x03u8, 3u8), (0x13, 3), (0x1B, 3)] {
        for value in [0x00u8, 0x42, 0xFF] {
            let mut c = cartridge(kind, 1, ram_code);
            c.write_rom(0x0000, 0x0A);
            c.write_ram(0x0000, value);
            assert_eq!(c.read_ram(0x0000), value);
            c.write_ram(0x1FFF, value ^ 0x5A);
            assert_eq!(c.read_ram(0x1FFF), value ^ 0x5A);
        }
    }
}

#[test]
fn second_mapper_keeps_the_low_nibble_only() {
    let mut c = cartridge(0x06, 1, 0);
    assert_eq!(c.ram.len(), 0x200);
    c.write_rom(0x0000, 0x0A);
    c.write_ram(0x0000, 0x42);
    assert_eq!(c.read_ram(0x0000), 0xF2);
    c.write_ram(0x0000, 0xF7);
    assert_eq!(c.read_ram(0x0000), 0xF7);
    // The RAM repeats every 512 bytes.
    assert_eq!(c.read_ram(0x0200), 0xF7);
}

#[test]
fn ram_is_closed_until_enabled() {
    for kind in [0x03u8, 0x06, 0x13, 0x1B] {
        let mut c = cartridge(kind, 1, if kind == 0x06 { 0 } else { 3 });
        c.write_ram(0x0000, 0x42);
        assert_eq!(c.read_ram(0x0000), 0xFF);
        c.write_rom(0x0000, 0x0A);
        assert_ne!(c.read_ram(0x0000), 0x42);
        c.write_ram(0x0000, 0x42);
        c.write_rom(0x0000, 0x00);
        assert_eq!(c.read_ram(0x0000), 0xFF);
    }
}

#[test]
fn mbc1_selects_the_bank_written() {
    let mut c = cartridge(0x01, 4, 0);
    assert_eq!(c.read_rom(0x4000), 1);
    for bank in 1..=0x1Fu8 {
        c.write_rom(0x2000, bank);
        assert_eq!(c.read_rom(0x4000), bank);
        assert_eq!(c.read_rom(0x7FFF), bank);
        assert_eq!(c.read_rom(0x0000), 0);
    }
    c.write_rom(0x3FFF, 0x00);
    assert_eq!(c.read_rom(0x4000), 1);
}

#[test]
fn mbc1_masks_banks_past_the_image() {
    let mut c = cartridge(0x01, 1, 0);
    c.write_rom(0x2000, 0x05);
    assert_eq!(c.read_rom(0x4000), 1);
    c.write_rom(0x2000, 0x06);
    assert_eq!(c.read_rom(0x4000), 2);
}

#[test]
fn mbc1_bank_zero_quirk() {
    let mut c = cartridge(0x01, 5, 0);
    c.write_rom(0x4000, 0x01);
    c.write_rom(0x2000, 0x20);
    assert_eq!(c.read_rom(0x4000), 0x21);
    match c.mapper {
        Mapper::Mbc1(m) => assert_eq!(m.rom_bank, 0x21),
        _ => unreachable!(),
    }
}

#[test]
fn mbc1_ram_mode_banks_the_low_window_and_the_ram() {
    let mut c = cartridge(0x03, 5, 3);
    c.write_rom(0x0000, 0x0A);
    c.write_rom(0x6000, 0x01);
    c.write_rom(0x4000, 0x01);
    assert_eq!(c.read_rom(0x0000), 0x20);
    c.write_ram(0x0000, 0x11);
    c.write_rom(0x4000, 0x00);
    assert_eq!(c.read_rom(0x0000), 0x00);
    c.write_ram(0x0000, 0x22);
    assert_eq!(c.ram[0x2000], 0x11);
    assert_eq!(c.ram[0x0000], 0x22);
    let m = Mbc1::new(64, true, false);
    assert_eq!(m.rom_address_high(0x4000), 0x4000);
    assert_eq!(m.rom_address_low(0x1234), 0x1234);
    assert_eq!(m.ram_address(0x0123), 0x0123);
}

#[test]
fn mbc2_selects_by_address_bit_8() {
    let mut c = cartridge(0x05, 3, 0);
    c.write_rom(0x0100, 0x07);
    assert_eq!(c.read_rom(0x4000), 7);
    c.write_rom(0x2100, 0x00);
    assert_eq!(c.read_rom(0x4000), 1);
    c.write_rom(0x2000, 0x0A);
    assert_eq!(c.read_rom(0x4000), 1);
    let m = Mbc2::new(16, true);
    assert!(m.has_battery());
    assert_eq!(m.rom_address_high(0x4001), 0x4001);
    assert_eq!(m.ram_address(0x0345), 0x0145);
}

#[test]
fn mbc3_selects_seven_bit_banks() {
    let mut c = cartridge(0x11, 6, 0);
    c.write_rom(0x2000, 0x7F);
    assert_eq!(c.read_rom(0x4000), 0x7F);
    c.write_rom(0x2000, 0x80);
    assert_eq!(c.read_rom(0x4000), 1);
}

#[test]
fn mbc5_selects_nine_bit_banks_and_bank_zero() {
    let mut c = cartridge(0x19, 8, 0);
    c.write_rom(0x2000, 0x00);
    assert_eq!(c.read_rom(0x4000), 0);
    c.write_rom(0x2000, 0x34);
    c.write_rom(0x3000, 0x01);
    assert_eq!(c.read_rom(0x4000), 0x34);
    match c.mapper {
        Mapper::Mbc5(m) => assert_eq!(m.rom_bank, 0x134),
        _ => unreachable!(),
    }
    let rumble = Mbc5::new(true, true, false);
    assert_eq!(rumble.ram_bank_mask, 7);
    let mut plain = Mbc5::new(false, true, true);
    plain.write_rom(0x4000, 0xFF);
    assert_eq!(plain.ram_bank, 0x0F);
    let mut rumble = rumble;
    rumble.write_rom(0x4000, 0xFF);
    assert_eq!(rumble.ram_bank, 0x07);
}

fn clocked() -> Cartridge {
    let mut c = cartridge(0x10, 1, 3);
    c.write_rom(0x0000, 0x0A);
    c
}

fn read_clock(c: &mut Cartridge) -> (u8, u8, u8) {
    c.write_rom(0x6000, 0);
    c.write_rom(0x6000, 1);
    c.write_rom(0x4000, 0x08);
    let seconds = c.read_ram(0);
    c.write_rom(0x4000, 0x09);
    let minutes = c.read_ram(0);
    c.write_rom(0x4000, 0x0A);
    let hours = c.read_ram(0);
    (seconds, minutes, hours)
}

#[test]
fn clock_counts_seconds() {
    let mut c = clocked();
    c.write_rom(0x4000, 0x08);
    c.write_ram(0, 58);
    for _ in 0..(2 * 4_194_304 / 4) {
        c.tick();
    }
    assert_eq!(read_clock(&mut c), (0, 1, 0));
}

#[test]
fn halted_clock_stands_still() {
    let mut c = clocked();
    c.write_rom(0x4000, 0x08);
    c.write_ram(0, 30);
    c.write_rom(0x4000, 0x0C);
    c.write_ram(0, 0x40);
    let first = read_clock(&mut c);
    for _ in 0..3 {
        for _ in 0..(4_194_304 / 4) {
            c.tick();
        }
        assert_eq!(read_clock(&mut c), first);
    }
    assert_eq!(first, (30, 0, 0));
}

#[test]
fn latched_time_changes_only_on_a_latch() {
    let mut c = clocked();
    assert_eq!(read_clock(&mut c), (0, 0, 0));
    for _ in 0..(4_194_304 / 4) {
        c.tick();
    }
    c.write_rom(0x4000, 0x08);
    assert_eq!(c.read_ram(0), 0);
    c.write_rom(0x6000, 1);
    assert_eq!(c.read_ram(0), 0);
    assert_eq!(read_clock(&mut c), (1, 0, 0));
}

#[test]
fn clock_registers_cascade() {
    let mut time = RtcRegisters { seconds: 59, minutes: 59, hours: 23, days: 511, carry: false, halt: false };
    time.tick_second();
    assert_eq!(
        time,
        RtcRegisters { seconds: 0, minutes: 0, hours: 0, days: 0, carry: true, halt: false }
    );
    let mut odd = RtcRegisters { seconds: 63, minutes: 5, hours: 1, days: 0, carry: false, halt: false };
    odd.tick_second();
    assert_eq!(odd.seconds, 0);
    assert_eq!(odd.minutes, 5);
    let mut time = RtcRegisters { seconds: 0, minutes: 0, hours: 0, days: 256, carry: true, halt: true };
    assert_eq!(time.days_high_byte(), 0xC1);
    time.set_days_high_byte(0x00);
    assert_eq!(time.days, 0);
    assert!(!time.carry && !time.halt);
}

#[test]
fn clock_moves_on_by_the_calendar() {
    let mut time = RtcRegisters { seconds: 30, minutes: 59, hours: 23, days: 510, carry: false, halt: false };
    time.advance(2 * 86400 + 3600 + 45);
    assert_eq!(
        time,
        RtcRegisters { seconds: 15, minutes: 0, hours: 1, days: 1, carry: true, halt: false }
    );
}

#[test]
fn clock_data_has_the_documented_layout() {
    let mut m = Mbc3::new(true, true, true);
    m.current_time = RtcRegisters { seconds: 1, minutes: 2, hours: 3, days: 0x104, carry: true, halt: false };
    m.latched_time = RtcRegisters { seconds: 5, minutes: 6, hours: 7, days: 8, carry: false, halt: true };
    let data = m.rtc_data_at(0x0102030405060708).unwrap();
    let mut expected = vec![0u8; 48];
    expected[0] = 1;
    expected[4] = 2;
    expected[8] = 3;
    expected[12] = 0x04;
    expected[16] = 0x81;
    expected[20] = 5;
    expected[24] = 6;
    expected[28] = 7;
    expected[32] = 8;
    expected[36] = 0x40;
    expected[40..48].copy_from_slice(&[8, 7, 6, 5, 4, 3, 2, 1]);
    assert_eq!(data, expected);
    assert_eq!(Mbc3::new(false, true, true).rtc_data_at(0), None);
    let mut back = Mbc3::new(true, true, true);
    back.set_rtc_data_at(&data, 0x0102030405060708).unwrap();
    assert_eq!(back.current_time, m.current_time);
    assert_eq!(back.latched_time, m.latched_time);
}

#[test]
fn loaded_clock_catches_up_with_the_time_passed() {
    let mut m = Mbc3::new(true, true, true);
    m.current_time = RtcRegisters { seconds: 59, minutes: 0, hours: 0, days: 0, carry: false, halt: false };
    let data = m.rtc_data_at(1000).unwrap();
    let mut later = Mbc3::new(true, true, true);
    later.set_rtc_data_at(&data, 1001).unwrap();
    assert_eq!(later.current_time.seconds, 0);
    assert_eq!(later.current_time.minutes, 1);
    let mut earlier = Mbc3::new(true, true, true);
    earlier.set_rtc_data_at(&data, 999).unwrap();
    assert_eq!(earlier.current_time, m.current_time);
    m.current_time.halt = true;
    let halted = m.rtc_data_at(1000).unwrap();
    let mut still = Mbc3::new(true, true, true);
    still.set_rtc_data_at(&halted, 5000).unwrap();
    assert_eq!(still.current_time, m.current_time);
}

#[test]
fn short_clock_data_is_refused() {
    let mut m = Mbc3::new(true, true, true);
    assert_eq!(m.set_rtc_data_at(&[0u8; 47], 0), Err(Error::InvalidRtcData));
    let mut plain = Mbc3::new(false, true, true);
    assert_eq!(plain.set_rtc_data_at(&[0u8; 3], 0), Ok(()));
}

#[test]
fn save_data_holds_ram_and_clock() {
    let mut c = clocked();
    c.write_rom(0x4000, 0x00);
    c.write_ram(0x0010, 0x99);
    let save = c.save_data_at(77);
    let ram = save.ram.unwrap();
    assert_eq!(ram.len(), 4 * 0x2000);
    assert_eq!(ram[0x10], 0x99);
    let rtc = save.rtc.unwrap();
    assert_eq!(rtc.len(), 48);
    assert_eq!(rtc[40], 77);
    let mut whole = ram.clone();
    whole.extend_from_slice(&rtc);
    let again = Cartridge::new_at(rom(0x10, 1, 3), None, Some(whole), 77).unwrap();
    assert_eq!(again.ram, ram);
    let none = cartridge(0x01, 1, 0).save_data_at(0);
    assert_eq!(none.ram, None);
    assert_eq!(none.rtc, None);
    let battery_only = cartridge(0x03, 1, 2).save_data_at(0);
    assert_eq!(battery_only.ram.map(|r| r.len()), Some(0x2000));
    assert_eq!(battery_only.rtc, None);
}

#[test]
fn saved_clock_is_moved_on_to_the_present() {
    // A clock saved running at the start of 1970 has to have moved on by now.
    let mut save = vec![0u8; 4 * 0x2000];
    save.extend_from_slice(&[0u8; 48]);
    let c = Cartridge::new(rom(0x10, 1, 3), None, Some(save)).unwrap();
    match c.mapper {
        Mapper::Mbc3(m) => {
            let t = m.current_time;
            assert!(t.days != 0 || t.hours != 0 || t.minutes != 0 || t.seconds != 0 || t.carry);
            assert!(t.seconds < 60 && t.minutes < 60 && t.hours < 24 && t.days < 512);
        }
        _ => unreachable!(),
    }
    let now = c.save_data();
    let stamp = u64::from_le_bytes(now.rtc.unwrap()[40..48].try_into().unwrap());
    assert!(stamp > 1_600_000_000);
}

#[test]
fn an_image_without_the_last_header_byte_makes_no_cartridge() {
    let r = Cartridge::new_at(vec![0u8; 0x14F], None, None, 0);
    assert_eq!(r.unwrap_err(), Error::InvalidRomHeader(HeaderFault::TooShort));
    assert!(Cartridge::new_at(vec![0u8; 0x150], None, None, 0).is_ok());
}
