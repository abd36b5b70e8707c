use rsgb_core::cart::Cartridge;
use rsgb_core::cart::header::HeaderError;
use rsgb_core::cart::mbc3::rtc::RTC;

/// A ROM image of `banks` banks of 16 KiB; every byte of bank `b` is `b`,
/// but for the header fields.
fn image(cart_type: u8, ram_code: u8, banks: usize) -> Vec<u8> {
    let mut rom = vec![0u8; banks * 0x4000];
    for b in 0..banks {
        for o in 0..0x4000 {
            rom[b * 0x4000 + o] = b as u8;
        }
    }
    rom[0x147] = cart_type;
    rom[0x148] = 0x01;
    rom[0x149] = ram_code;
    rom
}

/// The clock's save data: the registers, then the timestamp.
fn clock_data(s: u8, m: u8, h: u8, dl: u8, dh: u8, stamp: u64) -> Vec<u8> {
    let mut d = vec![s, m, h, dl, dh];
    d.extend_from_slice(&stamp.to_le_bytes());
    d
}

#[test]
fn short_rom_is_refused() {
    let rom = vec![0u8; 0x100];
    assert!(Cartridge::is_supported(&rom));
    assert!(matches!(Cartridge::from_rom(rom), Err(HeaderError::TooShort)));
}

#[test]
fn unsupported_mapper_is_detected() {
    let rom = image(0x20, 0x00, 2);
    assert!(!Cartridge::is_supported(&rom));
    let rom = image(0x01, 0x01, 2);
    assert!(!Cartridge::is_supported(&rom));
    let rom = image(0x01, 0x02, 2);
    assert!(Cartridge::is_supported(&rom));
}

#[test]
fn rom_only_reads_its_bytes() {
    let mut rom = image(0x00, 0x00, 2);
    rom[0x4567] = 0x99;
    let mut cart = Cartridge::from_rom(rom).ok().unwrap();
    assert_eq!(cart.read(0x0000), 0);
    assert_eq!(cart.read(0x4567), 0x99);
    assert_eq!(cart.read(0x7FFF), 1);
    assert!(!cart.can_read(0xA000));
    assert!(cart.save_len().is_none());
}

#[test]
fn mbc1_switches_rom_banks() {
    let mut cart = Cartridge::from_rom(image(0x01, 0x00, 4)).ok().unwrap();
    assert_eq!(cart.read(0x4000), 1);
    cart.write(0x2000, 2);
    assert_eq!(cart.read(0x4000), 2);
    assert_eq!(cart.read(0x0000), 0);
    cart.write(0x2000, 0);
    assert_eq!(cart.read(0x4000), 1);
    cart.write(0x2000, 3);
    assert_eq!(cart.read(0x7FFF), 3);
}

#[test]
fn mbc1_ram_needs_enabling_and_saves() {
    let mut cart = Cartridge::from_rom(image(0x03, 0x03, 4)).ok().unwrap();
    assert_eq!(cart.read(0xA000), 0xFF);
    cart.write(0xA000, 0x12);
    assert!(!cart.need_save());
    cart.write(0x0000, 0x0A);
    cart.write(0xA000, 0x12);
    assert_eq!(cart.read(0xA000), 0x12);
    assert!(cart.need_save());
    assert!(!cart.need_save());
    assert_eq!(cart.save_len(), Some(4 * 0x2000));

    let saved = cart.save();
    let ram = saved.ram.unwrap();
    assert_eq!(ram.len(), 4 * 0x2000);
    assert_eq!(ram[0], 0x12);
    assert!(saved.rtc.is_none());

    let mut other = Cartridge::from_rom(image(0x03, 0x03, 4)).ok().unwrap();
    other.load_save(Some(&ram), None);
    other.write(0x0000, 0x0A);
    assert_eq!(other.read(0xA000), 0x12);
}

#[test]
fn mbc2_keeps_four_bit_ram() {
    let mut cart = Cartridge::from_rom(image(0x06, 0x00, 4)).ok().unwrap();
    assert_eq!(cart.read(0xA000), 0xFF);
    cart.write(0x0000, 0x0A);
    cart.write(0xA005, 0xB7);
    assert_eq!(cart.read(0xA005), 0x07);
    assert_eq!(cart.read(0xA205), 0x07);
    assert!(cart.need_save());
    cart.write(0x0100, 3);
    assert_eq!(cart.read(0x4000), 3);
    cart.write(0x0100, 0);
    assert_eq!(cart.read(0x4000), 1);
}

#[test]
fn mbc3_ram_banks() {
    let mut cart = Cartridge::from_rom(image(0x13, 0x03, 4)).ok().unwrap();
    cart.write(0x0000, 0x0A);
    cart.write(0x4000, 0x01);
    cart.write(0xA000, 0x11);
    cart.write(0x4000, 0x02);
    cart.write(0xA000, 0x22);
    assert_eq!(cart.read(0xA000), 0x22);
    cart.write(0x4000, 0x01);
    assert_eq!(cart.read(0xA000), 0x11);
    cart.write(0x2000, 3);
    assert_eq!(cart.read(0x4000), 3);
}

#[test]
fn mbc3_clock_runs_with_time() {
    let t0: u64 = 1_000_000;
    let mut cart = Cartridge::from_rom(image(0x10, 0x03, 4)).ok().unwrap();
    let clock = clock_data(50, 59, 23, 0, 0, t0);
    cart.load_save_at(None, Some(&clock), t0);
    cart.write_at(0x0000, 0x0A, t0);
    cart.write_at(0x4000, 0x08, t0);
    assert_eq!(cart.read_at(0xA000, t0), 50);
    assert_eq!(cart.read_at(0xA000, t0 + 15), 5);
    cart.write_at(0x4000, 0x09, t0 + 15);
    assert_eq!(cart.read_at(0xA000, t0 + 15), 0);
    cart.write_at(0x4000, 0x0A, t0 + 15);
    assert_eq!(cart.read_at(0xA000, t0 + 15), 0);
    cart.write_at(0x4000, 0x0B, t0 + 15);
    assert_eq!(cart.read_at(0xA000, t0 + 15), 1);
}

#[test]
fn mbc3_latch_freezes_reads() {
    let t0: u64 = 5_000;
    let mut cart = Cartridge::from_rom(image(0x10, 0x03, 4)).ok().unwrap();
    cart.load_save_at(None, Some(&clock_data(10, 0, 0, 0, 0, t0)), t0);
    cart.write_at(0x0000, 0x0A, t0);
    cart.write_at(0x4000, 0x08, t0);
    cart.write_at(0x6000, 0x00, t0 + 2);
    cart.write_at(0x6000, 0x01, t0 + 2);
    assert_eq!(cart.read_at(0xA000, t0 + 30), 12);
    cart.write_at(0x6000, 0x00, t0 + 30);
    cart.write_at(0x6000, 0x01, t0 + 30);
    assert_eq!(cart.read_at(0xA000, t0 + 31), 40);
}

#[test]
fn mbc3_stopped_clock_does_not_run() {
    let t0: u64 = 77;
    let mut cart = Cartridge::from_rom(image(0x10, 0x03, 4)).ok().unwrap();
    cart.load_save_at(None, Some(&clock_data(20, 0, 0, 0, 0x40, t0)), t0);
    cart.write_at(0x0000, 0x0A, t0);
    cart.write_at(0x4000, 0x08, t0);
    assert_eq!(cart.read_at(0xA000, t0 + 100), 20);
}

#[test]
fn mbc3_clock_save_round_trip() {
    let t0: u64 = 123_456;
    let mut cart = Cartridge::from_rom(image(0x10, 0x03, 4)).ok().unwrap();
    cart.load_save_at(None, Some(&clock_data(1, 2, 3, 4, 1, t0)), t0);
    let saved = cart.save_at(t0);
    let rtc = saved.rtc.unwrap();
    assert_eq!(rtc, clock_data(1, 2, 3, 4, 1, t0));
}

#[test]
fn clock_counts_days_and_wraps() {
    let mut rtc = RTC::new_at(0);
    let day = 86_400u64;
    rtc.load_at(Some(&clock_data(0, 0, 0, 0xFF, 0x01, 0)), 0);
    // day 511; one more day wraps to day 0 and sets the carry bit
    assert_eq!(rtc.read_at(0x0B, 0), 0xFF);
    assert_eq!(rtc.read_at(0x0C, day), 0x80);
    assert_eq!(rtc.read_at(0x0B, day), 0x00);
}

#[test]
fn clock_write_keeps_valid_ranges() {
    let mut rtc = RTC::new_at(10);
    rtc.write_at(0x08, 75, 10);
    assert_eq!(rtc.read_at(0x08, 10), 15);
    rtc.write_at(0x0A, 30, 10);
    assert_eq!(rtc.read_at(0x0A, 10), 6);
    rtc.write_at(0x0C, 0xFF, 10);
    assert_eq!(rtc.read_at(0x0C, 10), 0xC1);
    assert_eq!(rtc.read_at(0x0D, 10), 0xFF);
}

#[test]
fn clock_save_then_load_restores_registers() {
    let mut rtc = RTC::new_at(1_000);
    rtc.write_at(0x08, 42, 1_000);
    rtc.write_at(0x09, 17, 1_000);
    rtc.write_at(0x0A, 5, 1_000);
    let saved = rtc.save_at(1_000);
    assert_eq!(saved.len(), 13);
    assert_eq!(&saved[0..5], &[42, 17, 5, 0, 0]);
    assert_eq!(u64::from_le_bytes(saved[5..13].try_into().unwrap()), 1_000);

    let mut other = RTC::new_at(9_999);
    other.load_at(Some(&saved), 1_000);
    assert_eq!(other.read_at(0x08, 1_000), 42);
    assert_eq!(other.read_at(0x09, 1_000), 17);
    assert_eq!(other.read_at(0x0A, 1_000), 5);
}

#[test]
fn mbc1_ram_window_spans_eight_kib() {
    let mut cart = Cartridge::from_rom(image(0x02, 0x02, 2)).ok().unwrap();
    cart.write(0x0000, 0x0A);
    cart.write(0xA000, 0x11);
    cart.write(0xB000, 0x22);
    cart.write(0xBFFF, 0x33);
    assert_eq!(cart.read(0xA000), 0x11);
    assert_eq!(cart.read(0xB000), 0x22);
    assert_eq!(cart.read(0xBFFF), 0x33);
    let ram = cart.save().ram.unwrap();
    assert_eq!(ram.len(), 0x2000);
    assert_eq!(ram[0x1000], 0x22);
    assert_eq!(ram[0x1FFF], 0x33);
}

#[test]
fn taking_the_save_mark_keeps_the_banks() {
    let mut cart = Cartridge::from_rom(image(0x03, 0x03, 4)).ok().unwrap();
    cart.write(0x2000, 2);
    cart.write(0x0000, 0x0A);
    cart.write(0xA000, 0x12);
    assert!(cart.need_save());
    assert_eq!(cart.read(0x4000), 2);
    assert_eq!(cart.read(0xA000), 0x12);
    assert!(!cart.need_save());
}
