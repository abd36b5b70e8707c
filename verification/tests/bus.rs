use rsgb_core::interconnect::Interconnect;
use rsgb_core::cpu::interrupts::InterruptType;
use rsgb_core::utils::{Button, ColorMode, InputState};

#[test]
fn work_ram_reads_back() {
    let mut bus = Interconnect::new(ColorMode::ARGB);
    bus.write(0xC123, 0x42);
    bus.write(0xDFFF, 0x24);
    assert_eq!(bus.read(0xC123), 0x42);
    assert_eq!(bus.read(0xDFFF), 0x24);
    assert_eq!(bus.read(0xC124), 0x00);
}

#[test]
fn high_ram_and_ie_read_back() {
    let mut bus = Interconnect::new(ColorMode::ARGB);
    bus.write(0xFF80, 1);
    bus.write(0xFFFE, 2);
    bus.write(0xFFFF, 0x1F);
    assert_eq!(bus.read(0xFF80), 1);
    assert_eq!(bus.read(0xFFFE), 2);
    assert_eq!(bus.read(0xFFFF), 0x1F);
    assert_eq!(bus.get_ie_register(), 0x1F);
}

#[test]
fn video_ram_write_marks_update() {
    let mut bus = Interconnect::new(ColorMode::ARGB);
    assert!(!bus.vram_updated);
    bus.write(0x8010, 0xAA);
    assert!(bus.vram_updated);
    assert_eq!(bus.read(0x8010), 0xAA);
    assert_eq!(bus.read_vram(0x8010), 0xAA);
}

#[test]
fn sixteen_bit_access_is_little_endian() {
    let mut bus = Interconnect::new(ColorMode::ARGB);
    bus.write16(0xC000, 0xBEEF);
    assert_eq!(bus.read(0xC000), 0xEF);
    assert_eq!(bus.read(0xC001), 0xBE);
    assert_eq!(bus.read16(0xC000), 0xBEEF);
}

#[test]
fn unusable_area_reads_zero() {
    let mut bus = Interconnect::new(ColorMode::ARGB);
    bus.write(0xE000, 5);
    assert_eq!(bus.read(0xE000), 0);
    assert_eq!(bus.read(0xFEA0), 0);
}

#[test]
fn cartridge_area_without_cartridge_is_undefined() {
    let bus = Interconnect::new(ColorMode::ARGB);
    assert!(!bus.can_read(0x0000));
    assert!(!bus.can_read(0xA000));
    assert!(!bus.can_write(0x2000));
    assert!(bus.can_read(0xC000));
    assert!(bus.can_write(0xFF80));
}

#[test]
fn interrupt_request_sets_flag() {
    let mut bus = Interconnect::new(ColorMode::ARGB);
    bus.write(0xFF0F, 0);
    bus.request_interrupt(InterruptType::Timer);
    bus.request_interrupt(InterruptType::VBlank);
    assert_eq!(bus.read(0xFF0F), 0x05);
}

#[test]
fn divider_reads_high_byte_and_resets_on_write() {
    let mut bus = Interconnect::new(ColorMode::ARGB);
    assert_eq!(bus.read(0xFF04), 0xAB);
    bus.write(0xFF04, 0x77);
    assert_eq!(bus.read(0xFF04), 0x00);
    for _ in 0..256 {
        bus.tick_t();
    }
    assert_eq!(bus.read(0xFF04), 0x01);
}

#[test]
fn timer_control_reads_with_unused_bits_set() {
    let mut bus = Interconnect::new(ColorMode::ARGB);
    assert_eq!(bus.read(0xFF07), 0xF8);
    bus.write(0xFF07, 0x05);
    assert_eq!(bus.read(0xFF07), 0xFD);
    bus.write(0xFF06, 0x80);
    assert_eq!(bus.read(0xFF06), 0x80);
}

#[test]
fn timer_counts_and_overflows() {
    let mut bus = Interconnect::new(ColorMode::ARGB);
    bus.write(0xFF0F, 0);
    bus.write(0xFF04, 0);
    bus.write(0xFF06, 0xF0);
    bus.write(0xFF05, 0xFF);
    bus.write(0xFF07, 0x05); // enabled, 16 clocks per increment
    for _ in 0..16 {
        bus.tick_t();
    }
    // TIMA overflowed: it reads 0 until the reload four clocks later
    assert_eq!(bus.read(0xFF05), 0x00);
    for _ in 0..4 {
        bus.tick_t();
    }
    assert_eq!(bus.read(0xFF05), 0xF0);
    assert_eq!(bus.read(0xFF0F) & 0x04, 0x04);
}

#[test]
fn joypad_reports_selected_group() {
    let mut bus = Interconnect::new(ColorMode::ARGB);
    assert_eq!(bus.read(0xFF00), 0xCF);
    let mut input = InputState::new();
    input.update(Button::START, true);
    input.update(Button::LEFT, true);
    bus.update_input(input);
    bus.write(0xFF00, 0x10); // buttons selected, directions not
    assert_eq!(bus.read(0xFF00), 0xC7);
    bus.write(0xFF00, 0x20); // directions selected, buttons not
    assert_eq!(bus.read(0xFF00), 0xCD);
    bus.write(0xFF00, 0x30); // none selected
    assert_eq!(bus.read(0xFF00), 0xCF);
}

#[test]
fn lcd_registers_and_palette() {
    let mut bus = Interconnect::new(ColorMode::ARGB);
    assert_eq!(bus.read(0xFF40), 0x91);
    assert_eq!(bus.read(0xFF47), 0xFC);
    bus.write(0xFF47, 0b1110_0100);
    assert_eq!(bus.read(0xFF47), 0xE4);
    assert_eq!(*bus.lcd_bg_colors(), [0xFFFFFFFF, 0xFFAAAAAA, 0xFF555555, 0xFF000000]);
    bus.write(0xFF47, 0b0001_1011);
    assert_eq!(*bus.lcd_bg_colors(), [0xFF000000, 0xFF555555, 0xFFAAAAAA, 0xFFFFFFFF]);
    bus.write(0xFF42, 7);
    assert_eq!(bus.read(0xFF42), 7);
}

#[test]
fn object_palette_ignores_color_zero_bits() {
    let mut bus = Interconnect::new(ColorMode::RGBA);
    bus.write(0xFF48, 0b0001_1011);
    assert_eq!(bus.read(0xFF48), 0x1B);
    assert_eq!(*bus.lcd_sp1_colors(), [0xFFFFFFFF, 0x555555FF, 0xAAAAAAFF, 0xFFFFFFFF]);
}

#[test]
fn dma_copies_a_page_into_sprite_memory() {
    let mut bus = Interconnect::new(ColorMode::ARGB);
    for i in 0..0xA0u16 {
        bus.write(0xC000 + i, (i as u8) ^ 0x5A);
    }
    bus.write(0xFF46, 0xC0);
    assert_eq!(bus.dma_source(), None);
    for _ in 0..2 {
        bus.tick_m();
    }
    assert_eq!(bus.dma_source(), Some(0xC000));
    for _ in 0..0xA0 {
        bus.tick_m();
    }
    assert_eq!(bus.dma_source(), None);
    let first = bus.oam_sprite(0);
    assert_eq!((first.y, first.x, first.tile, first.flags), (0x5A, 0x5B, 0x58, 0x59));
    let last = bus.oam_sprite(39);
    assert_eq!(last.flags, 0x9F ^ 0x5A);
    assert_eq!(bus.read(0xFE00), 0x5A);
}

#[test]
fn sprite_memory_blocked_during_dma() {
    let mut bus = Interconnect::new(ColorMode::ARGB);
    bus.write(0xFE00, 0x11);
    assert_eq!(bus.read(0xFE00), 0x11);
    bus.write(0xFF46, 0xC0);
    bus.tick_m();
    bus.tick_m();
    assert_eq!(bus.read(0xFE00), 0xFF);
}

#[test]
fn audio_power_register() {
    let mut bus = Interconnect::new(ColorMode::ARGB);
    assert_eq!(bus.read(0xFF26), 0x70);
    bus.write(0xFF24, 0x77); // ignored while powered off
    assert_eq!(bus.read(0xFF24), 0x00);
    bus.write(0xFF26, 0x80);
    assert_eq!(bus.read(0xFF26), 0xF0);
    bus.write(0xFF24, 0x77);
    assert_eq!(bus.read(0xFF24), 0x77);
}

#[test]
fn joypad_bits_for_a_and_right() {
    let mut bus = Interconnect::new(ColorMode::ARGB);
    let mut input = InputState::new();
    input.update(Button::A, true);
    input.update(Button::RIGHT, true);
    bus.update_input(input);
    bus.write(0xFF00, 0x10);
    assert_eq!(bus.read(0xFF00), 0xCE);
    bus.write(0xFF00, 0x20);
    assert_eq!(bus.read(0xFF00), 0xCE);
    bus.write(0xFF00, 0x00);
    assert_eq!(bus.read(0xFF00), 0xCE);
}

#[test]
fn echo_area_reads_zero_and_ie_reads_back() {
    let mut bus = Interconnect::new(ColorMode::ARGB);
    bus.write(0xC123, 0x77);
    assert_eq!(bus.read(0xE123), 0);
    assert_eq!(bus.read(0xFDFF), 0);
    assert_eq!(bus.read(0xFEA0), 0);
    bus.write(0xFFFF, 0x1D);
    assert_eq!(bus.read(0xFFFF), 0x1D);
}

#[test]
fn dma_transfer_takes_162_cycles() {
    let mut bus = Interconnect::new(ColorMode::ARGB);
    for i in 0..0xA0u16 {
        bus.write(0xC100 + i, 0x80 | (i as u8));
    }
    bus.write(0xFF46, 0xC1);
    for _ in 0..161 {
        bus.tick_m();
    }
    assert_eq!(bus.dma_source(), Some(0xC19F));
    assert_eq!(bus.oam_sprite(38).flags, 0x80 | 0x9B);
    bus.tick_m();
    assert_eq!(bus.dma_source(), None);
    assert_eq!(bus.oam_sprite(39).flags, 0x80 | 0x9F);
    assert_eq!(bus.read(0xFE9F), 0x80 | 0x9F);
}
