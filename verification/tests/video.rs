use rsgb_core::gameboy::Gameboy;
use rsgb_core::interconnect::Interconnect;
use rsgb_core::ppu::{LCDMode, PPU};
use rsgb_core::ppu::pipeline::mix_pixel;
use rsgb_core::ppu::fetcher::{pixel_index, Fetcher, FetchState};
use rsgb_core::interconnect::oam::OAMEntry;
use rsgb_core::utils::ColorMode;

#[test]
fn frame_takes_154_lines_of_456_dots() {
    let mut bus = Interconnect::new(ColorMode::ARGB);
    let mut ppu = PPU::new();
    let mut framebuffer = vec![0u32; 160 * 144];
    let mut dots: u32 = 0;
    loop {
        dots += 1;
        if ppu.tick(&mut bus, &mut framebuffer, true) {
            break;
        }
        assert!(dots < 200_000);
    }
    assert_eq!(dots, 154 * 456);
    assert_eq!(bus.read(0xFF44), 0);
}

#[test]
fn modes_of_a_visible_line() {
    let mut bus = Interconnect::new(ColorMode::ARGB);
    let mut ppu = PPU::new();
    let mut framebuffer = vec![0u32; 160 * 144];
    // the first line starts in horizontal blank
    for _ in 0..456 {
        assert_eq!(ppu.stat_mode, LCDMode::HBlank);
        ppu.tick(&mut bus, &mut framebuffer, false);
    }
    assert_eq!(bus.read(0xFF44), 1);
    assert_eq!(ppu.stat_mode, LCDMode::OAM);
    for _ in 0..80 {
        ppu.tick(&mut bus, &mut framebuffer, false);
    }
    assert_eq!(ppu.stat_mode, LCDMode::XFer);
    let mut xfer_dots = 0;
    while ppu.stat_mode == LCDMode::XFer {
        ppu.tick(&mut bus, &mut framebuffer, false);
        xfer_dots += 1;
    }
    assert_eq!(ppu.stat_mode, LCDMode::HBlank);
    assert!(xfer_dots >= 160 && xfer_dots < 376);
    // nothing drawn when not rendering
    assert!(framebuffer.iter().all(|p| *p == 0));
}

#[test]
fn blank_screen_renders_lightest_shade() {
    let mut bus = Interconnect::new(ColorMode::ARGB);
    let mut ppu = PPU::new();
    let mut framebuffer = vec![0u32; 160 * 144];
    for _ in 0..(154 * 456) {
        ppu.tick(&mut bus, &mut framebuffer, true);
    }
    // line 0 is skipped by the first frame (the unit starts in its horizontal blank)
    assert!(framebuffer[160..].iter().all(|p| *p == 0xFFFFFFFF));
}

#[test]
fn vblank_requests_interrupt() {
    let mut bus = Interconnect::new(ColorMode::ARGB);
    bus.write(0xFF0F, 0);
    let mut ppu = PPU::new();
    let mut framebuffer = vec![0u32; 160 * 144];
    for _ in 0..(144 * 456) {
        ppu.tick(&mut bus, &mut framebuffer, false);
    }
    assert_eq!(bus.read(0xFF44), 144);
    assert_eq!(ppu.stat_mode, LCDMode::VBlank);
    assert_eq!(bus.read(0xFF0F) & 0x01, 0x01);
}

#[test]
fn pixel_colour_indices() {
    // bit 7 of each plane gives the leftmost pixel; the high plane is bit 1
    assert_eq!(pixel_index(0b1000_0000, 0b0000_0000, 0), 1);
    assert_eq!(pixel_index(0b0000_0000, 0b1000_0000, 0), 2);
    assert_eq!(pixel_index(0b0000_0001, 0b0000_0001, 7), 3);
    assert_eq!(pixel_index(0b0000_0001, 0b0000_0001, 6), 0);
}

#[test]
fn sprite_over_background() {
    // a transparent sprite pixel shows the background
    assert_eq!(mix_pixel((0x11, 2), (0x22, 0, false)), 0x11);
    // an opaque sprite pixel in front
    assert_eq!(mix_pixel((0x11, 2), (0x22, 1, false)), 0x22);
    // behind the background: shows only over background colour 0
    assert_eq!(mix_pixel((0x11, 2), (0x22, 1, true)), 0x11);
    assert_eq!(mix_pixel((0x11, 0), (0x22, 1, true)), 0x22);
}

#[test]
fn devices_count_dots_and_frames() {
    let mut gb = Gameboy::new(ColorMode::ARGB);
    for _ in 0..(154 * 456 / 4) {
        assert!(gb.devices.incr_cycle().is_ok());
    }
    assert_eq!(gb.devices.ticks, 154 * 456);
    assert_eq!(gb.devices.frames, 1);
    // 44100 samples per second of 4194304 dots
    let expected = (154u64 * 456 * 44100) / 4194304;
    assert_eq!(gb.devices.samples.len() as u64, expected);
}

#[test]
fn console_debug_view() {
    let mut gb = Gameboy::new(ColorMode::ARGB);
    assert!(!gb.cartridge_loaded());
    gb.devices.write8(0x8000, 0x3C);
    gb.devices.write8(0x8011, 0x7E);
    assert!(gb.take_vram_updated());
    assert!(!gb.take_vram_updated());
    let info = gb.debug();
    let tiles = info.get_tiles();
    assert_eq!(tiles.len(), 512);
    assert_eq!(tiles[0][0], 0x3C);
    assert_eq!(tiles[1][1], 0x7E);
    let regs = info.registers();
    assert_eq!(regs.len(), 10);
    assert_eq!(regs[0], ("a", 0x01));
    assert_eq!(regs[8], ("pc", 0x100));
    assert_eq!(regs[9], ("sp", 0xFFFE));
}

#[test]
fn sprite_search_keeps_line_sprites_sorted_by_x() {
    let mut bus = Interconnect::new(ColorMode::ARGB);
    // entry 0: x = 50, entry 1: x = 20, entry 2: x = 50 (tile 9), all on line 1
    for (i, (y, x, tile)) in [(16u8, 50u8, 1u8), (16, 20, 2), (16, 50, 9)].iter().enumerate() {
        let base = 0xFE00 + 4 * i as u16;
        bus.write(base, *y);
        bus.write(base + 1, *x);
        bus.write(base + 2, *tile);
    }
    let mut ppu = PPU::new();
    let mut framebuffer = vec![0u32; 160 * 144];
    for _ in 0..(456 + 80) {
        ppu.tick(&mut bus, &mut framebuffer, false);
    }
    assert_eq!(ppu.stat_mode, LCDMode::XFer);
    let order: Vec<(u8, u8)> = ppu.visible_sprites.iter().map(|s| (s.x, s.tile)).collect();
    assert_eq!(order, vec![(20, 2), (50, 1), (50, 9)]);
}

#[test]
fn frames_are_a_frame_apart() {
    let mut bus = Interconnect::new(ColorMode::ARGB);
    let mut ppu = PPU::new();
    let mut framebuffer = vec![0u32; 160 * 144];
    let mut frames: Vec<u32> = Vec::new();
    for dot in 0..(3 * 154 * 456 + 10) {
        if ppu.tick(&mut bus, &mut framebuffer, false) {
            frames.push(dot);
        }
    }
    assert_eq!(frames.len(), 3);
    assert_eq!(frames[1] - frames[0], 154 * 456);
    assert_eq!(frames[2] - frames[1], 154 * 456);
}

#[test]
fn ly_compare_flag_follows_ly() {
    let mut bus = Interconnect::new(ColorMode::ARGB);
    bus.write(0xFF45, 1);
    let mut ppu = PPU::new();
    let mut framebuffer = vec![0u32; 160 * 144];
    for _ in 0..456 {
        ppu.tick(&mut bus, &mut framebuffer, false);
    }
    assert_eq!(bus.read(0xFF44), 1);
    assert_eq!(bus.read(0xFF41) & 0x04, 0x04);
    for _ in 0..456 {
        ppu.tick(&mut bus, &mut framebuffer, false);
    }
    assert_eq!(bus.read(0xFF44), 2);
    assert_eq!(bus.read(0xFF41) & 0x04, 0);
}

#[test]
fn background_tile_fetch_takes_six_dots() {
    let mut bus = Interconnect::new(ColorMode::ARGB);
    bus.write(0x9800, 2);
    bus.write(0x8020, 0xAA);
    bus.write(0x8021, 0x55);
    let mut fetcher = Fetcher::new();
    for _ in 0..6 {
        fetcher.fetch(&bus);
    }
    assert_eq!(fetcher.state, FetchState::Push);
    assert_eq!(fetcher.lx, 8);
    assert_eq!(fetcher.bgw_fetched_data, [2, 0xAA, 0x55]);
}

#[test]
fn sprite_row_fetch_takes_four_dots() {
    let mut bus = Interconnect::new(ColorMode::ARGB);
    bus.write(0x8030, 0x0F);
    bus.write(0x8031, 0xF0);
    let mut fetcher = Fetcher::new();
    fetcher.trigger_sprite_fetching(OAMEntry { y: 16, x: 8, tile: 3, flags: 0 });
    for _ in 0..4 {
        fetcher.fetch(&bus);
    }
    assert_eq!(fetcher.state, FetchState::Push);
    assert_eq!(fetcher.sprite_data, [0x0F, 0xF0]);
}
