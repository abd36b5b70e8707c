use vstd::prelude::*;
use crate::interconnect::Interconnect;
use crate::interconnect::io::IO;
use crate::interconnect::io::lcd::LCD;

verus! {

/// The four modes of the pixel unit, as reported in bits 1-0 of STAT.
#[derive(Debug, Clone, Copy, PartialEq, Eq, Structural)]
pub enum LCDMode {
    HBlank,
    VBlank,
    OAM,
    XFer,
}

/// The number that STAT reports for a mode.
pub open spec fn mode_bits(mode: LCDMode) -> u8 {
    match mode {
        LCDMode::HBlank => 0,
        LCDMode::VBlank => 1,
        LCDMode::OAM => 2,
        LCDMode::XFer => 3,
    }
}

/// Bit `n` of `x`.
pub open spec fn bit(x: u8, n: nat) -> bool {
    (x as nat / vstd::arithmetic::power2::pow2(n)) % 2 == 1
}

/// Whether the STAT interrupt line is high: a source selected in STAT (bits
/// 3 to 6: HBlank, VBlank, OAM, LY=LYC) is active.
pub open spec fn spec_stat_line(status: u8) -> bool {
    let mode = status % 4;
    (bit(status, 3) && mode == 0)
        || (bit(status, 4) && mode == 1)
        || (bit(status, 5) && mode == 2)
        || (bit(status, 6) && bit(status, 2))
}

/// STAT with its LY=LYC flag (bit 2) set to `matched`.
pub open spec fn lyc_status(status: u8, matched: bool) -> u8 {
    if matched { status | 4 } else { status & !4u8 }
}

/// Setting the LY=LYC flag twice keeps the second value.
pub proof fn lemma_lyc_status_twice(status: u8, a: bool, b: bool)
    ensures
        lyc_status(lyc_status(status, a), b) == lyc_status(status, b),
{
    assert(((status | 4) | 4 == status | 4) && ((status & !4u8) | 4 == status | 4)
        && ((status | 4) & !4u8 == status & !4u8) && ((status & !4u8) & !4u8 == status & !4u8)) by (bit_vector);
}

/// The bus with LY set to `value`.
pub open spec fn with_ly(bus: Interconnect, value: u8) -> Interconnect {
    Interconnect { io: IO { lcd: LCD { ly: value, ..bus.io.lcd }, ..bus.io }, ..bus }
}

/// The bus with STAT set to `value`.
pub open spec fn with_status(bus: Interconnect, value: u8) -> Interconnect {
    Interconnect { io: IO { lcd: LCD { status: value, ..bus.io.lcd }, ..bus.io }, ..bus }
}

pub fn lcd_read_ly(bus: &Interconnect) -> (r: u8)
    requires
        bus.wf(),
    ensures
        r == bus.io.lcd.ly,
{
    bus.ppu_read(0xFF44)
}

pub fn lcd_write_ly(bus: &mut Interconnect, value: u8)
    ensures
        *final(bus) == with_ly(*old(bus), value),
{
    bus.set_ly(value)
}

pub fn lcd_read_scroll_x(bus: &Interconnect) -> (r: u8)
    requires
        bus.wf(),
    ensures
        r == bus.io.lcd.scroll_x,
{
    bus.ppu_read(0xFF43)
}

pub fn lcd_read_scroll_y(bus: &Interconnect) -> (r: u8)
    requires
        bus.wf(),
    ensures
        r == bus.io.lcd.scroll_y,
{
    bus.ppu_read(0xFF42)
}

pub fn lcd_read_win_y(bus: &Interconnect) -> (r: u8)
    requires
        bus.wf(),
    ensures
        r == bus.io.lcd.win_y,
{
    bus.ppu_read(0xFF4A)
}

pub fn lcd_read_win_x(bus: &Interconnect) -> (r: u8)
    requires
        bus.wf(),
    ensures
        r == bus.io.lcd.win_x,
{
    bus.ppu_read(0xFF4B)
}

/// LCDC bit `n`.
fn lcdc_bit(bus: &Interconnect, n: u8) -> (r: bool)
    requires
        bus.wf(),
        n < 8,
    ensures
        r == bit(bus.io.lcd.lcdc, n as nat),
{
    let l = bus.ppu_read(0xFF40);
    proof {
        vstd::arithmetic::power2::lemma2_to64();
        lemma_bit_mask(l, n);
    }
    (l & (1u8 << n)) != 0
}

/// The mask `1 << n` tests bit `n`.
pub proof fn lemma_bit_mask(x: u8, n: u8)
    requires
        n < 8,
    ensures
        ((x & (1u8 << n)) != 0) == bit(x, n as nat),
{
    vstd::arithmetic::power2::lemma2_to64();
    crate::bits::lemma_u8_bits(x);
    crate::bits::lemma_u8_pow2();
    assert(n == 0 || n == 1 || n == 2 || n == 3 || n == 4 || n == 5 || n == 6 || n == 7);
}

/// Whether the background and window are drawn (LCDC bit 0).
pub fn lcdc_bgw_enable(bus: &Interconnect) -> (r: bool)
    requires
        bus.wf(),
    ensures
        r == bit(bus.io.lcd.lcdc, 0),
{
    lcdc_bit(bus, 0)
}

/// Whether sprites are drawn (LCDC bit 1).
pub fn lcdc_obj_enable(bus: &Interconnect) -> (r: bool)
    requires
        bus.wf(),
    ensures
        r == bit(bus.io.lcd.lcdc, 1),
{
    lcdc_bit(bus, 1)
}

/// The height of sprites: 16 when LCDC bit 2 is set, else 8.
pub fn lcdc_obj_height(bus: &Interconnect) -> (r: u8)
    requires
        bus.wf(),
    ensures
        r == (if bit(bus.io.lcd.lcdc, 2) { 16u8 } else { 8u8 }),
{
    if lcdc_bit(bus, 2) {
        16
    } else {
        8
    }
}

/// The background tile map: `0x9C00` when LCDC bit 3 is set, else `0x9800`.
pub fn lcdc_bg_map_area(bus: &Interconnect) -> (r: u16)
    requires
        bus.wf(),
    ensures
        r == (if bit(bus.io.lcd.lcdc, 3) { 0x9C00u16 } else { 0x9800u16 }),
{
    if lcdc_bit(bus, 3) {
        0x9C00
    } else {
        0x9800
    }
}

/// The tile data area: `0x8000` when LCDC bit 4 is set, else `0x8800`.
pub fn lcdc_bgw_data_area(bus: &Interconnect) -> (r: u16)
    requires
        bus.wf(),
    ensures
        r == (if bit(bus.io.lcd.lcdc, 4) { 0x8000u16 } else { 0x8800u16 }),
{
    if lcdc_bit(bus, 4) {
        0x8000
    } else {
        0x8800
    }
}

/// Whether the window is drawn (LCDC bit 5).
pub fn lcdc_win_enable(bus: &Interconnect) -> (r: bool)
    requires
        bus.wf(),
    ensures
        r == bit(bus.io.lcd.lcdc, 5),
{
    lcdc_bit(bus, 5)
}

/// The window tile map: `0x9C00` when LCDC bit 6 is set, else `0x9800`.
pub fn lcdc_win_map_area(bus: &Interconnect) -> (r: u16)
    requires
        bus.wf(),
    ensures
        r == (if bit(bus.io.lcd.lcdc, 6) { 0x9C00u16 } else { 0x9800u16 }),
{
    if lcdc_bit(bus, 6) {
        0x9C00
    } else {
        0x9800
    }
}

/// Whether the display is on (LCDC bit 7).
pub fn lcdc_lcd_enable(bus: &Interconnect) -> (r: bool)
    requires
        bus.wf(),
    ensures
        r == bit(bus.io.lcd.lcdc, 7),
{
    lcdc_bit(bus, 7)
}

/// Writes the mode into bits 1-0 of STAT.
pub fn status_mode_set(bus: &mut Interconnect, mode: LCDMode)
    requires
        old(bus).wf(),
    ensures
        *final(bus) == with_status(*old(bus), ((old(bus).io.lcd.status / 4) * 4 + mode_bits(mode)) as u8),
{
    let s = bus.ppu_read(0xFF41);
    let m: u8 = match mode {
        LCDMode::HBlank => 0b00,
        LCDMode::VBlank => 0b01,
        LCDMode::OAM => 0b10,
        LCDMode::XFer => 0b11,
    };
    assert((s & !0b11u8) | m == ((s / 4) * 4 + m) as u8) by (bit_vector)
        requires m < 4;
    let status = (s & !0b11) | m;
    bus.set_status(status);
}

/// Whether the LY=LYC flag (STAT bit 2) is set.
pub fn status_lyc(bus: &Interconnect) -> (r: bool)
    requires
        bus.wf(),
    ensures
        r == bit(bus.io.lcd.status, 2),
{
    let s = bus.ppu_read(0xFF41);
    proof { lemma_bit_mask(s, 2); }
    s & (1u8 << 2) != 0
}

/// Sets or clears the LY=LYC flag (STAT bit 2).
pub fn status_lyc_set(bus: &mut Interconnect, set: bool)
    requires
        old(bus).wf(),
    ensures
        *final(bus) == with_status(*old(bus), lyc_status(old(bus).io.lcd.status, set)),
{
    let previous = bus.ppu_read(0xFF41);
    let status = if set {
        previous | 4
    } else {
        previous & !4u8
    };
    bus.set_status(status);
}

/// Whether the STAT interrupt line is high.
pub fn stat_line(bus: &Interconnect) -> (r: bool)
    requires
        bus.wf(),
    ensures
        r == spec_stat_line(bus.io.lcd.status),
{
    let status = bus.ppu_read(0xFF41);
    let mode = status & 0b11;
    proof { crate::bits::lemma_u8_bits(status); }
    proof {
        lemma_bit_mask(status, 2);
        lemma_bit_mask(status, 3);
        lemma_bit_mask(status, 4);
        lemma_bit_mask(status, 5);
        lemma_bit_mask(status, 6);
    }
    (status & (1u8 << 3) != 0 && mode == 0)
        || (status & (1u8 << 4) != 0 && mode == 1)
        || (status & (1u8 << 5) != 0 && mode == 2)
        || (status & (1u8 << 6) != 0 && status & (1u8 << 2) != 0)
}

} // verus!
