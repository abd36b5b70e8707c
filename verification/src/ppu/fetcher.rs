use vstd::prelude::*;
use crate::interconnect::Interconnect;
use crate::interconnect::oam::OAMEntry;
use super::utils::{bit, lcd_read_ly, lcd_read_scroll_x, lcd_read_scroll_y, lcdc_bg_map_area, lcdc_win_map_area, lcdc_bgw_data_area, lcdc_obj_height};

verus! {

/// The two dots that each fetch step takes.
#[derive(Debug, Clone, Copy, PartialEq, Eq, Structural)]
pub enum Step {
    First,
    Second,
}

/// The step of the tile fetcher.
#[derive(Debug, Clone, Copy, PartialEq, Eq, Structural)]
pub enum FetchState {
    TileID(Step),
    TileRowLow(Step),
    TileRowHigh(Step),
    Push,
}

/// Whether the fetcher reads the background or the window tile map.
#[derive(Debug, Clone, Copy, PartialEq, Eq, Structural)]
pub enum FetchMode {
    Background,
    Window,
}

/// The tile fetcher of the pixel pipeline: reads tile numbers and tile rows
/// from video RAM, for the background, the window or a sprite.
#[derive(Debug, Clone, Copy, PartialEq, Eq)]
pub struct Fetcher {
    pub state: FetchState,
    pub mode: FetchMode,

    pub lx: u8,
    pub tile_address: u16,
    pub bgw_fetched_data: [u8; 3],
    pub data_address: u16,

    pub window_line: u8,

    pub fetching_sprite: bool,
    pub current_sprite: Option<OAMEntry>,
    pub sprite_data: [u8; 2],

    /// The position of the last pixel that was pushed to the FIFO
    pub pushed_x: u8,
}

/// `a + b` on eight bits, as the hardware counters wrap.
pub open spec fn add8(a: u8, b: u8) -> u8 {
    vstd::wrapping::u8_specs::wrapping_add(a, b)
}

/// `a - b` on eight bits.
pub open spec fn sub8(a: u8, b: u8) -> u8 {
    vstd::wrapping::u8_specs::wrapping_sub(a, b)
}

/// The address of the row `row` (0 to 7) of the tile `tile_id`, in the data
/// area `area` (`0x8000`, unsigned numbers, or `0x8800`, signed numbers from `0x9000`).
pub open spec fn spec_tile_row_address(area: u16, tile_id: u8, row: u8) -> u16 {
    if area == 0x8000 {
        (0x8000 + tile_id as int * 16 + row as int * 2) as u16
    } else if tile_id < 128 {
        (0x9000 + tile_id as int * 16 + row as int * 2) as u16
    } else {
        (0x9000 - (256 - tile_id as int) * 16 + row as int * 2) as u16
    }
}

/// The address, in the background or window map, of the next tile number.
pub open spec fn spec_tile_address(f: Fetcher, lcd: crate::interconnect::io::lcd::LCD) -> u16 {
    if f.mode == FetchMode::Background {
        let map: int = if bit(lcd.lcdc, 3) { 0x9C00 } else { 0x9800 };
        (map + (add8(lcd.ly, lcd.scroll_y) / 8) as int * 32 + (add8(f.lx, lcd.scroll_x) / 8) as int) as u16
    } else {
        let map: int = if bit(lcd.lcdc, 6) { 0x9C00 } else { 0x9800 };
        (map + (f.window_line / 8) as int * 32 + (f.lx / 8) as int) as u16
    }
}

/// The row of the background or window tile on the current line.
pub open spec fn spec_tile_row(f: Fetcher, lcd: crate::interconnect::io::lcd::LCD) -> u8 {
    if f.mode == FetchMode::Background { add8(lcd.ly, lcd.scroll_y) % 8 } else { f.window_line % 8 }
}

/// The address of the row of `sprite` on the current line (mirrored when the
/// sprite is; in 8x16 mode the tile number's low bit is ignored).
pub open spec fn spec_sprite_row_address(lcd: crate::interconnect::io::lcd::LCD, sprite: OAMEntry) -> u16 {
    let height: u8 = if bit(lcd.lcdc, 2) { 16 } else { 8 };
    let ty = sub8(add8(lcd.ly, 16), sprite.y);
    let tile_y = if (sprite.flags / 64) % 2 == 1 { sub8(sub8(height, 1), ty) } else { ty };
    let tile_index: int = if height == 16 { (sprite.tile / 2) as int * 2 } else { sprite.tile as int };
    (0x8000 + tile_index * 16 + tile_y as int * 2) as u16
}

/// The eight pixels of a fetched background or window row: colour and
/// colour index, leftmost first (index 0 everywhere when the background is off).
pub open spec fn spec_bgw_row(f: Fetcher, lcd: crate::interconnect::io::lcd::LCD) -> Seq<(u32, u8)> {
    Seq::new(8, |i: int| {
        let index = if bit(lcd.lcdc, 0) {
            spec_pixel_index(f.bgw_fetched_data@[1], f.bgw_fetched_data@[2], i)
        } else {
            0
        };
        (lcd.bg_colors@[index as int], index)
    })
}

/// The eight pixels of a fetched sprite row: colour, colour index and
/// whether the background is drawn over it, leftmost first, mirrored when
/// the sprite is.
pub open spec fn spec_obj_row(f: Fetcher, lcd: crate::interconnect::io::lcd::LCD) -> Seq<(u32, u8, bool)> {
    let sprite = f.current_sprite.unwrap();
    Seq::new(8, |i: int| {
        let k = if (sprite.flags / 32) % 2 == 1 { 7 - i } else { i };
        let index = spec_pixel_index(f.sprite_data@[0], f.sprite_data@[1], k);
        let color = if index == 0 {
            0xFFFF_FFFFu32
        } else if (sprite.flags / 16) % 2 == 1 {
            lcd.sp2_colors@[index as int]
        } else {
            lcd.sp1_colors@[index as int]
        };
        (color, index, sprite.flags >= 0x80)
    })
}

/// The data area of the bus's LCDC.
pub open spec fn spec_data_area(bus: Interconnect) -> u16 {
    if bit(bus.io.lcd.lcdc, 4) { 0x8000 } else { 0x8800 }
}

/// The colour index of pixel `i` (0 leftmost) of a tile row, from its low
/// and high bit planes.
pub open spec fn spec_pixel_index(low: u8, high: u8, i: int) -> u8 {
    ((if bit(high, (7 - i) as nat) { 2int } else { 0 }) + (if bit(low, (7 - i) as nat) { 1int } else { 0 })) as u8
}

/// The fetcher after one dot of background or window fetching.
pub open spec fn spec_fetch_bgw(f: Fetcher, bus: Interconnect) -> Fetcher {
    let lcd = bus.io.lcd;
    match f.state {
        FetchState::TileID(Step::First) => Fetcher {
            tile_address: spec_tile_address(f, lcd),
            state: FetchState::TileID(Step::Second),
            lx: add8(f.lx, 8),
            ..f
        },
        FetchState::TileID(Step::Second) => Fetcher {
            bgw_fetched_data: [bus.vram@[f.tile_address - 0x8000], f.bgw_fetched_data@[1], f.bgw_fetched_data@[2]],
            state: FetchState::TileRowLow(Step::First),
            ..f
        },
        FetchState::TileRowLow(Step::First) => Fetcher {
            data_address: spec_tile_row_address(spec_data_area(bus), f.bgw_fetched_data@[0], spec_tile_row(f, lcd)),
            state: FetchState::TileRowLow(Step::Second),
            ..f
        },
        FetchState::TileRowLow(Step::Second) => Fetcher {
            bgw_fetched_data: [f.bgw_fetched_data@[0], bus.vram@[f.data_address - 0x8000], f.bgw_fetched_data@[2]],
            state: FetchState::TileRowHigh(Step::First),
            ..f
        },
        FetchState::TileRowHigh(Step::First) => Fetcher {
            data_address: (f.data_address + 1) as u16,
            state: FetchState::TileRowHigh(Step::Second),
            ..f
        },
        FetchState::TileRowHigh(Step::Second) => Fetcher {
            bgw_fetched_data: [f.bgw_fetched_data@[0], f.bgw_fetched_data@[1], bus.vram@[f.data_address - 0x8000]],
            state: FetchState::Push,
            ..f
        },
        FetchState::Push => f,
    }
}

/// The fetcher after one dot of sprite fetching.
pub open spec fn spec_fetch_sprite(f: Fetcher, bus: Interconnect) -> Fetcher {
    let lcd = bus.io.lcd;
    match f.state {
        FetchState::TileRowLow(Step::First) => Fetcher {
            data_address: spec_sprite_row_address(lcd, f.current_sprite.unwrap()),
            state: FetchState::TileRowLow(Step::Second),
            ..f
        },
        FetchState::TileRowLow(Step::Second) => Fetcher {
            sprite_data: [bus.vram@[f.data_address - 0x8000], f.sprite_data@[1]],
            state: FetchState::TileRowHigh(Step::First),
            ..f
        },
        FetchState::TileRowHigh(Step::First) => Fetcher {
            data_address: (f.data_address + 1) as u16,
            state: FetchState::TileRowHigh(Step::Second),
            ..f
        },
        FetchState::TileRowHigh(Step::Second) => Fetcher {
            sprite_data: [f.sprite_data@[0], bus.vram@[f.data_address - 0x8000]],
            state: FetchState::Push,
            ..f
        },
        _ => f,
    }
}

/// The fetcher after one dot of fetching: a sprite row when one is being
/// fetched, else background or window.
pub open spec fn spec_fetch(f: Fetcher, bus: Interconnect) -> Fetcher {
    if f.fetching_sprite { spec_fetch_sprite(f, bus) } else { spec_fetch_bgw(f, bus) }
}

/// Bit `n` (0 to 7) of a byte is the low bit of the byte shifted right by `n`.
pub proof fn lemma_bit_shift(x: u8, n: nat)
    requires
        n < 8,
    ensures
        bit(x, n) <==> (x >> (n as u8)) & 1 == 1,
{
    vstd::arithmetic::power2::lemma2_to64();
    assert(((x >> 0u8) & 1 == 1 <==> x % 2 == 1) && ((x >> 1u8) & 1 == 1 <==> (x / 2) % 2 == 1)
        && ((x >> 2u8) & 1 == 1 <==> (x / 4) % 2 == 1) && ((x >> 3u8) & 1 == 1 <==> (x / 8) % 2 == 1)
        && ((x >> 4u8) & 1 == 1 <==> (x / 16) % 2 == 1) && ((x >> 5u8) & 1 == 1 <==> (x / 32) % 2 == 1)
        && ((x >> 6u8) & 1 == 1 <==> (x / 64) % 2 == 1) && ((x >> 7u8) & 1 == 1 <==> (x / 128) % 2 == 1)) by (bit_vector);
    assert(x as nat / 1 == x);
}

/// The colour index of a pixel of a tile row: bit 1 comes from the high
/// plane and bit 0 from the low plane, each at bit `7 - i` for pixel `i`
/// (the leftmost pixel is bit 7).
pub proof fn lemma_pixel_planes(low: u8, high: u8, i: int)
    requires
        0 <= i < 8,
    ensures
        spec_pixel_index(low, high, i) == 2 * ((high >> ((7 - i) as u8)) & 1) + ((low >> ((7 - i) as u8)) & 1),
        spec_pixel_index(low, high, i) < 4,
{
    lemma_bit_shift(high, (7 - i) as nat);
    lemma_bit_shift(low, (7 - i) as nat);
    let sh = (7 - i) as u8;
    assert((high >> sh) & 1 <= 1 && (low >> sh) & 1 <= 1) by (bit_vector);
}

/// The tile maps: the background takes its tile numbers from the map that
/// LCDC bit 3 selects (`0x9C00` when set, else `0x9800`), the window from the
/// map of bit 6. For the background, the tile of pixel (x, y) of the 256x256
/// plane, with x = fetch position + SCX and y = LY + SCY (modulo 256), is
/// entry `32 * (y / 8) + x / 8` of the map; for the window, entry
/// `32 * (window line / 8) + position / 8`. Each entry lies in its map's 1 KiB.
pub proof fn lemma_tile_maps(f: Fetcher, lcd: crate::interconnect::io::lcd::LCD)
    ensures
        f.mode == FetchMode::Background ==> {
            let map: int = if bit(lcd.lcdc, 3) { 0x9C00 } else { 0x9800 };
            let y = (lcd.ly + lcd.scroll_y) % 256;
            let x = (f.lx + lcd.scroll_x) % 256;
            &&& spec_tile_address(f, lcd) == map + 32 * (y / 8) + x / 8
            &&& map <= spec_tile_address(f, lcd) < map + 0x400
        },
        f.mode == FetchMode::Window ==> {
            let map: int = if bit(lcd.lcdc, 6) { 0x9C00 } else { 0x9800 };
            &&& spec_tile_address(f, lcd) == map + 32 * (f.window_line / 8) + f.lx / 8
            &&& map <= spec_tile_address(f, lcd) < map + 0x400
        },
{
}

/// Sprite rows: for a sprite on the line, `r` rows below its top (`r = LY +
/// 16 - Y`, below the sprite's height), the row fetched is `r`, or `height -
/// 1 - r` when the sprite is flipped vertically (flag bit 6); in 8x16 mode
/// the tile number's low bit is ignored. So the same sprite flipped reads
/// its rows upside down.
pub proof fn lemma_sprite_rows(lcd: crate::interconnect::io::lcd::LCD, s: OAMEntry)
    requires
        ({
            let h: int = if bit(lcd.lcdc, 2) { 16 } else { 8 };
            let r = (lcd.ly + 16 - s.y) % 256;
            0 <= r < h
        }),
    ensures
        ({
            let h: int = if bit(lcd.lcdc, 2) { 16 } else { 8 };
            let r = (lcd.ly + 16 - s.y) % 256;
            let flipped = (s.flags / 64) % 2 == 1;
            let t: int = if h == 16 { s.tile - s.tile % 2 } else { s.tile as int };
            let other = OAMEntry { flags: (if flipped { s.flags - 64 } else { s.flags + 64 }) as u8, ..s };
            &&& spec_sprite_row_address(lcd, s) == 0x8000 + 16 * t + 2 * (if flipped { h - 1 - r } else { r })
            &&& 0x8000 <= spec_sprite_row_address(lcd, s) < 0x9000
            &&& spec_sprite_row_address(lcd, s) + spec_sprite_row_address(lcd, other) == 2 * (0x8000 + 16 * t) + 2 * (h - 1)
        }),
{
    let flipped = (s.flags / 64) % 2 == 1;
    if flipped {
        assert(s.flags >= 64);
        assert((((s.flags - 64) as u8) / 64) % 2 == 0);
    } else {
        assert(s.flags + 64 < 256) by {
            assert(s.flags / 64 == 0 || s.flags / 64 == 2);
        }
        assert((((s.flags + 64) as u8) / 64) % 2 == 1);
    }
}

/// Tile data addressing: with LCDC bit 4 set (area `0x8000`) row `r` of tile
/// `n` lies at `0x8000 + 16n + 2r`; with it clear (area `0x8800`) tile numbers
/// are signed and counted from `0x9000`, so tiles 0 to 127 lie in
/// `0x9000..0x9800` and tiles 128 to 255 in `0x8800..0x9000`. Distinct tiles
/// have distinct rows, and each row is in video RAM.
pub proof fn lemma_tile_data_addressing(area: u16, n: u8, r: u8, m: u8)
    requires
        area == 0x8000 || area == 0x8800,
        r < 8,
    ensures
        area == 0x8000 ==> spec_tile_row_address(area, n, r) == 0x8000 + 16 * n + 2 * r,
        area == 0x8800 ==> spec_tile_row_address(area, n, r)
            == 0x9000 + 16 * (if n < 128 { n as int } else { n as int - 256 }) + 2 * r,
        area == 0x8800 && n < 128 ==> 0x9000 <= spec_tile_row_address(area, n, r) < 0x9800,
        area == 0x8800 && n >= 128 ==> 0x8800 <= spec_tile_row_address(area, n, r) < 0x9000,
        0x8000 <= spec_tile_row_address(area, n, r) < 0x9800,
        n != m ==> spec_tile_row_address(area, n, r) != spec_tile_row_address(area, m, r),
{
}

/// A background or window tile takes six dots: from the tile-number step,
/// with no sprite being fetched and the bus unchanged, six dots of fetching
/// read the tile number from the tile map, then the low and high bytes of the
/// tile's row on the current line, and leave the row ready to push, with the
/// fetch position eight pixels further.
pub proof fn lemma_fetch_tile_six_dots(f: Fetcher, bus: Interconnect)
    requires
        f.state == FetchState::TileID(Step::First),
        !f.fetching_sprite,
    ensures
        ({
            let lcd = bus.io.lcd;
            let g = spec_fetch(spec_fetch(spec_fetch(spec_fetch(spec_fetch(spec_fetch(f, bus), bus), bus), bus), bus), bus);
            let id = bus.vram@[spec_tile_address(f, lcd) - 0x8000];
            let row = spec_tile_row_address(spec_data_area(bus), id, spec_tile_row(f, lcd));
            &&& g.state == FetchState::Push
            &&& g.lx == add8(f.lx, 8)
            &&& g.bgw_fetched_data@[0] == id
            &&& g.bgw_fetched_data@[1] == bus.vram@[row - 0x8000]
            &&& g.bgw_fetched_data@[2] == bus.vram@[(row + 1) as u16 - 0x8000]
            &&& g == (Fetcher {
                    state: FetchState::Push,
                    lx: g.lx,
                    tile_address: g.tile_address,
                    bgw_fetched_data: g.bgw_fetched_data,
                    data_address: g.data_address,
                    ..f
                })
        }),
{
}

/// A sprite row takes four dots: once a sprite fetch has started, four dots
/// of fetching on an unchanged bus read the low and high bytes of the
/// sprite's row on the current line and leave it ready to push.
pub proof fn lemma_fetch_sprite_four_dots(f: Fetcher, bus: Interconnect, sprite: OAMEntry)
    requires
        f.state == FetchState::TileRowLow(Step::First),
        f.fetching_sprite,
        f.current_sprite == Some(sprite),
    ensures
        ({
            let g = spec_fetch(spec_fetch(spec_fetch(spec_fetch(f, bus), bus), bus), bus);
            let row = spec_sprite_row_address(bus.io.lcd, sprite);
            &&& g.state == FetchState::Push
            &&& g.sprite_data@[0] == bus.vram@[row - 0x8000]
            &&& g.sprite_data@[1] == bus.vram@[(row + 1) as u16 - 0x8000]
            &&& g == (Fetcher {
                    state: FetchState::Push,
                    sprite_data: g.sprite_data,
                    data_address: g.data_address,
                    ..f
                })
        }),
{
}

/// The address of the row of `sprite` on the current line.
fn sprite_row_address_of(bus: &Interconnect, sprite: OAMEntry) -> (r: u16)
    requires
        bus.wf(),
    ensures
        r == spec_sprite_row_address(bus.io.lcd, sprite),
        0x8000 <= r < 0x9FFF,
{
    let ly = lcd_read_ly(bus);
    let sprite_height = lcdc_obj_height(bus);
    let mut tile_y = ly.wrapping_add(16).wrapping_sub(sprite.y);
    if sprite.y_flip() {
        tile_y = sprite_height.wrapping_sub(1).wrapping_sub(tile_y);
    }
    let tile_index = if sprite_height == 16 {
        (sprite.tile / 2) as u16 * 2
    } else {
        sprite.tile as u16
    };
    0x8000 + tile_index * 16 + (tile_y as u16) * 2
}

/// The colour index of pixel `i` (0 leftmost) of a tile row.
pub fn pixel_index(low: u8, high: u8, i: u8) -> (r: u8)
    requires
        i < 8,
    ensures
        r == spec_pixel_index(low, high, i as int),
        r < 4,
{
    let b: u8 = 7 - i;
    proof {
        super::utils::lemma_bit_mask(low, b);
        super::utils::lemma_bit_mask(high, b);
    }
    let lo: u8 = if (low & (1u8 << b)) != 0 { 1 } else { 0 };
    let hi: u8 = if (high & (1u8 << b)) != 0 { 2 } else { 0 };
    hi + lo
}

impl Fetcher {
    /// The invariant: the fetched rows and addresses stay in video RAM.
    pub open spec fn wf(&self) -> bool {
        &&& self.bgw_fetched_data@.len() == 3
        &&& self.sprite_data@.len() == 2
        &&& self.fetching_sprite ==> self.current_sprite is Some
        &&& (self.state matches FetchState::TileID(Step::Second)) ==> 0x9800 <= self.tile_address < 0xA000
        &&& (self.state matches FetchState::TileRowLow(Step::Second) || self.state matches FetchState::TileRowHigh(Step::First))
            ==> 0x8000 <= self.data_address < 0x9FFF
        &&& (self.state matches FetchState::TileRowHigh(Step::Second)) ==> 0x8000 <= self.data_address < 0xA000
    }

    pub fn new() -> (r: Fetcher)
        ensures
            r.wf(),
            r.state == FetchState::TileID(Step::First),
            r.mode == FetchMode::Background,
            r.lx == 0,
            r.window_line == 0,
            !r.fetching_sprite,
            r.current_sprite is None,
            r.pushed_x == 0,
            r.tile_address == 0,
            r.data_address == 0,
            r.bgw_fetched_data@ == seq![0u8, 0, 0],
            r.sprite_data@ == seq![0u8, 0],
    {
        let r = Fetcher {
            state: FetchState::TileID(Step::First),
            mode: FetchMode::Background,
            lx: 0,
            tile_address: 0,
            bgw_fetched_data: [0; 3],
            data_address: 0,
            window_line: 0,
            fetching_sprite: false,
            current_sprite: None,
            sprite_data: [0; 2],
            pushed_x: 0,
        };
        assert(r.bgw_fetched_data@ =~= seq![0u8, 0, 0]);
        assert(r.sprite_data@ =~= seq![0u8, 0]);
        r
    }

    /// Back to the first background tile of a line.
    pub fn reset(&mut self)
        requires
            old(self).wf(),
        ensures
            final(self).wf(),
            *final(self) == (Fetcher {
                state: FetchState::TileID(Step::First),
                mode: FetchMode::Background,
                fetching_sprite: false,
                lx: 0,
                pushed_x: 0,
                ..*old(self)
            }),
    {
        self.state = FetchState::TileID(Step::First);
        self.mode = FetchMode::Background;
        self.fetching_sprite = false;
        self.lx = 0;
        self.pushed_x = 0;
    }

    pub fn reset_window_line(&mut self)
        ensures
            *final(self) == (Fetcher { window_line: 0, ..*old(self) }),
    {
        self.window_line = 0;
    }

    /// Switches to the window, from its first tile.
    pub fn switch_to_window(&mut self)
        requires
            old(self).wf(),
        ensures
            final(self).wf(),
            *final(self) == (Fetcher { mode: FetchMode::Window, lx: 0, state: FetchState::TileID(Step::First), ..*old(self) }),
    {
        self.mode = FetchMode::Window;
        self.lx = 0;
        self.state = FetchState::TileID(Step::First);
    }

    /// Counts a line of the window, if the window was drawn on this line.
    pub fn increment_window_line(&mut self)
        ensures
            *final(self) == (if old(self).mode == FetchMode::Window {
                Fetcher { window_line: add8(old(self).window_line, 1), ..*old(self) }
            } else {
                *old(self)
            }),
    {
        if self.mode == FetchMode::Window {
            self.window_line = self.window_line.wrapping_add(1);
        }
    }

    pub fn is_window_mode(&self) -> (r: bool)
        ensures
            r == (self.mode == FetchMode::Window),
    {
        self.mode == FetchMode::Window
    }

    pub fn is_fetching_sprite(&self) -> (r: bool)
        ensures
            r == self.fetching_sprite,
    {
        self.fetching_sprite
    }

    /// Starts fetching the row of `sprite` on the current line.
    pub fn trigger_sprite_fetching(&mut self, sprite: OAMEntry)
        requires
            old(self).wf(),
        ensures
            final(self).wf(),
            *final(self) == (Fetcher {
                fetching_sprite: true,
                current_sprite: Some(sprite),
                state: FetchState::TileRowLow(Step::First),
                ..*old(self)
            }),
    {
        self.fetching_sprite = true;
        self.current_sprite = Some(sprite);
        self.state = FetchState::TileRowLow(Step::First);
    }

    /// One dot of fetching: a sprite row when one is being fetched, else background or window.
    pub fn fetch(&mut self, bus: &Interconnect)
        requires
            old(self).wf(),
            bus.wf(),
        ensures
            final(self).wf(),
            *final(self) == spec_fetch(*old(self), *bus),
    {
        if self.fetching_sprite {
            self.fetch_sprite(bus);
        } else {
            self.fetch_bgw(bus);
        }
    }

    fn fetch_bgw(&mut self, bus: &Interconnect)
        requires
            old(self).wf(),
            !old(self).fetching_sprite,
            bus.wf(),
        ensures
            final(self).wf(),
            *final(self) == spec_fetch_bgw(*old(self), *bus),
    {
        match self.state {
            FetchState::TileID(Step::First) => self.fetch_tile_id(bus),
            FetchState::TileID(Step::Second) => {
                let v = bus.read_vram(self.tile_address);
                self.bgw_fetched_data = [v, self.bgw_fetched_data[1], self.bgw_fetched_data[2]];
                self.state = FetchState::TileRowLow(Step::First);
            },
            FetchState::TileRowLow(Step::First) => self.fetch_bgw_row_address(bus),
            FetchState::TileRowLow(Step::Second) => {
                let v = bus.read_vram(self.data_address);
                self.bgw_fetched_data = [self.bgw_fetched_data[0], v, self.bgw_fetched_data[2]];
                self.state = FetchState::TileRowHigh(Step::First);
            },
            FetchState::TileRowHigh(Step::First) => {
                self.data_address = self.data_address + 1;
                self.state = FetchState::TileRowHigh(Step::Second);
            },
            FetchState::TileRowHigh(Step::Second) => {
                let v = bus.read_vram(self.data_address);
                self.bgw_fetched_data = [self.bgw_fetched_data[0], self.bgw_fetched_data[1], v];
                self.state = FetchState::Push;
            },
            FetchState::Push => {},
        }
    }

    /// The tile-number step: computes the address of the tile number in the map.
    fn fetch_tile_id(&mut self, bus: &Interconnect)
        requires
            old(self).wf(),
            !old(self).fetching_sprite,
            old(self).state == FetchState::TileID(Step::First),
            bus.wf(),
        ensures
            final(self).wf(),
            *final(self) == spec_fetch_bgw(*old(self), *bus),
    {
        let a = self.tile_address_of(bus);
        self.tile_address = a;
        self.state = FetchState::TileID(Step::Second);
        self.lx = self.lx.wrapping_add(8);
    }

    fn tile_address_of(&self, bus: &Interconnect) -> (r: u16)
        requires
            bus.wf(),
        ensures
            r == spec_tile_address(*self, bus.io.lcd),
            0x9800 <= r < 0xA000,
    {
        if self.mode == FetchMode::Background {
            let ly = lcd_read_ly(bus);
            let scx = lcd_read_scroll_x(bus);
            let scy = lcd_read_scroll_y(bus);
            let bg_map_area = lcdc_bg_map_area(bus);
            bg_map_area + ((ly.wrapping_add(scy) as u16 / 8) * 32) + (self.lx.wrapping_add(scx) as u16 / 8)
        } else {
            let win_map_area = lcdc_win_map_area(bus);
            win_map_area + ((self.window_line / 8) as u16 * 32) + (self.lx as u16 / 8)
        }
    }

    /// The first tile-row step: computes the address of the row in the tile data.
    fn fetch_bgw_row_address(&mut self, bus: &Interconnect)
        requires
            old(self).wf(),
            !old(self).fetching_sprite,
            old(self).state == FetchState::TileRowLow(Step::First),
            bus.wf(),
        ensures
            final(self).wf(),
            *final(self) == spec_fetch_bgw(*old(self), *bus),
    {
        let a = self.row_address_of(bus);
        self.data_address = a;
        self.state = FetchState::TileRowLow(Step::Second);
    }

    fn row_address_of(&self, bus: &Interconnect) -> (r: u16)
        requires
            bus.wf(),
            self.wf(),
        ensures
            r == spec_tile_row_address(spec_data_area(*bus), self.bgw_fetched_data@[0], spec_tile_row(*self, bus.io.lcd)),
            0x8000 <= r < 0x9FFF,
            ({
                let n = self.bgw_fetched_data@[0];
                let row = spec_tile_row(*self, bus.io.lcd);
                r == (if bit(bus.io.lcd.lcdc, 4) {
                    0x8000 + 16 * n + 2 * row
                } else {
                    0x9000 + 16 * (if n < 128 { n as int } else { n as int - 256 }) + 2 * row
                })
            }),
    {
        let bgw_data_area = lcdc_bgw_data_area(bus);
        let tile_id = self.bgw_fetched_data[0];
        let tile_row = if self.mode == FetchMode::Background {
            let ly = lcd_read_ly(bus);
            let scy = lcd_read_scroll_y(bus);
            ly.wrapping_add(scy) % 8
        } else {
            self.window_line % 8
        };
        if bgw_data_area == 0x8000 {
            0x8000 + (tile_id as u16) * 16 + (tile_row as u16) * 2
        } else if tile_id < 128 {
            0x9000 + (tile_id as u16) * 16 + (tile_row as u16) * 2
        } else {
            0x9000 - (256 - tile_id as u16) * 16 + (tile_row as u16) * 2
        }
    }

    fn fetch_sprite(&mut self, bus: &Interconnect)
        requires
            old(self).wf(),
            old(self).fetching_sprite,
            bus.wf(),
        ensures
            final(self).wf(),
            *final(self) == spec_fetch_sprite(*old(self), *bus),
    {
        match self.state {
            FetchState::TileRowLow(Step::First) => self.fetch_sprite_row_address(bus),
            FetchState::TileRowLow(Step::Second) => {
                let v = bus.read_vram(self.data_address);
                self.sprite_data = [v, self.sprite_data[1]];
                self.state = FetchState::TileRowHigh(Step::First);
            },
            FetchState::TileRowHigh(Step::First) => {
                self.data_address = self.data_address + 1;
                self.state = FetchState::TileRowHigh(Step::Second);
            },
            FetchState::TileRowHigh(Step::Second) => {
                let v = bus.read_vram(self.data_address);
                self.sprite_data = [self.sprite_data[0], v];
                self.state = FetchState::Push;
            },
            _ => {},
        }
    }

    /// The first sprite-row step: computes the address of the sprite's row on this line.
    fn fetch_sprite_row_address(&mut self, bus: &Interconnect)
        requires
            old(self).wf(),
            old(self).fetching_sprite,
            old(self).state == FetchState::TileRowLow(Step::First),
            bus.wf(),
        ensures
            final(self).wf(),
            *final(self) == spec_fetch_sprite(*old(self), *bus),
    {
        let sprite = match self.current_sprite {
            Some(s) => s,
            None => OAMEntry::new(),
        };
        let a = sprite_row_address_of(bus, sprite);
        self.data_address = a;
        self.state = FetchState::TileRowLow(Step::Second);
    }

    /// When a background or window row is ready: its eight pixels (colour and
    /// colour index, leftmost first; index 0 everywhere when the background is
    /// off), and the fetcher goes back to the tile-number step.
    pub fn push_bgw(&mut self, bus: &Interconnect) -> (r: Option<Vec<(u32, u8)>>)
        requires
            old(self).wf(),
            bus.wf(),
        ensures
            final(self).wf(),
            old(self).state != FetchState::Push ==> r is None && *final(self) == *old(self),
            old(self).state == FetchState::Push ==> {
                &&& *final(self) == (Fetcher {
                        pushed_x: add8(old(self).pushed_x, 8),
                        state: FetchState::TileID(Step::First),
                        ..*old(self)
                    })
                &&& r matches Some(px) && px@.len() == 8
                &&& r.unwrap()@ == spec_bgw_row(*old(self), bus.io.lcd)
                &&& forall|i: int| 0 <= i < 8 ==> {
                        let index = if bit(bus.io.lcd.lcdc, 0) {
                            spec_pixel_index(old(self).bgw_fetched_data@[1], old(self).bgw_fetched_data@[2], i)
                        } else {
                            0
                        };
                        #[trigger] r.unwrap()@[i] == (bus.io.lcd.bg_colors@[index as int], index)
                    }
            },
    {
        if let FetchState::Push = self.state {
            let mut pixels: Vec<(u32, u8)> = Vec::new();
            let enable = super::utils::lcdc_bgw_enable(bus);
            let colors = bus.lcd_bg_colors();
            let mut i: u8 = 0;
            while i < 8
                invariant
                    i <= 8,
                    pixels@.len() == i,
                    bus.wf(),
                    self.wf(),
                    *colors == bus.io.lcd.bg_colors,
                    enable == bit(bus.io.lcd.lcdc, 0),
                    forall|j: int| 0 <= j < i ==> {
                        let index = if enable {
                            spec_pixel_index(self.bgw_fetched_data@[1], self.bgw_fetched_data@[2], j)
                        } else {
                            0
                        };
                        #[trigger] pixels@[j] == (bus.io.lcd.bg_colors@[index as int], index)
                    },
                decreases 8 - i,
            {
                let index = if enable {
                    pixel_index(self.bgw_fetched_data[1], self.bgw_fetched_data[2], i)
                } else {
                    0
                };
                let color = colors[index as usize];
                pixels.push((color, index));
                i = i + 1;
            }
            assert(pixels@ =~= spec_bgw_row(*old(self), bus.io.lcd));
            self.pushed_x = self.pushed_x.wrapping_add(8);
            self.state = FetchState::TileID(Step::First);
            Some(pixels)
        } else {
            None
        }
    }

    /// When a sprite row is ready: its eight pixels (colour, colour index, and
    /// whether the background is drawn over it), leftmost first, mirrored when
    /// the sprite is; the sprite fetch then ends.
    pub fn push_obj(&mut self, bus: &Interconnect) -> (r: Option<Vec<(u32, u8, bool)>>)
        requires
            old(self).wf(),
            old(self).fetching_sprite,
            bus.wf(),
        ensures
            final(self).wf(),
            old(self).state != FetchState::Push ==> r is None && *final(self) == *old(self),
            old(self).state == FetchState::Push ==> {
                let sprite = old(self).current_sprite.unwrap();
                &&& *final(self) == (Fetcher {
                        fetching_sprite: false,
                        current_sprite: None,
                        state: FetchState::TileID(Step::First),
                        ..*old(self)
                    })
                &&& r matches Some(px) && px@.len() == 8
                &&& r.unwrap()@ == spec_obj_row(*old(self), bus.io.lcd)
                &&& forall|i: int| 0 <= i < 8 ==> {
                        let k = if (sprite.flags / 32) % 2 == 1 { 7 - i } else { i };
                        let index = spec_pixel_index(old(self).sprite_data@[0], old(self).sprite_data@[1], k);
                        let color = if index == 0 {
                            0xFFFF_FFFFu32
                        } else if (sprite.flags / 16) % 2 == 1 {
                            bus.io.lcd.sp2_colors@[index as int]
                        } else {
                            bus.io.lcd.sp1_colors@[index as int]
                        };
                        #[trigger] r.unwrap()@[i] == (color, index, sprite.flags >= 0x80)
                    }
            },
    {
        if let FetchState::Push = self.state {
            let mut pixels: Vec<(u32, u8, bool)> = Vec::with_capacity(8);
            let sprite = match self.current_sprite {
                Some(s) => s,
                None => OAMEntry::new(),
            };
            let flip = sprite.x_flip();
            let bg_priority = sprite.bg_over_obj();
            let second = sprite.palette_nb();
            let sp1 = bus.lcd_sp1_colors();
            let sp2 = bus.lcd_sp2_colors();
            let mut i: u8 = 0;
            while i < 8
                invariant
                    i <= 8,
                    pixels@.len() == i,
                    bus.wf(),
                    self.wf(),
                    *sp1 == bus.io.lcd.sp1_colors,
                    *sp2 == bus.io.lcd.sp2_colors,
                    flip == ((sprite.flags / 32) % 2 == 1),
                    second == ((sprite.flags / 16) % 2 == 1),
                    bg_priority == (sprite.flags >= 0x80),
                    forall|j: int| 0 <= j < i ==> {
                        let k = if flip { 7 - j } else { j };
                        let index = spec_pixel_index(self.sprite_data@[0], self.sprite_data@[1], k);
                        let color = if index == 0 {
                            0xFFFF_FFFFu32
                        } else if second {
                            bus.io.lcd.sp2_colors@[index as int]
                        } else {
                            bus.io.lcd.sp1_colors@[index as int]
                        };
                        #[trigger] pixels@[j] == (color, index, bg_priority)
                    },
                decreases 8 - i,
            {
                let k = if flip { 7 - i } else { i };
                let index = pixel_index(self.sprite_data[0], self.sprite_data[1], k);
                let color = if index == 0 {
                    0xFFFF_FFFFu32
                } else if second {
                    sp2[index as usize]
                } else {
                    sp1[index as usize]
                };
                pixels.push((color, index, bg_priority));
                i = i + 1;
            }
            assert(pixels@ =~= spec_obj_row(*old(self), bus.io.lcd));
            self.fetching_sprite = false;
            self.current_sprite = None;
            self.state = FetchState::TileID(Step::First);
            Some(pixels)
        } else {
            None
        }
    }
}

} // verus!
