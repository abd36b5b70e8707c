use vstd::prelude::*;
use crate::utils::ColorMode;

verus! {

/// The four shades, from lightest to darkest, in the given byte order.
pub open spec fn default_colors(mode: ColorMode) -> Seq<u32> {
    match mode {
        ColorMode::ARGB => seq![0xFFFFFFFFu32, 0xFFAAAAAA, 0xFF555555, 0xFF000000],
        ColorMode::RGBA => seq![0xFFFFFFFFu32, 0xAAAAAAFF, 0x555555FF, 0x000000FF],
    }
}

/// The colours that a palette register gives to the colour indices 0 to 3:
/// index `i` takes the shade in bits `2i+1..2i` of the register.
pub open spec fn spec_palette(mode: ColorMode, data: u8) -> Seq<u32> {
    let c = default_colors(mode);
    seq![c[(data % 4) as int], c[((data / 4) % 4) as int], c[((data / 16) % 4) as int], c[((data / 64) % 4) as int]]
}

/// The palette registers: colour index `i` takes the shade in bits
/// `2i+1..2i` of the register. So `0xE4` maps each index to its own shade and
/// `0x1B` reverses them.
pub proof fn lemma_palette(mode: ColorMode, data: u8, i: int)
    requires
        0 <= i < 4,
    ensures
        spec_palette(mode, data)[i] == default_colors(mode)[((data >> ((2 * i) as u8)) & 3) as int],
        spec_palette(mode, 0xE4) == default_colors(mode),
        spec_palette(mode, 0x1B) == default_colors(mode).reverse(),
{
    assert(((data >> 0u8) & 3 == data % 4) && ((data >> 2u8) & 3 == (data / 4) % 4)
        && ((data >> 4u8) & 3 == (data / 16) % 4) && ((data >> 6u8) & 3 == (data / 64) % 4)) by (bit_vector);
    assert(spec_palette(mode, 0xE4) =~= default_colors(mode));
    assert(spec_palette(mode, 0x1B) =~= default_colors(mode).reverse());
}

/// The four shades, from lightest to darkest.
fn colors_of(mode: ColorMode) -> (r: [u32; 4])
    ensures
        r@ == default_colors(mode),
{
    let r = match mode {
        ColorMode::ARGB => [0xFFFFFFFFu32, 0xFFAAAAAA, 0xFF555555, 0xFF000000],
        ColorMode::RGBA => [0xFFFFFFFFu32, 0xAAAAAAFF, 0x555555FF, 0x000000FF],
    };
    assert(r@ =~= default_colors(mode));
    r
}

/// The LCD registers (`0xFF40..=0xFF4B`) and the colours of the three palettes.
#[derive(Clone, Copy)]
pub struct LCD {
    pub lcdc: u8,
    pub status: u8,
    pub scroll_y: u8,
    pub scroll_x: u8,
    pub ly: u8,
    pub ly_compare: u8,
    pub dma: u8,
    pub bg_palette: u8,
    pub obj_palette: [u8; 2],
    pub win_y: u8,
    pub win_x: u8,

    pub color_mode: ColorMode,
    pub bg_colors: [u32; 4],
    pub sp1_colors: [u32; 4],
    pub sp2_colors: [u32; 4],
}

impl LCD {
    /// The value of the register at `address`.
    pub open spec fn spec_reg(&self, address: u16) -> u8 {
        if address == 0xFF40 {
            self.lcdc
        } else if address == 0xFF41 {
            self.status
        } else if address == 0xFF42 {
            self.scroll_y
        } else if address == 0xFF43 {
            self.scroll_x
        } else if address == 0xFF44 {
            self.ly
        } else if address == 0xFF45 {
            self.ly_compare
        } else if address == 0xFF46 {
            self.dma
        } else if address == 0xFF47 {
            self.bg_palette
        } else if address == 0xFF48 {
            self.obj_palette@[0]
        } else if address == 0xFF49 {
            self.obj_palette@[1]
        } else if address == 0xFF4A {
            self.win_y
        } else {
            self.win_x
        }
    }

    /// What writing `value` at register `address` does: `new` is the LCD
    /// after the write. A palette write also sets the colours of that palette
    /// (the two low bits of an object palette are ignored: index 0 is transparent).
    pub open spec fn spec_write(&self, new: &Self, address: u16, value: u8) -> bool {
        &&& new.spec_reg(address) == value
        &&& forall|a: u16| 0xFF40 <= a <= 0xFF4B && a != address ==> #[trigger] new.spec_reg(a) == self.spec_reg(a)
        &&& new.color_mode == self.color_mode
        &&& new.bg_colors@ == (if address == 0xFF47 { spec_palette(self.color_mode, value) } else { self.bg_colors@ })
        &&& new.sp1_colors@ == (if address == 0xFF48 { spec_palette(self.color_mode, value & 0b11111100) } else { self.sp1_colors@ })
        &&& new.sp2_colors@ == (if address == 0xFF49 { spec_palette(self.color_mode, value & 0b11111100) } else { self.sp2_colors@ })
    }

    /// The invariant: two object palettes.
    pub open spec fn wf(&self) -> bool {
        self.obj_palette@.len() == 2 && self.bg_colors@.len() == 4 && self.sp1_colors@.len() == 4
            && self.sp2_colors@.len() == 4
    }

    pub fn new(color_mode: ColorMode) -> (r: LCD)
        ensures
            r.wf(),
            r.lcdc == 0x91,
            r.status == 0x02,
            r.scroll_y == 0,
            r.scroll_x == 0,
            r.ly == 0,
            r.ly_compare == 0,
            r.dma == 0,
            r.bg_palette == 0xFC,
            r.obj_palette@ == seq![0xFFu8, 0xFF],
            r.win_y == 0,
            r.win_x == 0,
            r.color_mode == color_mode,
            r.bg_colors@ == default_colors(color_mode),
            r.sp1_colors@ == default_colors(color_mode),
            r.sp2_colors@ == default_colors(color_mode),
    {
        let default = colors_of(color_mode);
        let r = LCD {
            lcdc: 0x91,
            status: 0x02,
            scroll_y: 0,
            scroll_x: 0,
            ly: 0,
            ly_compare: 0,
            dma: 0,
            bg_palette: 0xFC,
            obj_palette: [0xFF; 2],
            win_y: 0,
            win_x: 0,
            color_mode,
            bg_colors: default,
            sp1_colors: default,
            sp2_colors: default,
        };
        assert(r.obj_palette@ =~= seq![0xFFu8, 0xFF]);
        r
    }

    /// Reads an LCD register (`0xFF40..=0xFF4B`).
    pub fn read(&self, address: u16) -> (r: u8)
        requires
            self.wf(),
            0xFF40 <= address <= 0xFF4B,
        ensures
            r == self.spec_reg(address),
    {
        match address {
            0xFF40 => self.lcdc,
            0xFF41 => self.status,
            0xFF42 => self.scroll_y,
            0xFF43 => self.scroll_x,
            0xFF44 => self.ly,
            0xFF45 => self.ly_compare,
            0xFF46 => self.dma,
            0xFF47 => self.bg_palette,
            0xFF48 => self.obj_palette[0],
            0xFF49 => self.obj_palette[1],
            0xFF4A => self.win_y,
            _ => self.win_x,
        }
    }

    /// Writes an LCD register (`0xFF40..=0xFF4B`); a palette write also sets
    /// the colours of that palette (the two low bits of an object palette are
    /// ignored: index 0 is transparent).
    pub fn write(&mut self, address: u16, value: u8)
        requires
            old(self).wf(),
            0xFF40 <= address <= 0xFF4B,
        ensures
            final(self).wf(),
            old(self).spec_write(final(self), address, value),
    {
        match address {
            0xFF40 => self.lcdc = value,
            0xFF41 => self.status = value,
            0xFF42 => self.scroll_y = value,
            0xFF43 => self.scroll_x = value,
            0xFF44 => self.ly = value,
            0xFF45 => self.ly_compare = value,
            0xFF46 => self.dma = value,
            0xFF47 => self.bg_palette = value,
            0xFF48 => self.obj_palette = [value, self.obj_palette[1]],
            0xFF49 => self.obj_palette = [self.obj_palette[0], value],
            0xFF4A => self.win_y = value,
            _ => self.win_x = value,
        }
        if address == 0xFF47 {
            self.update_palette(value, 0)
        } else if address == 0xFF48 {
            self.update_palette(value & 0b11111100, 1)
        } else if address == 0xFF49 {
            self.update_palette(value & 0b11111100, 2)
        }
    }

    /// Sets the colours of palette `palette` (0: background, 1 and 2: objects).
    pub fn update_palette(&mut self, palette_data: u8, palette: u8)
        requires
            old(self).wf(),
        ensures
            final(self).wf(),
            final(self).bg_colors@ == (if palette != 1 && palette != 2 { spec_palette(old(self).color_mode, palette_data) } else { old(self).bg_colors@ }),
            final(self).sp1_colors@ == (if palette == 1 { spec_palette(old(self).color_mode, palette_data) } else { old(self).sp1_colors@ }),
            final(self).sp2_colors@ == (if palette == 2 { spec_palette(old(self).color_mode, palette_data) } else { old(self).sp2_colors@ }),
            forall|a: u16| 0xFF40 <= a <= 0xFF4B ==> final(self).spec_reg(a) == old(self).spec_reg(a),
            final(self).color_mode == old(self).color_mode,
            final(self).obj_palette == old(self).obj_palette,
    {
        let colors = colors_of(self.color_mode);
        let d = palette_data;
        assert(d as usize & 0b11 == d % 4 && (d >> 2) as usize & 0b11 == (d / 4) % 4
            && (d >> 4) as usize & 0b11 == (d / 16) % 4 && (d >> 6) as usize & 0b11 == (d / 64) % 4) by (bit_vector);
        let p_colors = [
            colors[palette_data as usize & 0b11],
            colors[(palette_data >> 2) as usize & 0b11],
            colors[(palette_data >> 4) as usize & 0b11],
            colors[(palette_data >> 6) as usize & 0b11],
        ];
        assert(p_colors@ =~= spec_palette(self.color_mode, palette_data));
        if palette == 1 {
            self.sp1_colors = p_colors;
        } else if palette == 2 {
            self.sp2_colors = p_colors;
        } else {
            self.bg_colors = p_colors;
        }
    }
}

} // verus!
