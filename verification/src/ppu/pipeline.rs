use vstd::prelude::*;
use crate::interconnect::Interconnect;
use super::{PPU, LCDMode, XRES};
use super::fetcher::{FetchMode, FetchState, Step, Fetcher, add8, spec_bgw_row, spec_obj_row, spec_fetch_bgw, spec_fetch_sprite};
use super::utils::{bit, lcd_read_ly, lcd_read_scroll_x, lcd_read_win_x, lcd_read_win_y, lcdc_obj_enable, lcdc_obj_height, lcdc_win_enable};

verus! {

/// The colour of a screen pixel: the sprite pixel unless it is transparent
/// (index 0) or behind a non-zero background pixel.
pub open spec fn spec_mix(bg: (u32, u8), obj: (u32, u8, bool)) -> u32 {
    if obj.1 == 0 {
        bg.0
    } else if obj.2 && bg.1 != 0 {
        bg.0
    } else {
        obj.0
    }
}

/// Pixel priority: the screen shows the background or the sprite pixel; a
/// transparent sprite pixel (index 0) never shows, and an opaque one always
/// shows over background colour 0; over another background colour it shows
/// unless the sprite is behind the background.
pub proof fn lemma_mix_priority(bg: (u32, u8), obj: (u32, u8, bool))
    ensures
        spec_mix(bg, obj) == bg.0 || spec_mix(bg, obj) == obj.0,
        obj.1 == 0 ==> spec_mix(bg, obj) == bg.0,
        obj.1 != 0 && bg.1 == 0 ==> spec_mix(bg, obj) == obj.0,
        obj.1 != 0 && bg.1 != 0 ==> spec_mix(bg, obj) == (if obj.2 { bg.0 } else { obj.0 }),
{
}

/// The colour of a screen pixel from its background and sprite pixels.
pub fn mix_pixel(bg: (u32, u8), obj: (u32, u8, bool)) -> (r: u32)
    ensures
        r == spec_mix(bg, obj),
{
    let (bgw_pixel, bgw_index) = bg;
    let (obj_pixel, obj_index, bg_priority) = obj;
    if obj_index == 0 {
        bgw_pixel
    } else if bg_priority && bgw_index != 0 {
        bgw_pixel
    } else {
        obj_pixel
    }
}

/// The sprite FIFO after a sprite row is merged in: padded with transparent
/// pixels to eight, then each of the first eight slots takes the new pixel
/// when that is opaque and the slot is transparent (the sprite with the lower
/// X keeps priority).
pub open spec fn spec_merge(fifo: Seq<(u32, u8, bool)>, data: Seq<(u32, u8, bool)>) -> Seq<(u32, u8, bool)> {
    let padded = Seq::new(
        if fifo.len() < 8 { 8 } else { fifo.len() },
        |i: int| if i < fifo.len() { fifo[i] } else { (0xFFFF_FFFFu32, 0u8, true) },
    );
    Seq::new(padded.len(), |i: int|
        if i < 8 && data[i].1 != 0 && padded[i].1 == 0 { data[i] } else { padded[i] })
}

/// The window step of a drawing dot: when the window's trigger holds, the
/// background FIFO empties and the fetcher restarts in window mode.
pub open spec fn window_step(a: PPU, b: PPU, bus: Interconnect) -> bool {
    &&& a.same_line_state(&b)
    &&& b.screen_x == a.screen_x
    &&& b.current_x == a.current_x
    &&& b.obj_fifo == a.obj_fifo
    &&& b.fetched_sprites == a.fetched_sprites
    &&& if a.spec_window_trigger(bus) {
            &&& b.bgw_fifo@.len() == 0
            &&& b.fetcher == (Fetcher { mode: FetchMode::Window, lx: 0, state: FetchState::TileID(Step::First), ..a.fetcher })
        } else {
            &&& b.bgw_fifo == a.bgw_fifo
            &&& b.fetcher == a.fetcher
        }
}

/// The sprite step of a drawing dot: when sprites are on and none is being
/// fetched, the fetch of the first sprite that covers the drawing position
/// starts, and that sprite is marked fetched.
pub open spec fn sprite_step(a: PPU, b: PPU, bus: Interconnect) -> bool {
    let active = bit(bus.io.lcd.lcdc, 1) && !a.fetcher.fetching_sprite;
    &&& a.same_line_state(&b)
    &&& b.screen_x == a.screen_x
    &&& b.current_x == a.current_x
    &&& b.bgw_fifo == a.bgw_fifo
    &&& b.obj_fifo == a.obj_fifo
    &&& (!active || forall|i: int| 0 <= i < a.visible_sprites@.len() ==> !#[trigger] a.covers(i))
            ==> b.fetcher == a.fetcher && b.fetched_sprites == a.fetched_sprites
    &&& forall|i: int| 0 <= i < a.visible_sprites@.len() && active && #[trigger] a.covers(i)
            && (forall|j: int| 0 <= j < i ==> !#[trigger] a.covers(j))
            ==> b.fetched_sprites@ == a.fetched_sprites@.update(i, true)
                && b.fetcher == (Fetcher {
                    fetching_sprite: true,
                    current_sprite: Some(a.visible_sprites@[i]),
                    state: FetchState::TileRowLow(Step::First),
                    ..a.fetcher
                })
}

/// The fetch step of a drawing dot: a sprite fetch advances, and when its
/// row is ready merges it into the sprite FIFO (until then the dot `stalls`:
/// no pixel leaves); otherwise, when the background FIFO is empty, the
/// background fetch advances and a ready row fills the FIFO.
pub open spec fn fetch_step(a: PPU, b: PPU, bus: Interconnect, stalls: bool) -> bool {
    &&& a.same_line_state(&b)
    &&& b.screen_x == a.screen_x
    &&& b.current_x == a.current_x
    &&& b.fetched_sprites == a.fetched_sprites
    &&& if a.fetcher.fetching_sprite {
            let f = spec_fetch_sprite(a.fetcher, bus);
            &&& stalls == (f.state != FetchState::Push)
            &&& b.bgw_fifo == a.bgw_fifo
            &&& if f.state != FetchState::Push {
                    b.fetcher == f && b.obj_fifo == a.obj_fifo
                } else {
                    &&& b.fetcher == (Fetcher { fetching_sprite: false, current_sprite: None, state: FetchState::TileID(Step::First), ..f })
                    &&& b.obj_fifo@ == spec_merge(a.obj_fifo@, spec_obj_row(f, bus.io.lcd))
                }
        } else if a.bgw_fifo@.len() == 0 {
            let f = spec_fetch_bgw(a.fetcher, bus);
            &&& !stalls
            &&& b.obj_fifo == a.obj_fifo
            &&& if f.state != FetchState::Push {
                    b.fetcher == f && b.bgw_fifo == a.bgw_fifo
                } else {
                    &&& b.fetcher == (Fetcher { pushed_x: add8(f.pushed_x, 8), state: FetchState::TileID(Step::First), ..f })
                    &&& b.bgw_fifo@ == spec_bgw_row(f, bus.io.lcd)
                }
        } else {
            !stalls && b == a
        }
}

/// One drawing dot of the pipeline (see `PPU::process_fifo`): the window,
/// sprite and fetch steps, then the output step unless the dot stalls or the
/// background FIFO is empty. `fa` and `fb` are the frame buffer before and after.
pub open spec fn pipeline_dot(a: PPU, b: PPU, fa: Seq<u32>, fb: Seq<u32>, bus: Interconnect, render: bool) -> bool {
    exists|m1: PPU, m2: PPU, m3: PPU, stalls: bool|
        #![trigger window_step(a, m1, bus), sprite_step(m1, m2, bus), fetch_step(m2, m3, bus, stalls)]
        window_step(a, m1, bus) && sprite_step(m1, m2, bus) && fetch_step(m2, m3, bus, stalls)
        && if !stalls && m3.bgw_fifo@.len() > 0 {
            output_step(m3, b, fa, fb, bus, render)
        } else {
            b == m3 && fb == fa
        }
}

/// The output step of a drawing dot (see `PPU::output_pixel`): `fa` and `fb`
/// are the frame buffer before and after.
pub open spec fn output_step(a: PPU, b: PPU, fa: Seq<u32>, fb: Seq<u32>, bus: Interconnect, render: bool) -> bool {
    let bg = a.bgw_fifo@[0];
    let dropped = a.fetcher.mode != FetchMode::Window && a.current_x < bus.io.lcd.scroll_x % 8;
    let obj = if a.obj_fifo@.len() > 0 { a.obj_fifo@[0] } else { (0xFFFF_FFFFu32, 0u8, true) };
    let index = a.screen_x + bus.io.lcd.ly * 160;
    &&& a.same_line_state(&b)
    &&& b.fetcher == a.fetcher
    &&& b.fetched_sprites == a.fetched_sprites
    &&& b.bgw_fifo@ == a.bgw_fifo@.drop_first()
    &&& dropped ==> {
            &&& b.current_x == a.current_x + 1
            &&& b.screen_x == a.screen_x
            &&& b.obj_fifo == a.obj_fifo
            &&& fb == fa
        }
    &&& !dropped ==> {
            &&& b.current_x == a.current_x
            &&& b.screen_x == a.screen_x + 1
            &&& b.obj_fifo@ == (if a.obj_fifo@.len() > 0 { a.obj_fifo@.drop_first() } else { a.obj_fifo@ })
            &&& fb == (if render && index < fa.len() { fa.update(index, spec_mix(bg, obj)) } else { fa })
        }
}

impl PPU {
    /// Everything of the unit but the sprite FIFO is the same.
    pub open spec fn same_but_obj(&self, new: &Self) -> bool {
        &&& self.same_line_state(new)
        &&& new.bgw_fifo == self.bgw_fifo
        &&& new.fetcher == self.fetcher
        &&& new.screen_x == self.screen_x
        &&& new.current_x == self.current_x
        &&& new.fetched_sprites == self.fetched_sprites
    }

    /// Everything of the unit but the FIFOs, the positions, the fetcher and
    /// the fetched marks is the same.
    pub open spec fn same_line_state(&self, new: &Self) -> bool {
        &&& new.visible_sprites == self.visible_sprites
        &&& new.stat_delay == self.stat_delay
        &&& new.stat_line == self.stat_line
        &&& new.stat_mode == self.stat_mode
        &&& new.current_frame == self.current_frame
        &&& new.line_ticks == self.line_ticks
        &&& new.new_frame == self.new_frame
    }

    /// One dot of drawing: the window may start, a sprite fetch may start,
    /// the fetcher advances, and at most one pixel leaves the FIFOs, to
    /// `framebuffer[screen_x + 160 * LY]` when `render` (a pixel whose index
    /// lies past the end of the buffer is dropped).
    pub fn process_fifo(&mut self, bus: &Interconnect, framebuffer: &mut Vec<u32>, render: bool)
        requires
            old(self).wf(),
            old(self).stat_mode == LCDMode::XFer,
            bus.wf(),
        ensures
            final(self).wf_core(),
            old(self).same_line_state(final(self)),
            final(self).screen_x == old(self).screen_x || final(self).screen_x == old(self).screen_x + 1,
            final(framebuffer)@.len() == old(framebuffer)@.len(),
            forall|i: int| 0 <= i < old(framebuffer)@.len() && (!render || i != old(self).screen_x + bus.io.lcd.ly * 160)
                ==> #[trigger] final(framebuffer)@[i] == old(framebuffer)@[i],
            pipeline_dot(*old(self), *final(self), old(framebuffer)@, final(framebuffer)@, *bus, render),
    {
        let ghost m0 = *self;
        self.check_window_trigger(bus);
        let ghost m1 = *self;
        self.check_sprite_displayed(bus);
        let ghost m2 = *self;
        let stalls = self.fetch_stage(bus);
        let ghost m3 = *self;
        if !stalls && self.bgw_fifo.len() > 0 {
            self.output_pixel(bus, framebuffer, render);
        }
        assert(window_step(m0, m1, *bus) && sprite_step(m1, m2, *bus) && fetch_step(m2, m3, *bus, stalls));
    }

    /// The fetch step of a drawing dot (see `fetch_step`); returns whether
    /// the dot stalls on a sprite fetch.
    fn fetch_stage(&mut self, bus: &Interconnect) -> (stalls: bool)
        requires
            old(self).wf(),
            bus.wf(),
        ensures
            final(self).wf_core(),
            final(self).screen_x == old(self).screen_x,
            fetch_step(*old(self), *final(self), *bus, stalls),
    {
        if self.fetcher.is_fetching_sprite() {
            self.fetcher.fetch(bus);
            match self.fetcher.push_obj(bus) {
                Some(data) => {
                    self.merge_sprite(&data);
                    false
                },
                None => true,
            }
        } else if self.bgw_fifo.len() == 0 {
            self.fetcher.fetch(bus);
            if let Some(pixels) = self.fetcher.push_bgw(bus) {
                let ghost snap = *self;
                let mut k: usize = 0;
                while k < pixels.len()
                    invariant
                        snap.same_line_state(self),
                        self.fetcher == snap.fetcher,
                        self.obj_fifo == snap.obj_fifo,
                        self.screen_x == snap.screen_x,
                        self.current_x == snap.current_x,
                        self.fetched_sprites == snap.fetched_sprites,
                        k <= pixels@.len(),
                        pixels@.len() == 8,
                        self.bgw_fifo@ == pixels@.subrange(0, k as int),
                    decreases pixels@.len() - k,
                {
                    self.bgw_fifo.push(pixels[k]);
                    k = k + 1;
                    assert(self.bgw_fifo@ =~= pixels@.subrange(0, k as int));
                }
                assert(self.bgw_fifo@ =~= pixels@);
            }
            false
        } else {
            false
        }
    }

    /// Takes a pixel out of the FIFOs. While not in the window, the first
    /// `SCX % 8` background pixels of a line are dropped. Otherwise the
    /// background pixel is mixed with the first sprite pixel (a transparent
    /// one when the sprite FIFO is empty), and, when `render`, the colour goes
    /// to `framebuffer[screen_x + 160 * LY]` (dropped past the end).
    pub fn output_pixel(&mut self, bus: &Interconnect, framebuffer: &mut Vec<u32>, render: bool)
        requires
            old(self).wf_core(),
            old(self).screen_x < 160,
            old(self).bgw_fifo@.len() > 0,
            bus.wf(),
        ensures
            final(self).wf_core(),
            output_step(*old(self), *final(self), old(framebuffer)@, final(framebuffer)@, *bus, render),
            old(self).same_line_state(final(self)),
            final(self).fetcher == old(self).fetcher,
            final(self).fetched_sprites == old(self).fetched_sprites,
            final(self).bgw_fifo@ == old(self).bgw_fifo@.drop_first(),
            ({
                let bg = old(self).bgw_fifo@[0];
                let dropped = old(self).fetcher.mode != FetchMode::Window
                    && old(self).current_x < bus.io.lcd.scroll_x % 8;
                let obj = if old(self).obj_fifo@.len() > 0 { old(self).obj_fifo@[0] } else { (0xFFFF_FFFFu32, 0u8, true) };
                let index = old(self).screen_x + bus.io.lcd.ly * 160;
                &&& dropped ==> {
                    &&& final(self).current_x == old(self).current_x + 1
                    &&& final(self).screen_x == old(self).screen_x
                    &&& final(self).obj_fifo == old(self).obj_fifo
                    &&& final(framebuffer)@ == old(framebuffer)@
                }
                &&& !dropped ==> {
                    &&& final(self).current_x == old(self).current_x
                    &&& final(self).screen_x == old(self).screen_x + 1
                    &&& final(self).obj_fifo@ == (if old(self).obj_fifo@.len() > 0 { old(self).obj_fifo@.drop_first() } else { old(self).obj_fifo@ })
                    &&& final(framebuffer)@ == (if render && index < old(framebuffer)@.len() {
                            old(framebuffer)@.update(index, spec_mix(bg, obj))
                        } else {
                            old(framebuffer)@
                        })
                }
            }),
    {
        let bg = self.bgw_fifo.remove(0);
        if !self.fetcher.is_window_mode() {
            let scx = lcd_read_scroll_x(bus);
            // Discard the first (SCX % 8) pixels
            if self.current_x < (scx % 8) {
                self.current_x = self.current_x + 1;
                return;
            }
        }
        let obj = if self.obj_fifo.len() > 0 { self.obj_fifo.remove(0) } else { (0xFFFF_FFFFu32, 0u8, true) };
        let pixel = mix_pixel(bg, obj);
        let x = self.screen_x as usize + lcd_read_ly(bus) as usize * XRES;
        if render && x < framebuffer.len() {
            framebuffer.set(x, pixel);
        }
        self.screen_x = self.screen_x + 1;
    }

    /// Merges a fetched sprite row into the sprite FIFO.
    fn merge_sprite(&mut self, data: &Vec<(u32, u8, bool)>)
        requires
            old(self).wf_core(),
            data@.len() == 8,
        ensures
            final(self).wf_core(),
            final(self).obj_fifo@ == spec_merge(old(self).obj_fifo@, data@),
            final(self).bgw_fifo == old(self).bgw_fifo,
            final(self).fetcher == old(self).fetcher,
            final(self).screen_x == old(self).screen_x,
            final(self).current_x == old(self).current_x,
            final(self).fetched_sprites == old(self).fetched_sprites,
            old(self).same_line_state(final(self)),
    {
        let ghost fifo0 = self.obj_fifo@;
        while self.obj_fifo.len() < 8
            invariant
                old(self).same_but_obj(self),
                self.obj_fifo@.len() <= 8 || self.obj_fifo@.len() == fifo0.len(),
                fifo0.len() <= 16,
                self.obj_fifo@.len() >= fifo0.len(),
                forall|i: int| 0 <= i < self.obj_fifo@.len() ==> #[trigger] self.obj_fifo@[i]
                    == (if i < fifo0.len() { fifo0[i] } else { (0xFFFF_FFFFu32, 0u8, true) }),
            decreases 8 - self.obj_fifo@.len(),
        {
            self.obj_fifo.push((0xFFFF_FFFFu32, 0u8, true));
        }
        let ghost padded = self.obj_fifo@;
        assert(padded.len() == (if fifo0.len() < 8 { 8 } else { fifo0.len() }));
        let mut i: usize = 0;
        while i < 8
            invariant
                old(self).same_but_obj(self),
                i <= 8,
                data@.len() == 8,
                padded.len() >= 8,
                padded.len() <= 16,
                self.obj_fifo@.len() == padded.len(),
                forall|j: int| 0 <= j < padded.len() ==> #[trigger] self.obj_fifo@[j]
                    == (if j < i && data@[j].1 != 0 && padded[j].1 == 0 { data@[j] } else { padded[j] }),
            decreases 8 - i,
        {
            let (new_pixel, new_index, new_bg_priority) = data[i];
            if new_index != 0 {
                let (_old_pixel, old_index, _old_bg_priority) = self.obj_fifo[i];
                if old_index == 0 {
                    self.obj_fifo.set(i, (new_pixel, new_index, new_bg_priority));
                }
            }
            i = i + 1;
        }
        assert(self.obj_fifo@ =~= spec_merge(fifo0, data@));
    }

    /// Back to the start of a line: FIFOs emptied, positions at zero, no
    /// sprite fetched, fetcher on the first background tile.
    pub fn pipeline_reset(&mut self)
        requires
            old(self).wf_core(),
        ensures
            final(self).wf_core(),
            final(self).screen_x == 0,
            final(self).current_x == 0,
            final(self).bgw_fifo@.len() == 0,
            final(self).obj_fifo@.len() == 0,
            forall|i: int| 0 <= i < 10 ==> !#[trigger] final(self).fetched_sprites@[i],
            final(self).fetcher == (Fetcher {
                state: FetchState::TileID(Step::First),
                mode: FetchMode::Background,
                fetching_sprite: false,
                lx: 0,
                pushed_x: 0,
                ..old(self).fetcher
            }),
            old(self).same_line_state(final(self)),
    {
        self.screen_x = 0;
        self.current_x = 0;
        self.bgw_fifo.clear();
        self.obj_fifo.clear();
        self.fetched_sprites = [false; 10];
        self.fetcher.reset();
    }

    /// Whether the window starts at this dot: it is enabled, not yet started,
    /// LY has reached WY, and the drawing position has reached WX - 7 (or the
    /// line start when WX is below 7).
    pub open spec fn spec_window_trigger(&self, bus: Interconnect) -> bool {
        let lcd = bus.io.lcd;
        &&& self.fetcher.mode != FetchMode::Window
        &&& bit(lcd.lcdc, 5)
        &&& lcd.ly >= lcd.win_y
        &&& if lcd.win_x < 7 { self.screen_x == 0 } else { self.screen_x + 7 >= lcd.win_x }
    }

    fn check_window_trigger(&mut self, bus: &Interconnect)
        requires
            old(self).wf(),
            old(self).stat_mode == LCDMode::XFer,
            bus.wf(),
        ensures
            final(self).wf(),
            window_step(*old(self), *final(self), *bus),
            old(self).same_line_state(final(self)),
            final(self).screen_x == old(self).screen_x,
            final(self).current_x == old(self).current_x,
            final(self).obj_fifo == old(self).obj_fifo,
            final(self).fetched_sprites == old(self).fetched_sprites,
            final(self).fetcher.fetching_sprite == old(self).fetcher.fetching_sprite,
            old(self).spec_window_trigger(*bus) ==> {
                &&& final(self).bgw_fifo@.len() == 0
                &&& final(self).fetcher == (Fetcher { mode: FetchMode::Window, lx: 0, state: FetchState::TileID(Step::First), ..old(self).fetcher })
            },
            !old(self).spec_window_trigger(*bus) ==> {
                &&& final(self).bgw_fifo == old(self).bgw_fifo
                &&& final(self).fetcher == old(self).fetcher
            },
    {
        if self.fetcher.is_window_mode() || !lcdc_win_enable(bus) {
            return;
        }
        let ly = lcd_read_ly(bus);
        let wy = lcd_read_win_y(bus);
        let wx = lcd_read_win_x(bus);
        if ly < wy {
            return;
        }
        if wx < 7 {
            if self.screen_x == 0 {
                self.switch_to_window_mode();
            }
        } else if self.screen_x + 7 >= wx {
            self.switch_to_window_mode();
        }
    }

    fn switch_to_window_mode(&mut self)
        requires
            old(self).wf(),
        ensures
            final(self).wf(),
            old(self).same_line_state(final(self)),
            final(self).bgw_fifo@.len() == 0,
            final(self).fetcher == (Fetcher { mode: FetchMode::Window, lx: 0, state: FetchState::TileID(Step::First), ..old(self).fetcher }),
            final(self).screen_x == old(self).screen_x,
            final(self).current_x == old(self).current_x,
            final(self).obj_fifo == old(self).obj_fifo,
            final(self).fetched_sprites == old(self).fetched_sprites,
    {
        self.bgw_fifo.clear();
        self.fetcher.switch_to_window();
    }

    /// End of a line: the window line counts if the window was drawn, and the
    /// sprites of the line are forgotten.
    pub fn scanline_complete(&mut self)
        requires
            old(self).wf_core(),
        ensures
            final(self).wf_core(),
            final(self).visible_sprites@.len() == 0,
            final(self).fetcher.window_line == (if old(self).fetcher.mode == FetchMode::Window {
                super::fetcher::add8(old(self).fetcher.window_line, 1)
            } else {
                old(self).fetcher.window_line
            }),
            final(self).stat_mode == old(self).stat_mode,
            final(self).line_ticks == old(self).line_ticks,
            final(self).screen_x == old(self).screen_x,
            final(self).stat_delay == old(self).stat_delay,
            final(self).new_frame == old(self).new_frame,
            *final(self) == (PPU {
                visible_sprites: final(self).visible_sprites,
                fetcher: Fetcher { window_line: final(self).fetcher.window_line, ..old(self).fetcher },
                ..*old(self)
            }),
    {
        self.fetcher.increment_window_line();
        self.visible_sprites.clear();
    }

    /// End of a frame: the window line counter restarts, and the frame is reported.
    pub fn frame_complete(&mut self)
        requires
            old(self).wf_core(),
        ensures
            final(self).wf_core(),
            final(self).fetcher.window_line == 0,
            final(self).new_frame,
            final(self).visible_sprites == old(self).visible_sprites,
            final(self).stat_mode == old(self).stat_mode,
            final(self).line_ticks == old(self).line_ticks,
            final(self).screen_x == old(self).screen_x,
            final(self).stat_delay == old(self).stat_delay,
            *final(self) == (PPU { new_frame: true, fetcher: Fetcher { window_line: 0, ..old(self).fetcher }, ..*old(self) }),
    {
        self.fetcher.reset_window_line();
        self.new_frame = true;
    }

    /// Whether a sprite lies on the line LY: its top (Y - 16) is at or above
    /// LY and its bottom below (the sums wrap on eight bits).
    pub open spec fn spec_on_line(obj: crate::interconnect::oam::OAMEntry, ly: u8, height: u8) -> bool {
        let l16 = super::fetcher::add8(ly, 16);
        obj.x != 0 && obj.y <= l16 && super::fetcher::add8(obj.y, height) > l16
    }

    /// The line's sprites after one dot of the sprite search: at an odd dot,
    /// entry `(line_ticks - 1) / 2` is kept when it lies on the line and fewer
    /// than ten are kept.
    pub open spec fn spec_oam_fetch(&self, bus: Interconnect) -> Seq<crate::interconnect::oam::OAMEntry> {
        let idx = (self.line_ticks - 1) / 2;
        let obj = bus.oam_ram@[idx];
        let height: u8 = if bit(bus.io.lcd.lcdc, 2) { 16 } else { 8 };
        if self.visible_sprites@.len() < 10 && self.line_ticks % 2 == 1
            && PPU::spec_on_line(obj, bus.io.lcd.ly, height) {
            self.visible_sprites@.push(obj)
        } else {
            self.visible_sprites@
        }
    }

    /// One dot of the sprite search: every other dot, one entry of the sprite
    /// attribute memory is examined and kept when it lies on the line (at most ten).
    pub fn oam_fetch(&mut self, bus: &Interconnect)
        requires
            old(self).wf(),
            old(self).stat_mode == LCDMode::OAM,
            bus.wf(),
        ensures
            final(self).wf(),
            old(self).same_line_state(final(self)) || final(self).visible_sprites@.len() == old(self).visible_sprites@.len() + 1,
            final(self).stat_mode == old(self).stat_mode,
            final(self).line_ticks == old(self).line_ticks,
            final(self).screen_x == old(self).screen_x,
            final(self).stat_delay == old(self).stat_delay,
            final(self).new_frame == old(self).new_frame,
            final(self).visible_sprites@ == old(self).spec_oam_fetch(*bus),
            *final(self) == (PPU { visible_sprites: final(self).visible_sprites, ..*old(self) }),
    {
        if self.visible_sprites.len() < 10 && self.line_ticks % 2 == 1 {
            let ly = lcd_read_ly(bus);
            let sprite_height = lcdc_obj_height(bus);
            let index = ((self.line_ticks - 1) / 2) as u8;
            let obj = bus.oam_sprite(index);
            if obj.x == 0 {
                return;
            }
            let l16 = ly.wrapping_add(16);
            if obj.y <= l16 && obj.y.wrapping_add(sprite_height) > l16 {
                self.visible_sprites.push(obj);
            }
        }
    }

    /// Whether sprite `i` of the line is not fetched yet and its eight
    /// columns (from `x - 8`, saturating) cover the drawing position.
    pub open spec fn covers(&self, i: int) -> bool {
        let sx = if self.visible_sprites@[i].x >= 8 { self.visible_sprites@[i].x - 8 } else { 0 };
        &&& !self.fetched_sprites@[i]
        &&& sx <= self.screen_x < sx + 8
    }

    /// Starts the fetch of the first sprite of the line, not yet fetched,
    /// whose columns cover the drawing position (when sprites are on and no
    /// sprite is being fetched).
    fn check_sprite_displayed(&mut self, bus: &Interconnect)
        requires
            old(self).wf(),
            bus.wf(),
        ensures
            final(self).wf(),
            sprite_step(*old(self), *final(self), *bus),
            old(self).same_line_state(final(self)),
            final(self).screen_x == old(self).screen_x,
            final(self).current_x == old(self).current_x,
            final(self).bgw_fifo == old(self).bgw_fifo,
            final(self).obj_fifo == old(self).obj_fifo,
            ({
                let active = bit(bus.io.lcd.lcdc, 1) && !old(self).fetcher.fetching_sprite;
                &&& (!active || forall|i: int| 0 <= i < old(self).visible_sprites@.len() ==> !#[trigger] old(self).covers(i))
                        ==> final(self).fetcher == old(self).fetcher && final(self).fetched_sprites == old(self).fetched_sprites
                &&& forall|i: int| 0 <= i < old(self).visible_sprites@.len() && active && #[trigger] old(self).covers(i)
                        && (forall|j: int| 0 <= j < i ==> !#[trigger] old(self).covers(j))
                        ==> final(self).fetched_sprites@ == old(self).fetched_sprites@.update(i, true)
                            && final(self).fetcher == (Fetcher {
                                fetching_sprite: true,
                                current_sprite: Some(old(self).visible_sprites@[i]),
                                state: FetchState::TileRowLow(Step::First),
                                ..old(self).fetcher
                            })
            }),
    {
        if lcdc_obj_enable(bus) && !self.fetcher.is_fetching_sprite() {
            let mut index: usize = 0;
            while index < self.visible_sprites.len()
                invariant
                    self.wf(),
                    bus.wf(),
                    bit(bus.io.lcd.lcdc, 1),
                    !old(self).fetcher.fetching_sprite,
                    old(self).same_line_state(self),
                    self.screen_x == old(self).screen_x,
                    self.current_x == old(self).current_x,
                    self.bgw_fifo == old(self).bgw_fifo,
                    self.obj_fifo == old(self).obj_fifo,
                    self.fetcher == old(self).fetcher,
                    self.fetched_sprites == old(self).fetched_sprites,
                    index <= self.visible_sprites@.len(),
                    forall|j: int| 0 <= j < index ==> !#[trigger] old(self).covers(j),
                decreases self.visible_sprites@.len() - index,
            {
                let sprite = self.visible_sprites[index];
                let sprite_x = sprite.x.saturating_sub(8);
                if !self.fetched_sprites[index] && self.screen_x >= sprite_x && self.screen_x < sprite_x + 8 {
                    proof {
                        assert(old(self).covers(index as int));
                        assert forall|i: int| 0 <= i < old(self).visible_sprites@.len() && #[trigger] old(self).covers(i)
                            && (forall|j: int| 0 <= j < i ==> !#[trigger] old(self).covers(j)) implies i == index by {
                            if i > index {
                                assert(!old(self).covers(index as int));
                            }
                        }
                    }
                    self.fetcher.trigger_sprite_fetching(sprite);
                    self.fetched_sprites.set(index, true);
                    return;
                }
                index = index + 1;
            }
        }
    }
}

} // verus!
