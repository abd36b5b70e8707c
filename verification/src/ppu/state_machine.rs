use vstd::prelude::*;
use crate::interconnect::Interconnect;
use crate::cpu::interrupts::{InterruptType, interrupt_bit};
use super::{PPU, LCDMode, LINES_PER_FRAME, TICKS_PER_LINE, OAM_DURATION, XRES, YRES, STAT_DELAY, lcd_regs_only, sort_sprites_by_x, sorted_by_x, at_column};
use super::fetcher::{Fetcher, FetchState, FetchMode, Step, add8};
use super::utils::{lcd_read_ly, lcd_write_ly, stat_line, status_lyc_set, spec_stat_line, lyc_status, lemma_lyc_status_twice};
use super::pipeline::pipeline_dot;

verus! {

/// One dot of horizontal blank, from the unit `p` and bus `b` to `q` and `c`:
/// at the last dot of the line, LY advances with the LY=LYC flag, the line's
/// sprites are dropped, and after the last visible line the unit enters
/// vertical blank with the VBlank interrupt requested, otherwise the sprite
/// search of the next line. At any other dot nothing changes.
pub open spec fn hblank_dot(p: PPU, b: Interconnect, q: PPU, c: Interconnect) -> bool {
    if p.line_ticks != TICKS_PER_LINE - 1 {
        q == p && c == b
    } else {
        let ly = vstd::wrapping::u8_specs::wrapping_add(b.io.lcd.ly, 1);
        &&& lcd_regs_only(b, c)
        &&& q.line_ticks == p.line_ticks
        &&& q.new_frame == p.new_frame
        &&& c.io.lcd.ly == ly
        &&& c.io.lcd.status == lyc_status(b.io.lcd.status, ly == b.io.lcd.ly_compare)
        &&& q.stat_line == spec_stat_line(c.io.lcd.status)
        &&& q.stat_delay == STAT_DELAY
        &&& q.visible_sprites@.len() == 0
        &&& q.stat_mode == (if ly == YRES as u8 { LCDMode::VBlank } else { LCDMode::OAM })
        &&& q.fetcher.window_line == (if p.fetcher.mode == FetchMode::Window {
                add8(p.fetcher.window_line, 1)
            } else {
                p.fetcher.window_line
            })
        &&& q == (PPU {
                stat_line: q.stat_line,
                stat_mode: q.stat_mode,
                stat_delay: q.stat_delay,
                visible_sprites: q.visible_sprites,
                fetcher: Fetcher { window_line: q.fetcher.window_line, ..p.fetcher },
                ..p
            })
        &&& c.io.if_register == (if ly == YRES as u8 {
                b.io.if_register | interrupt_bit(InterruptType::VBlank)
            } else {
                b.io.if_register
            })
    }
}

/// One dot of vertical blank (see `hblank_dot` for the names): at the last
/// dot of a line LY advances with the LY=LYC flag; after the last line of the
/// frame the frame is complete, LY returns to 0 (the flag then tells whether
/// LYC is 0), the window line counter restarts, and the sprite search of the
/// first line starts. At any other dot nothing changes.
pub open spec fn vblank_dot(p: PPU, b: Interconnect, q: PPU, c: Interconnect) -> bool {
    if p.line_ticks != TICKS_PER_LINE - 1 {
        q == p && c == b
    } else {
        let ly = vstd::wrapping::u8_specs::wrapping_add(b.io.lcd.ly, 1);
        &&& lcd_regs_only(b, c)
        &&& c.io.if_register == b.io.if_register
        &&& q.line_ticks == p.line_ticks
        &&& q.stat_delay == STAT_DELAY
        &&& q == (PPU {
                stat_line: q.stat_line,
                stat_mode: q.stat_mode,
                stat_delay: q.stat_delay,
                new_frame: q.new_frame,
                fetcher: Fetcher { window_line: q.fetcher.window_line, ..p.fetcher },
                ..p
            })
        &&& if ly == LINES_PER_FRAME {
                &&& c.io.lcd.ly == 0
                &&& c.io.lcd.status == lyc_status(b.io.lcd.status, b.io.lcd.ly_compare == 0)
                &&& q.stat_line == spec_stat_line(lyc_status(b.io.lcd.status, ly == b.io.lcd.ly_compare))
                &&& q.stat_mode == LCDMode::OAM
                &&& q.new_frame
                &&& q.fetcher.window_line == 0
            } else {
                &&& c.io.lcd.ly == ly
                &&& c.io.lcd.status == lyc_status(b.io.lcd.status, ly == b.io.lcd.ly_compare)
                &&& q.stat_line == spec_stat_line(b.io.lcd.status)
                &&& q.stat_mode == LCDMode::VBlank
                &&& q.new_frame == p.new_frame
                &&& q.fetcher.window_line == p.fetcher.window_line
            }
    }
}

/// One dot of the sprite search (see `hblank_dot` for the names): the dot's
/// entry is examined; at the last dot of the search the unit starts drawing,
/// with the pipeline reset and the line's sprites stably sorted by X.
pub open spec fn oam_dot(p: PPU, b: Interconnect, q: PPU, c: Interconnect) -> bool {
    let found = p.spec_oam_fetch(b);
    &&& c == b
    &&& if p.line_ticks != OAM_DURATION - 1 {
            &&& q.visible_sprites@ == found
            &&& q == (PPU { visible_sprites: q.visible_sprites, ..p })
        } else {
            &&& q.line_ticks == p.line_ticks
            &&& q.new_frame == p.new_frame
            &&& q.current_frame == p.current_frame
            &&& q.stat_mode == LCDMode::XFer
            &&& q.stat_delay == STAT_DELAY
            &&& q.stat_line == spec_stat_line(b.io.lcd.status)
            &&& q.screen_x == 0
            &&& q.current_x == 0
            &&& q.bgw_fifo@.len() == 0
            &&& q.obj_fifo@.len() == 0
            &&& forall|i: int| 0 <= i < 10 ==> !#[trigger] q.fetched_sprites@[i]
            &&& q.fetcher == (Fetcher {
                    state: FetchState::TileID(Step::First),
                    mode: FetchMode::Background,
                    fetching_sprite: false,
                    lx: 0,
                    pushed_x: 0,
                    ..p.fetcher
                })
            &&& q.visible_sprites@.to_multiset() == found.to_multiset()
            &&& sorted_by_x(q.visible_sprites@)
            &&& forall|k: u8| #[trigger] at_column(q.visible_sprites@, k) == at_column(found, k)
        }
}

/// One dot of drawing (see `hblank_dot` for the names; `fa` and `fb` are the
/// frame buffer before and after): one dot of the pipeline, drawn when
/// `render`; when the line's 160 pixels are out, the unit enters horizontal blank.
pub open spec fn xfer_dot(p: PPU, b: Interconnect, q: PPU, c: Interconnect, fa: Seq<u32>, fb: Seq<u32>, render: bool) -> bool {
    &&& c == b
    &&& q.line_ticks == p.line_ticks
    &&& q.new_frame == p.new_frame
    &&& fb.len() == fa.len()
    &&& !render ==> fb == fa
    &&& q.stat_mode == (if q.screen_x == XRES as u8 { LCDMode::HBlank } else { LCDMode::XFer })
    &&& exists|mid: PPU| {
            &&& #[trigger] pipeline_dot(p, mid, fa, fb, b, render)
            &&& if mid.screen_x == XRES as u8 {
                    q == (PPU {
                        stat_line: spec_stat_line(b.io.lcd.status),
                        stat_mode: LCDMode::HBlank,
                        stat_delay: STAT_DELAY,
                        ..mid
                    })
                } else {
                    q == mid
                }
        }
}

/// One dot of the unit's current mode (see `xfer_dot` for the names); only
/// drawing touches the frame buffer.
pub open spec fn mode_dot(p: PPU, b: Interconnect, q: PPU, c: Interconnect, fa: Seq<u32>, fb: Seq<u32>, render: bool) -> bool {
    match p.stat_mode {
        LCDMode::HBlank => hblank_dot(p, b, q, c) && fb == fa,
        LCDMode::VBlank => vblank_dot(p, b, q, c) && fb == fa,
        LCDMode::OAM => oam_dot(p, b, q, c) && fb == fa,
        LCDMode::XFer => xfer_dot(p, b, q, c, fa, fb, render),
    }
}

impl PPU {
    /// Horizontal blank: at the last dot of the line, LY advances; after the
    /// last visible line the unit enters vertical blank and requests the
    /// VBlank interrupt, otherwise it starts the sprite search of the next line.
    pub fn hblank(&mut self, bus: &mut Interconnect)
        requires
            old(self).wf(),
            old(self).stat_mode == LCDMode::HBlank,
            old(bus).wf(),
        ensures
            final(self).wf_after_mode(),
            final(bus).wf(),
            hblank_dot(*old(self), *old(bus), *final(self), *final(bus)),
    {
        if self.line_ticks == TICKS_PER_LINE - 1 {
            let ly = self.increment_ly(bus);
            self.scanline_complete();
            if ly == YRES as u8 {
                self.stat_line = stat_line(bus);
                self.stat_mode = LCDMode::VBlank;
                bus.request_interrupt(InterruptType::VBlank);
                self.stat_delay = STAT_DELAY;
            } else {
                self.stat_line = stat_line(bus);
                self.stat_mode = LCDMode::OAM;
                self.stat_delay = STAT_DELAY;
            }
        }
    }

    /// Vertical blank: at the last dot of each line LY advances; after the
    /// last line of the frame, the frame is complete, LY returns to 0 and the
    /// sprite search of the first line starts.
    pub fn vblank(&mut self, bus: &mut Interconnect)
        requires
            old(self).wf(),
            old(self).stat_mode == LCDMode::VBlank,
            old(bus).wf(),
        ensures
            final(self).wf_after_mode(),
            final(bus).wf(),
            vblank_dot(*old(self), *old(bus), *final(self), *final(bus)),
    {
        if self.line_ticks == TICKS_PER_LINE - 1 {
            let ly = self.increment_ly(bus);
            if ly == LINES_PER_FRAME {
                self.frame_complete();
                self.stat_line = stat_line(bus);
                self.stat_mode = LCDMode::OAM;
                lcd_write_ly(bus, 0);
                let ly_lyc_match = 0 == bus.ppu_read(0xFF45);
                status_lyc_set(bus, ly_lyc_match);
                proof { lemma_lyc_status_twice(old(bus).io.lcd.status, ly == old(bus).io.lcd.ly_compare, ly_lyc_match); }
                self.stat_delay = STAT_DELAY;
            }
        }
    }

    /// Sprite search: one entry every other dot; at the last dot the unit
    /// starts drawing, with the pipeline reset and the line's sprites sorted by X.
    pub fn oam(&mut self, bus: &mut Interconnect)
        requires
            old(self).wf(),
            old(self).stat_mode == LCDMode::OAM,
            old(bus).wf(),
        ensures
            final(self).wf_after_mode(),
            oam_dot(*old(self), *old(bus), *final(self), *final(bus)),
    {
        self.oam_fetch(bus);
        if self.line_ticks == OAM_DURATION - 1 {
            self.stat_line = stat_line(bus);
            self.stat_mode = LCDMode::XFer;
            self.stat_delay = STAT_DELAY;
            self.pipeline_reset();
            sort_sprites_by_x(&mut self.visible_sprites);
        }
    }

    /// Drawing: one dot of the pipeline; when the line's 160 pixels are out,
    /// the unit enters horizontal blank.
    pub fn xfer(&mut self, bus: &mut Interconnect, framebuffer: &mut Vec<u32>, render: bool)
        requires
            old(self).wf(),
            old(self).stat_mode == LCDMode::XFer,
            old(bus).wf(),
        ensures
            final(self).wf_after_mode(),
            xfer_dot(*old(self), *old(bus), *final(self), *final(bus), old(framebuffer)@, final(framebuffer)@, render),
    {
        self.process_fifo(bus, framebuffer, render);
        let ghost mid = *self;
        proof {
            if !render {
                assert(framebuffer@ =~= old(framebuffer)@);
            }
        }
        if self.screen_x == XRES as u8 {
            self.stat_line = stat_line(bus);
            self.stat_mode = LCDMode::HBlank;
            self.stat_delay = STAT_DELAY;
        }
    }

    /// Advances LY (wrapping), updates the LY=LYC flag, and returns the new LY.
    fn increment_ly(&mut self, bus: &mut Interconnect) -> (r: u8)
        requires
            old(self).wf_core(),
            old(bus).wf(),
        ensures
            final(self).wf_core(),
            final(bus).wf(),
            lcd_regs_only(*old(bus), *final(bus)),
            final(bus).io.if_register == old(bus).io.if_register,
            r == vstd::wrapping::u8_specs::wrapping_add(old(bus).io.lcd.ly, 1),
            final(bus).io.lcd.ly == r,
            final(bus).io.lcd.status == lyc_status(old(bus).io.lcd.status, r == old(bus).io.lcd.ly_compare),
            final(self).stat_line == spec_stat_line(old(bus).io.lcd.status),
            *final(self) == (PPU { stat_line: final(self).stat_line, stat_delay: STAT_DELAY, ..*old(self) }),
            final(self).stat_delay == STAT_DELAY,
            final(self).stat_mode == old(self).stat_mode,
            final(self).line_ticks == old(self).line_ticks,
            final(self).new_frame == old(self).new_frame,
            final(self).visible_sprites == old(self).visible_sprites,
            final(self).fetcher == old(self).fetcher,
            final(self).screen_x == old(self).screen_x,
    {
        let mut ly = lcd_read_ly(bus);
        ly = ly.wrapping_add(1);
        lcd_write_ly(bus, ly);
        self.stat_line = stat_line(bus);
        let ly_lyc_match = ly == bus.ppu_read(0xFF45);
        status_lyc_set(bus, ly_lyc_match);
        self.stat_delay = STAT_DELAY;
        ly
    }
}

} // verus!
