use vstd::prelude::*;
use crate::interconnect::Interconnect;
use crate::interconnect::io::IO;
use crate::interconnect::oam::OAMEntry;
use crate::cpu::interrupts::{InterruptType, interrupt_bit};

pub mod utils;
pub mod fetcher;
pub mod pipeline;
pub mod state_machine;

use fetcher::Fetcher;
pub use utils::LCDMode;
use utils::{stat_line, status_mode_set, spec_stat_line, mode_bits, with_status};
use state_machine::mode_dot;

verus! {

/// Number of lines of a frame, the invisible ones included.
pub const LINES_PER_FRAME: u8 = 154;
/// Number of dots of a line.
pub const TICKS_PER_LINE: u32 = 456;
/// Number of dots of the sprite search at the start of a line.
pub const OAM_DURATION: u32 = 80;
/// Number of visible lines.
pub const YRES: usize = 144;
/// Number of pixels of a line.
pub const XRES: usize = 160;
/// Number of pixels of a frame.
pub const PIXELS: usize = 0x5A00;
/// Dots between a mode change and its report in STAT.
pub const STAT_DELAY: u8 = 4;

/// The pixel processing unit: walks the lines of the screen, searches the
/// sprites of each line, and draws pixels through the background and sprite FIFOs.
pub struct PPU {
    pub fetcher: Fetcher,
    pub bgw_fifo: Vec<(u32, u8)>,
    pub obj_fifo: Vec<(u32, u8, bool)>,

    pub visible_sprites: Vec<OAMEntry>,
    pub fetched_sprites: [bool; 10],

    /// The pixel position to push in the framebuffer
    pub screen_x: u8,
    /// The current position we're dealing with on the screen
    pub current_x: u8,

    pub stat_delay: u8,
    pub stat_line: bool,
    pub stat_mode: LCDMode,

    pub current_frame: u32,
    pub line_ticks: u32,
    pub new_frame: bool,
}

/// Whether sprites are in increasing order of their `x`.
pub open spec fn sorted_by_x(s: Seq<OAMEntry>) -> bool {
    forall|i: int, j: int| 0 <= i < j < s.len() ==> s[i].x <= s[j].x
}

/// The sprites at column `k`, in their order.
pub open spec fn at_column(s: Seq<OAMEntry>, k: u8) -> Seq<OAMEntry> {
    s.filter(|e: OAMEntry| e.x == k)
}

/// `slice::sort_by_key` (std) on the sprites' `x`: the contract claims that
/// the result is sorted by `x`, holds the same sprites, and keeps the order
/// of sprites with equal `x` (the sort is stable).
#[verifier::external_body]
fn sort_sprites_by_x(v: &mut Vec<OAMEntry>)
    ensures
        final(v)@.to_multiset() == old(v)@.to_multiset(),
        final(v)@.len() == old(v)@.len(),
        sorted_by_x(final(v)@),
        forall|k: u8| #[trigger] at_column(final(v)@, k) == at_column(old(v)@, k),
{
    v.sort_by_key(|e| e.x);
}

/// The bus may differ only in LY, STAT and IF.
pub open spec fn lcd_regs_only(old: Interconnect, new: Interconnect) -> bool {
    &&& old.same_io(&new)
    &&& new.io == (IO {
            lcd: crate::interconnect::io::lcd::LCD { ly: new.io.lcd.ly, status: new.io.lcd.status, ..old.io.lcd },
            if_register: new.io.if_register,
            ..old.io
        })
}

/// STAT once the unit's mode is reported in its two low bits.
pub open spec fn reported_status(p: PPU, b: Interconnect) -> u8 {
    ((b.io.lcd.status / 4) * 4 + mode_bits(p.stat_mode)) as u8
}

/// The mode as STAT reports it, and the STAT interrupt sources: bits 1-0
/// read 0 in horizontal blank, 1 in vertical blank, 2 in the sprite search
/// and 3 while drawing, the other bits are kept; the STAT line is high when
/// the LY=LYC flag (bit 2) is set and selected (bit 6), or when the mode is
/// selected: horizontal blank by bit 3, vertical blank by bit 4, sprite
/// search by bit 5 (drawing has no source).
pub proof fn lemma_stat_sources(p: PPU, b: Interconnect)
    ensures
        ({
            let s = reported_status(p, b);
            let lyc = utils::bit(s, 6) && utils::bit(s, 2);
            &&& s % 4 == (match p.stat_mode {
                    LCDMode::HBlank => 0int,
                    LCDMode::VBlank => 1,
                    LCDMode::OAM => 2,
                    LCDMode::XFer => 3,
                })
            &&& s / 4 == b.io.lcd.status / 4
            &&& p.stat_mode == LCDMode::HBlank ==> (spec_stat_line(s) <==> utils::bit(s, 3) || lyc)
            &&& p.stat_mode == LCDMode::VBlank ==> (spec_stat_line(s) <==> utils::bit(s, 4) || lyc)
            &&& p.stat_mode == LCDMode::OAM ==> (spec_stat_line(s) <==> utils::bit(s, 5) || lyc)
            &&& p.stat_mode == LCDMode::XFer ==> (spec_stat_line(s) <==> lyc)
        }),
{
}

/// The unit after the STAT step of a dot: the delay counts down, and when it
/// runs out the STAT line follows the reported status.
pub open spec fn stat_tick_ppu(p: PPU, b: Interconnect) -> PPU {
    PPU {
        stat_delay: if p.stat_delay > 0 { (p.stat_delay - 1) as u8 } else { 0 },
        stat_line: if p.stat_delay == 1 { spec_stat_line(reported_status(p, b)) } else { p.stat_line },
        ..p
    }
}

/// The bus after the STAT step of a dot: when the delay runs out, STAT reports
/// the mode, and a rising edge of the STAT line requests the STAT interrupt.
pub open spec fn stat_tick_bus(p: PPU, b: Interconnect) -> Interconnect {
    if p.stat_delay == 1 {
        let status = reported_status(p, b);
        let c = with_status(b, status);
        if spec_stat_line(status) && !p.stat_line {
            Interconnect { io: IO { if_register: b.io.if_register | interrupt_bit(InterruptType::LcdStat), ..c.io }, ..c }
        } else {
            c
        }
    } else {
        b
    }
}

/// LY after one dot: at the last dot of a line in horizontal or vertical
/// blank it advances (wrapping), or returns to 0 after the last line of the
/// frame; at any other dot it stays.
pub open spec fn spec_tick_ly(p: PPU, ly: u8) -> u8 {
    if p.line_ticks == TICKS_PER_LINE - 1 && (p.stat_mode == LCDMode::HBlank || p.stat_mode == LCDMode::VBlank) {
        if p.stat_mode == LCDMode::VBlank && ly == LINES_PER_FRAME - 1 {
            0
        } else {
            vstd::wrapping::u8_specs::wrapping_add(ly, 1)
        }
    } else {
        ly
    }
}

/// Whether the unit is in vertical blank after one dot: it enters it at the
/// last dot of a horizontal blank that takes LY to the first invisible line,
/// and leaves it at the last dot of the frame.
pub open spec fn spec_tick_vblank(p: PPU, ly: u8) -> bool {
    if p.line_ticks == TICKS_PER_LINE - 1 && p.stat_mode == LCDMode::HBlank {
        vstd::wrapping::u8_specs::wrapping_add(ly, 1) == YRES as u8
    } else if p.line_ticks == TICKS_PER_LINE - 1 && p.stat_mode == LCDMode::VBlank {
        ly != LINES_PER_FRAME - 1
    } else {
        p.stat_mode == LCDMode::VBlank
    }
}

/// What one call of `PPU::tick` does to the dot counter of the line and to
/// LY (`ly` before, `ly2` after), whether it leaves the unit in vertical
/// blank, and when it reports a completed frame (`r`): at the last dot of the
/// last line, in vertical blank.
pub open spec fn tick_counters(p: PPU, ly: u8, q: PPU, ly2: u8, r: bool) -> bool {
    &&& q.line_ticks == (p.line_ticks + 1) % (TICKS_PER_LINE as int)
    &&& ly2 == spec_tick_ly(p, ly)
    &&& (q.stat_mode == LCDMode::VBlank) == spec_tick_vblank(p, ly)
    &&& r == (p.stat_mode == LCDMode::VBlank && p.line_ticks == TICKS_PER_LINE - 1 && ly == LINES_PER_FRAME - 1)
}

/// Calls of `PPU::tick` in a row: call `k` starts from unit `ps[k]` with LY
/// `lys[k]`, leaves `ps[k + 1]` and `lys[k + 1]`, and returns `rs[k]`.
pub open spec fn tick_run(ps: Seq<PPU>, lys: Seq<u8>, rs: Seq<bool>) -> bool {
    &&& ps.len() == rs.len() + 1
    &&& lys.len() == rs.len() + 1
    &&& forall|k: int| 0 <= k < rs.len() ==> #[trigger] tick_counters(ps[k], lys[k], ps[k + 1], lys[k + 1], rs[k])
}

/// After a call that completes a frame, and as long as no other call does,
/// the dot counter counts the calls modulo the line length, and LY is at
/// most the number of whole lines since.
proof fn lemma_frame_progress(ps: Seq<PPU>, lys: Seq<u8>, rs: Seq<bool>, i: int, k: int)
    requires
        tick_run(ps, lys, rs),
        0 <= i < k <= rs.len(),
        rs[i],
        forall|m: int| i < m < k ==> !#[trigger] rs[m],
    ensures
        ps[k].line_ticks == (k - i - 1) % (TICKS_PER_LINE as int),
        lys[k] as int <= (k - i - 1) / (TICKS_PER_LINE as int),
    decreases k - i,
{
    if k == i + 1 {
        assert(tick_counters(ps[i], lys[i], ps[i + 1], lys[i + 1], rs[i]));
    } else {
        lemma_frame_progress(ps, lys, rs, i, k - 1);
        let k1 = k - 1;
        assert(tick_counters(ps[k1], lys[k1], ps[k1 + 1], lys[k1 + 1], rs[k1]));
        assert(!rs[k - 1]);
        let d = k - i - 2;
        let n = TICKS_PER_LINE as int;
        vstd::arithmetic::div_mod::lemma_fundamental_div_mod(d, n);
        let q = d / n;
        let r = d % n;
        if r < n - 1 {
            vstd::arithmetic::div_mod::lemma_fundamental_div_mod_converse(d + 1, n, q, r + 1);
            vstd::arithmetic::div_mod::lemma_small_mod((r + 1) as nat, n as nat);
        } else {
            vstd::arithmetic::div_mod::lemma_fundamental_div_mod_converse(d + 1, n, q + 1, 0);
            assert((r + 1) % n == 0);
        }
    }
}

/// Completed frames are a frame apart: in calls of `PPU::tick` in a row,
/// each starting from the unit and the LY that the call before left, two
/// calls that report a completed frame are at least 70224 calls (154 lines of
/// 456 dots) apart.
pub proof fn lemma_frames_spaced(ps: Seq<PPU>, lys: Seq<u8>, rs: Seq<bool>, i: int, j: int)
    requires
        tick_run(ps, lys, rs),
        0 <= i < j < rs.len(),
        rs[i],
        rs[j],
    ensures
        j - i >= 70224,
    decreases j - i,
{
    if exists|m: int| i < m < j && #[trigger] rs[m] {
        let m = choose|m: int| i < m < j && #[trigger] rs[m];
        lemma_frames_spaced(ps, lys, rs, m, j);
    } else {
        lemma_frame_progress(ps, lys, rs, i, j);
        assert(tick_counters(ps[j], lys[j], ps[j + 1], lys[j + 1], rs[j]));
        let d = j - i - 1;
        let n = TICKS_PER_LINE as int;
        vstd::arithmetic::div_mod::lemma_fundamental_div_mod(d, n);
        let q = d / n;
        assert(q >= 153);
        assert(d == n * q + 455);
        assert(d >= 153 * 456 + 455) by (nonlinear_arith)
            requires d == 456 * q + 455, q >= 153;
    }
}

/// While every line's drawing ends within its line, a frame after one that
/// completed, the dot counter counts the calls modulo the line length, LY
/// counts the whole lines, the unit is in vertical blank exactly on the
/// invisible lines, and no call reports a frame.
proof fn lemma_frame_regular_progress(ps: Seq<PPU>, lys: Seq<u8>, rs: Seq<bool>, i: int, k: int)
    requires
        tick_run(ps, lys, rs),
        0 <= i < k <= i + (LINES_PER_FRAME as int) * (TICKS_PER_LINE as int),
        k <= rs.len(),
        rs[i],
        forall|m: int| i < m < k && #[trigger] ps[m].line_ticks == TICKS_PER_LINE - 1
            ==> ps[m].stat_mode == LCDMode::HBlank || ps[m].stat_mode == LCDMode::VBlank,
    ensures
        ps[k].line_ticks == (k - i - 1) % (TICKS_PER_LINE as int),
        lys[k] as int == (k - i - 1) / (TICKS_PER_LINE as int),
        (ps[k].stat_mode == LCDMode::VBlank) == (lys[k] >= YRES as u8),
        forall|m: int| i < m < k ==> !#[trigger] rs[m],
    decreases k - i,
{
    let n = TICKS_PER_LINE as int;
    if k == i + 1 {
        assert(tick_counters(ps[i], lys[i], ps[i + 1], lys[i + 1], rs[i]));
    } else {
        lemma_frame_regular_progress(ps, lys, rs, i, k - 1);
        let k1 = k - 1;
        assert(tick_counters(ps[k1], lys[k1], ps[k1 + 1], lys[k1 + 1], rs[k1]));
        let d = k - i - 2;
        vstd::arithmetic::div_mod::lemma_fundamental_div_mod(d, n);
        let q = d / n;
        let r = d % n;
        assert(q <= 153) by {
            if q > 153 {
                assert(n * q >= n * 154) by (nonlinear_arith)
                    requires q > 153, n == 456;
            }
        }
        if r < n - 1 {
            vstd::arithmetic::div_mod::lemma_fundamental_div_mod_converse(d + 1, n, q, r + 1);
            vstd::arithmetic::div_mod::lemma_small_mod((r + 1) as nat, n as nat);
        } else {
            vstd::arithmetic::div_mod::lemma_fundamental_div_mod_converse(d + 1, n, q + 1, 0);
            assert(ps[k1].line_ticks == TICKS_PER_LINE - 1);
            assert(q < 153) by {
                if q == 153 {
                    assert(d == 153 * 456 + 455);
                }
            }
        }
        assert forall|m: int| i < m < k implies !#[trigger] rs[m] by {
            if m == k1 {
                assert(!rs[k1]);
            }
        }
    }
}

/// A frame every 70224 dots: in calls of `PPU::tick` in a row, each starting
/// from the unit and the LY that the call before left, after a call that
/// completes a frame, and as long as the drawing of each line ends within the
/// line (the unit is in horizontal or vertical blank at each line's last
/// dot), the next call that reports a completed frame is exactly 70224 calls
/// (154 lines of 456 dots) later.
pub proof fn lemma_frames_regular(ps: Seq<PPU>, lys: Seq<u8>, rs: Seq<bool>, i: int)
    requires
        tick_run(ps, lys, rs),
        0 <= i,
        i + (LINES_PER_FRAME as int) * (TICKS_PER_LINE as int) < rs.len(),
        rs[i],
        forall|m: int| i < m <= i + (LINES_PER_FRAME as int) * (TICKS_PER_LINE as int)
            && #[trigger] ps[m].line_ticks == TICKS_PER_LINE - 1
            ==> ps[m].stat_mode == LCDMode::HBlank || ps[m].stat_mode == LCDMode::VBlank,
    ensures
        rs[i + 70224],
        forall|m: int| i < m < i + 70224 ==> !#[trigger] rs[m],
        forall|m: int| i < m <= i + 70224 ==> {
            &&& #[trigger] lys[m] as int == (m - i - 1) / 456
            &&& ps[m].line_ticks == (m - i - 1) % 456
            &&& (ps[m].stat_mode == LCDMode::VBlank <==> lys[m] >= 144)
        },
{
    let j = i + 154 * 456;
    assert forall|m: int| i < m <= i + 70224 implies {
        &&& #[trigger] lys[m] as int == (m - i - 1) / 456
        &&& ps[m].line_ticks == (m - i - 1) % 456
        &&& (ps[m].stat_mode == LCDMode::VBlank <==> lys[m] >= 144)
    } by {
        lemma_frame_regular_progress(ps, lys, rs, i, m);
    }
    lemma_frame_regular_progress(ps, lys, rs, i, j);
    vstd::arithmetic::div_mod::lemma_fundamental_div_mod_converse(j - i - 1, 456, 153, 455);
    assert(tick_counters(ps[j], lys[j], ps[j + 1], lys[j + 1], rs[j]));
}

impl PPU {
    /// The part of the invariant that holds at every step.
    pub open spec fn wf_core(&self) -> bool {
        &&& self.fetcher.wf()
        &&& self.bgw_fifo@.len() <= 16
        &&& self.obj_fifo@.len() <= 16
        &&& self.visible_sprites@.len() <= 10
        &&& self.fetched_sprites@.len() == 10
        &&& self.current_x < 8
        &&& self.screen_x <= 160
        &&& self.line_ticks < TICKS_PER_LINE
        &&& self.stat_delay <= STAT_DELAY
    }

    /// The invariant of the unit between two dots: while drawing, the line
    /// is not complete; the sprite search takes the first 80 dots of a line.
    pub open spec fn wf(&self) -> bool {
        &&& self.wf_core()
        &&& self.stat_mode == LCDMode::XFer ==> self.screen_x < 160
        &&& self.stat_mode == LCDMode::OAM ==> self.line_ticks < OAM_DURATION
    }

    /// The invariant within a dot, after the mode's work: a sprite search
    /// may have been entered at the last dot of a line.
    pub open spec fn wf_after_mode(&self) -> bool {
        &&& self.wf_core()
        &&& self.stat_mode == LCDMode::XFer ==> self.screen_x < 160
        &&& self.stat_mode == LCDMode::OAM ==> (self.line_ticks < OAM_DURATION - 1 || self.line_ticks == TICKS_PER_LINE - 1)
    }

    pub fn new() -> (r: PPU)
        ensures
            r.wf(),
            r.stat_mode == LCDMode::HBlank,
            r.line_ticks == 0,
            r.stat_delay == 0,
            !r.stat_line,
            !r.new_frame,
            r.screen_x == 0,
            r.bgw_fifo@.len() == 0,
            r.obj_fifo@.len() == 0,
            r.visible_sprites@.len() == 0,
    {
        PPU {
            fetcher: Fetcher::new(),
            bgw_fifo: Vec::new(),
            obj_fifo: Vec::new(),
            visible_sprites: Vec::with_capacity(10),
            fetched_sprites: [false; 10],
            screen_x: 0,
            current_x: 0,
            stat_delay: 0,
            stat_line: false,
            stat_mode: LCDMode::HBlank,
            current_frame: 0,
            line_ticks: 0,
            new_frame: false,
        }
    }

    /// Reports the mode in STAT when its delay runs out, raising the STAT
    /// interrupt on a rising edge of the STAT line.
    fn stat_tick(&mut self, bus: &mut Interconnect)
        requires
            old(self).wf(),
            old(bus).wf(),
        ensures
            final(self).wf(),
            final(bus).wf(),
            lcd_regs_only(*old(bus), *final(bus)),
            final(bus).io.lcd.ly == old(bus).io.lcd.ly,
            *final(self) == stat_tick_ppu(*old(self), *old(bus)),
            *final(bus) == stat_tick_bus(*old(self), *old(bus)),
    {
        if self.stat_delay > 0 {
            self.stat_delay = self.stat_delay - 1;
            if self.stat_delay == 0 {
                status_mode_set(bus, self.stat_mode);
                let new_line = stat_line(bus);
                if new_line && !self.stat_line {
                    bus.request_interrupt(InterruptType::LcdStat);
                }
                self.stat_line = new_line;
            }
        }
    }

    /// One dot: the mode's work, then the next dot of the line. Returns true
    /// when a frame was completed. When `render`, pixels are drawn into
    /// `framebuffer` (160 per line).
    pub fn tick(&mut self, bus: &mut Interconnect, framebuffer: &mut Vec<u32>, render: bool) -> (r: bool)
        requires
            old(self).wf(),
            !old(self).new_frame,
            old(bus).wf(),
        ensures
            final(self).wf(),
            final(bus).wf(),
            lcd_regs_only(*old(bus), *final(bus)),
            final(framebuffer)@.len() == old(framebuffer)@.len(),
            !render ==> final(framebuffer)@ == old(framebuffer)@,
            tick_counters(*old(self), old(bus).io.lcd.ly, *final(self), final(bus).io.lcd.ly, r),
            !final(self).new_frame,
            exists|m: PPU| {
                &&& #[trigger] mode_dot(stat_tick_ppu(*old(self), *old(bus)), stat_tick_bus(*old(self), *old(bus)), m,
                        *final(bus), old(framebuffer)@, final(framebuffer)@, render)
                &&& *final(self) == (PPU {
                        line_ticks: ((old(self).line_ticks + 1) % (TICKS_PER_LINE as int)) as u32,
                        new_frame: false,
                        ..m
                    })
            },
    {
        self.stat_tick(bus);
        let ghost s = *self;
        let ghost sb = *bus;
        let ghost fa = framebuffer@;
        match self.stat_mode {
            LCDMode::HBlank => self.hblank(bus),
            LCDMode::VBlank => self.vblank(bus),
            LCDMode::OAM => self.oam(bus),
            LCDMode::XFer => self.xfer(bus, framebuffer, render),
        };
        let ghost m = *self;
        proof {
            if s.stat_mode != LCDMode::XFer {
                assert(framebuffer@ =~= fa);
            }
            assert(mode_dot(s, sb, m, *bus, fa, framebuffer@, render));
        }
        self.line_ticks = (self.line_ticks + 1) % TICKS_PER_LINE;
        if self.new_frame {
            self.new_frame = false;
            true
        } else {
            false
        }
    }
}

} // verus!
