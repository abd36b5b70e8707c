use vstd::prelude::*;
use crate::interconnect::{BusFault, Interconnect, cart_address};
use crate::interconnect::io::apu::MixInput;
use crate::interconnect::io::dma::spec_dma_tick;
use crate::ppu::{PPU, PIXELS, LCDMode, TICKS_PER_LINE, LINES_PER_FRAME, tick_counters, stat_tick_ppu, stat_tick_bus};
use crate::ppu::state_machine::mode_dot;
use crate::interconnect::spec_tick_m;
use crate::utils::{AUDIO_FREQUENCY, CPU_FREQUENCY, ColorMode};

verus! {

/// The devices that the CPU drives: the bus, the pixel unit and its frame
/// buffer, the frame counter and the audio sample clock.
pub struct Devices {
    pub bus: Interconnect,
    pub ppu: PPU,
    pub framebuffer: Vec<u32>,

    /// Frames run per displayed frame (1 to 4).
    pub speed: u8,
    /// Frames completed since the last displayed frame.
    pub frames: u8,

    pub ticks: u64,
    pub audio_accumulator: u32,
    /// The mixer inputs of the audio sample points reached, oldest first.
    pub samples: Vec<MixInput>,
}

/// Dots per audio sample point, in units of `1 / AUDIO_FREQUENCY`: the
/// clock runs `speed` frames per displayed frame.
pub open spec fn sample_period(speed: u8) -> int {
    CPU_FREQUENCY * speed
}

/// Adding `a` to an accumulator kept modulo `p` counts the wraps.
proof fn lemma_accumulate(x: int, a: int, p: int)
    requires
        0 <= x,
        0 <= a,
        0 < p,
    ensures
        ((x % p) + a) % p == (x + a) % p,
        x / p + ((x % p) + a) / p == (x + a) / p,
{
    let q = x / p;
    let r = x % p;
    vstd::arithmetic::div_mod::lemma_fundamental_div_mod(x, p);
    vstd::arithmetic::div_mod::lemma_fundamental_div_mod(r + a, p);
    let q2 = (r + a) / p;
    let r2 = (r + a) % p;
    vstd::arithmetic::mul::lemma_mul_is_distributive_add(p, q, q2);
    vstd::arithmetic::mul::lemma_mul_is_commutative(p, q + q2);
    vstd::arithmetic::div_mod::lemma_fundamental_div_mod_converse(x + a, p, q + q2, r2);
}

/// The bus after the clock-cycle devices' tick: the timer, then the audio unit.
pub open spec fn spec_tick_t(bus: Interconnect) -> Interconnect {
    Interconnect { io: bus.io.spec_tick_timer().spec_tick_apu(), ..bus }
}

/// Whether the pixel unit draws: in the last frame before display.
pub open spec fn renders(a: Devices) -> bool {
    a.frames == a.speed - 1
}

/// Whether the dot that starts from `a` completes a frame: the pixel unit is
/// at the last dot of the last line, in vertical blank.
pub open spec fn dot_completes_frame(a: Devices) -> bool {
    &&& a.ppu.stat_mode == LCDMode::VBlank
    &&& a.ppu.line_ticks == TICKS_PER_LINE - 1
    &&& spec_tick_t(a.bus).io.lcd.ly == LINES_PER_FRAME - 1
}

/// One dot, from `a` to `b`: the timer and the audio unit tick; the pixel
/// unit ticks as `PPU::tick` states, drawing when this is the last frame
/// before display; a completed frame is counted (the count saturates); the
/// audio sample clock advances, and when it wraps the mixer input of that
/// point is added to the samples.
pub open spec fn dot_step(a: Devices, b: Devices) -> bool {
    let bus = spec_tick_t(a.bus);
    let render = renders(a);
    let done = dot_completes_frame(a);
    let acc = a.audio_accumulator + AUDIO_FREQUENCY;
    let wraps = acc >= sample_period(a.speed);
    &&& b.ticks == vstd::wrapping::u64_specs::wrapping_add(a.ticks, 1)
    &&& b.speed == a.speed
    &&& tick_counters(a.ppu, bus.io.lcd.ly, b.ppu, b.bus.io.lcd.ly, done)
    &&& exists|m: PPU| {
            &&& #[trigger] mode_dot(stat_tick_ppu(a.ppu, bus), stat_tick_bus(a.ppu, bus), m,
                    b.bus, a.framebuffer@, b.framebuffer@, render)
            &&& b.ppu == (PPU {
                    line_ticks: ((a.ppu.line_ticks + 1) % (TICKS_PER_LINE as int)) as u32,
                    new_frame: false,
                    ..m
                })
        }
    &&& b.frames == (if done && a.frames < 255 { (a.frames + 1) as u8 } else { a.frames })
    &&& b.audio_accumulator == (if wraps { acc - sample_period(a.speed) } else { acc })
    &&& b.samples@ == (if wraps { a.samples@.push(b.bus.io.apu.spec_mix_input()) } else { a.samples@ })
}

/// Whether `ds` is a run of dots: each state follows the one before by one dot.
pub open spec fn dot_run(ds: Seq<Devices>) -> bool {
    forall|k: int| 0 <= k < ds.len() - 1 ==> #[trigger] dot_step(ds[k], ds[k + 1])
}

/// One machine cycle, from `a` to `b`: four dots, then, when the DMA unit can
/// read its byte (`ok`), one step of the machine-cycle devices (DMA).
pub open spec fn cycle_step(a: Devices, b: Devices, ok: bool) -> bool {
    exists|ds: Seq<Devices>| {
        &&& #[trigger] dot_run(ds)
        &&& ds.len() == 5
        &&& ds[0] == a
        &&& ok ==> spec_tick_m(ds[4].bus, b.bus) && b == (Devices { bus: b.bus, ..ds[4] })
        &&& !ok ==> b == ds[4]
    }
}

/// A read of `address` at time `now`, from `a` to `b`: it gives `value`, and
/// only the cartridge (its clock) may change.
pub open spec fn read_step(a: Devices, b: Devices, address: u16, value: u8, now: u64) -> bool {
    &&& value == a.bus.spec_read(address, now)
    &&& a.bus.spec_after_read(&b.bus, address, now)
    &&& b == (Devices { bus: b.bus, ..a })
}

impl Devices {
    /// The invariant of the devices.
    pub open spec fn wf(&self) -> bool {
        &&& self.bus.wf()
        &&& self.ppu.wf()
        &&& !self.ppu.new_frame
        &&& self.framebuffer@.len() == PIXELS
        &&& 1 <= self.speed <= 4
        &&& self.audio_accumulator < CPU_FREQUENCY * self.speed
    }

    /// Whether every byte that the DMA unit may still copy can be read: the
    /// whole source page of a running (or restarted) transfer.
    pub open spec fn dma_readable(&self) -> bool {
        (self.bus.io.dma.active || self.bus.io.dma.restarted) ==> forall|b: int| 0 <= b < 0xA0 ==>
            #[trigger] self.bus.readable((self.bus.io.dma.value as int * 0x100 + b) as u16)
    }

    /// The devices at power-on, without cartridge, at speed 1.
    pub fn new(bus: Interconnect, ppu: PPU) -> (r: Devices)
        requires
            bus.wf(),
            ppu.wf(),
            !ppu.new_frame,
        ensures
            r.wf(),
            r.bus == bus,
            r.ppu == ppu,
            r.speed == 1,
            r.frames == 0,
            r.ticks == 0,
            r.audio_accumulator == 0,
            r.samples@.len() == 0,
    {
        Devices {
            bus,
            ppu,
            framebuffer: crate::utils::zeroed_u32(PIXELS),
            speed: 1,
            frames: 0,
            ticks: 0,
            audio_accumulator: 0,
            samples: Vec::new(),
        }
    }

    /// One dot: the clock-cycle devices, the pixel unit (drawing when this is
    /// the last frame before display), and the audio sample clock.
    fn dot(&mut self)
        requires
            old(self).wf(),
        ensures
            final(self).wf(),
            final(self).ticks == vstd::wrapping::u64_specs::wrapping_add(old(self).ticks, 1),
            final(self).speed == old(self).speed,
            old(self).frames <= final(self).frames <= old(self).frames + 1,
            final(self).audio_accumulator == (old(self).audio_accumulator + AUDIO_FREQUENCY) % sample_period(old(self).speed),
            final(self).samples@.len() == old(self).samples@.len()
                + (old(self).audio_accumulator + AUDIO_FREQUENCY) / sample_period(old(self).speed),
            final(self).samples@.subrange(0, old(self).samples@.len() as int) == old(self).samples@,
            final(self).bus.cart == old(self).bus.cart,
            final(self).bus.vram == old(self).bus.vram,
            final(self).bus.ram == old(self).bus.ram,
            final(self).bus.oam_ram == old(self).bus.oam_ram,
            final(self).bus.ie_register == old(self).bus.ie_register,
            final(self).bus.io.dma == old(self).bus.io.dma,
            dot_step(*old(self), *final(self)),
    {
        self.ticks = self.ticks.wrapping_add(1);
        self.bus.tick_t();
        assert(self.bus == spec_tick_t(old(self).bus));
        let ghost fa = self.framebuffer@;
        let render = self.frames == self.speed - 1;
        let ghost p0 = old(self).ppu;
        let ghost b0 = spec_tick_t(old(self).bus);
        let done = self.ppu.tick(&mut self.bus, &mut self.framebuffer, render);
        proof {
            assert(done == dot_completes_frame(*old(self)));
            let mm = choose|m: PPU| {
                &&& #[trigger] mode_dot(stat_tick_ppu(p0, b0), stat_tick_bus(p0, b0), m, self.bus, fa, self.framebuffer@, render)
                &&& self.ppu == (PPU {
                        line_ticks: ((p0.line_ticks + 1) % (TICKS_PER_LINE as int)) as u32,
                        new_frame: false,
                        ..m
                    })
            };
            assert(tick_counters(p0, b0.io.lcd.ly, self.ppu, self.bus.io.lcd.ly, done));
        }
        let ghost m = choose|m: PPU| {
            &&& #[trigger] mode_dot(stat_tick_ppu(p0, b0), stat_tick_bus(p0, b0), m, self.bus, fa, self.framebuffer@, render)
            &&& self.ppu == (PPU {
                    line_ticks: ((p0.line_ticks + 1) % (TICKS_PER_LINE as int)) as u32,
                    new_frame: false,
                    ..m
                })
        };
        let ghost after_tick = *self;
        if done && self.frames < u8::MAX {
            self.frames = self.frames + 1;
        }
        let period: u32 = CPU_FREQUENCY * self.speed as u32;
        let ghost acc = self.audio_accumulator + AUDIO_FREQUENCY;
        self.audio_accumulator = self.audio_accumulator + AUDIO_FREQUENCY;
        if self.audio_accumulator >= period {
            self.audio_accumulator = self.audio_accumulator - period;
            let input = self.bus.io.apu.mix_input();
            self.samples.push(input);
            proof {
                vstd::arithmetic::div_mod::lemma_fundamental_div_mod_converse(acc, period as int, 1, acc - period);
            }
        } else {
            proof {
                vstd::arithmetic::div_mod::lemma_fundamental_div_mod_converse(acc, period as int, 0, acc);
            }
        }
        proof {
            assert(self.bus == after_tick.bus);
            assert(self.ppu == after_tick.ppu);
            assert(self.framebuffer@ == after_tick.framebuffer@);
            assert(self.frames == (if done && old(self).frames < 255 { (old(self).frames + 1) as u8 } else { old(self).frames }));
            assert(self.samples@ == (if acc >= sample_period(old(self).speed) { old(self).samples@.push(self.bus.io.apu.spec_mix_input()) } else { old(self).samples@ }));
            assert(self.ticks == vstd::wrapping::u64_specs::wrapping_add(old(self).ticks, 1));
            assert(self.audio_accumulator == (if acc >= sample_period(old(self).speed) { acc - sample_period(old(self).speed) } else { acc }));
            assert(tick_counters(old(self).ppu, b0.io.lcd.ly, self.ppu, self.bus.io.lcd.ly, dot_completes_frame(*old(self))));
            assert(fa == old(self).framebuffer@);
            assert(render == renders(*old(self)));
            assert(mode_dot(stat_tick_ppu(p0, b0), stat_tick_bus(p0, b0), m, self.bus, old(self).framebuffer@, self.framebuffer@, renders(*old(self))));
            assert(exists|m: PPU| {
                &&& #[trigger] mode_dot(stat_tick_ppu(p0, b0), stat_tick_bus(p0, b0), m, self.bus, old(self).framebuffer@, self.framebuffer@, renders(*old(self)))
                &&& self.ppu == (PPU {
                        line_ticks: ((p0.line_ticks + 1) % (TICKS_PER_LINE as int)) as u32,
                        new_frame: false,
                        ..m
                    })
            });
        }
    }

    /// One machine cycle: four dots, then the machine-cycle devices (DMA).
    /// Fails when the DMA unit would copy a byte from an address that the bus
    /// does not define.
    pub fn incr_cycle(&mut self) -> (r: Result<(), BusFault>)
        requires
            old(self).wf(),
        ensures
            final(self).wf(),
            final(self).ticks == (old(self).ticks + 4) % 0x1_0000_0000_0000_0000,
            final(self).speed == old(self).speed,
            old(self).frames <= final(self).frames <= old(self).frames + 4,
            final(self).audio_accumulator == (old(self).audio_accumulator + 4 * AUDIO_FREQUENCY) % sample_period(old(self).speed),
            final(self).samples@.len() == old(self).samples@.len()
                + (old(self).audio_accumulator + 4 * AUDIO_FREQUENCY) / sample_period(old(self).speed),
            final(self).samples@.subrange(0, old(self).samples@.len() as int) == old(self).samples@,
            final(self).bus.ie_register == old(self).bus.ie_register,
            final(self).bus.vram == old(self).bus.vram,
            final(self).bus.ram == old(self).bus.ram,
            forall|a: u16| #[trigger] final(self).bus.readable(a) == old(self).bus.readable(a),
            forall|a: u16| #[trigger] final(self).bus.writable(a) == old(self).bus.writable(a),
            forall|a: u16| #[trigger] final(self).bus.memory_address(a) == old(self).bus.memory_address(a),
            forall|a: u16, n: u64| old(self).bus.memory_address(a) ==> #[trigger] final(self).bus.spec_read(a, n) == old(self).bus.spec_read(a, n),
            r is Ok <==> old(self).bus.dma_source_readable(),
            old(self).dma_readable() ==> r is Ok && final(self).dma_readable(),
            r matches Err(f) ==> spec_dma_tick(old(self).bus.io.dma).1 matches Some((byte, val))
                && f == BusFault::Read((val as int * 0x100 + byte as int) as u16),
            cycle_step(*old(self), *final(self), r is Ok),
    {
        let mut i: u8 = 0;
        let ghost mut run: Seq<Devices> = seq![*self];
        proof {
            vstd::arithmetic::div_mod::lemma_small_mod(self.audio_accumulator as nat, sample_period(self.speed) as nat);
            vstd::arithmetic::div_mod::lemma_fundamental_div_mod_converse(
                self.audio_accumulator as int, sample_period(self.speed), 0, self.audio_accumulator as int);
        }
        while i < 4
            invariant
                0 <= i <= 4,
                self.wf(),
                self.ticks == (old(self).ticks + i) % 0x1_0000_0000_0000_0000,
                self.speed == old(self).speed,
                old(self).frames <= self.frames <= old(self).frames + i,
                self.audio_accumulator == (old(self).audio_accumulator + i * AUDIO_FREQUENCY) % sample_period(old(self).speed),
                self.samples@.len() == old(self).samples@.len()
                    + (old(self).audio_accumulator + i * AUDIO_FREQUENCY) / sample_period(old(self).speed),
                self.samples@.subrange(0, old(self).samples@.len() as int) == old(self).samples@,
                self.bus.cart == old(self).bus.cart,
                self.bus.vram == old(self).bus.vram,
                self.bus.ram == old(self).bus.ram,
                self.bus.oam_ram == old(self).bus.oam_ram,
                self.bus.ie_register == old(self).bus.ie_register,
                self.bus.io.dma == old(self).bus.io.dma,
                run.len() == i + 1,
                run[0] == *old(self),
                run[i as int] == *self,
                dot_run(run),
            decreases 4 - i,
        {
            let ghost before = self.samples@;
            let ghost prev = *self;
            proof {
                lemma_accumulate(old(self).audio_accumulator + i * AUDIO_FREQUENCY, AUDIO_FREQUENCY as int, sample_period(old(self).speed));
                assert(old(self).audio_accumulator + i * AUDIO_FREQUENCY + AUDIO_FREQUENCY == old(self).audio_accumulator + (i + 1) * AUDIO_FREQUENCY);
            }
            self.dot();
            proof {
                assert(self.samples@.subrange(0, old(self).samples@.len() as int)
                    =~= self.samples@.subrange(0, before.len() as int).subrange(0, old(self).samples@.len() as int));
            }
            proof {
                let next = run.push(*self);
                assert forall|k: int| 0 <= k < next.len() - 1 implies #[trigger] dot_step(next[k], next[k + 1]) by {
                    if k < i {
                        assert(dot_step(run[k], run[k + 1]));
                    }
                }
                run = next;
            }
            i = i + 1;
        }
        assert(dot_run(run) && run.len() == 5 && run[0] == *old(self) && run[4] == *self);
        let ghost d4 = *self;
        proof {
            let d = self.bus.io.dma;
            if old(self).dma_readable() && crate::interconnect::io::dma::spec_dma_tick(d).1 is Some {
                assert(d.active);
                let b = d.byte as int;
                assert(old(self).bus.readable((d.value as int * 0x100 + b) as u16));
            }
        }
        if let Some(source) = self.bus.dma_source() {
            if !self.bus.can_read(source) {
                return Err(BusFault::Read(source));
            }
        }
        self.bus.tick_m();
        proof {
            if old(self).dma_readable() {
                assert forall|b: int| 0 <= b < 0xA0 && (self.bus.io.dma.active || self.bus.io.dma.restarted)
                    implies #[trigger] self.bus.readable((self.bus.io.dma.value as int * 0x100 + b) as u16) by {
                    assert(old(self).bus.readable((old(self).bus.io.dma.value as int * 0x100 + b) as u16));
                }
            }
        }
        Ok(())
    }

    /// Reads `address`, or fails where the bus does not define a read.
    pub fn read8_checked(&mut self, address: u16) -> (r: Result<u8, BusFault>)
        requires
            old(self).bus.wf(),
        ensures
            final(self).bus.wf(),
            r is Err <==> !old(self).bus.readable(address),
            r matches Err(f) ==> f == BusFault::Read(address) && *final(self) == *old(self),
            r matches Ok(v) ==> exists|now: u64| v == #[trigger] old(self).bus.spec_read(address, now)
                && old(self).bus.spec_after_read(&final(self).bus, address, now),
            final(self).ppu == old(self).ppu,
            final(self).framebuffer == old(self).framebuffer,
            final(self).speed == old(self).speed,
            final(self).frames == old(self).frames,
            final(self).ticks == old(self).ticks,
            final(self).audio_accumulator == old(self).audio_accumulator,
            final(self).samples == old(self).samples,
    {
        if self.bus.can_read(address) {
            Ok(self.read8(address))
        } else {
            Err(BusFault::Read(address))
        }
    }

    /// Writes `value` at `address`, or fails where the bus does not define a write.
    pub fn write8_checked(&mut self, address: u16, value: u8) -> (r: Result<(), BusFault>)
        requires
            old(self).bus.wf(),
        ensures
            final(self).bus.wf(),
            r is Err <==> !old(self).bus.writable(address),
            r matches Err(f) ==> f == BusFault::Write(address) && *final(self) == *old(self),
            r is Ok ==> exists|now: u64| #[trigger] old(self).bus.spec_write(&final(self).bus, address, value, now),
            final(self).ppu == old(self).ppu,
            final(self).framebuffer == old(self).framebuffer,
            final(self).speed == old(self).speed,
            final(self).frames == old(self).frames,
            final(self).ticks == old(self).ticks,
            final(self).audio_accumulator == old(self).audio_accumulator,
            final(self).samples == old(self).samples,
    {
        if self.bus.can_write(address) {
            self.write8(address, value);
            Ok(())
        } else {
            Err(BusFault::Write(address))
        }
    }

    pub fn read8(&mut self, address: u16) -> (r: u8)
        requires
            old(self).bus.wf(),
            old(self).bus.readable(address),
        ensures
            final(self).bus.wf(),
            exists|now: u64| r == #[trigger] old(self).bus.spec_read(address, now) && old(self).bus.spec_after_read(&final(self).bus, address, now),
            final(self).ppu == old(self).ppu,
            final(self).framebuffer == old(self).framebuffer,
            final(self).speed == old(self).speed,
            final(self).frames == old(self).frames,
            final(self).ticks == old(self).ticks,
            final(self).audio_accumulator == old(self).audio_accumulator,
            final(self).samples == old(self).samples,
    {
        self.bus.read(address)
    }

    pub fn write8(&mut self, address: u16, value: u8)
        requires
            old(self).bus.wf(),
            old(self).bus.writable(address),
        ensures
            final(self).bus.wf(),
            exists|now: u64| #[trigger] old(self).bus.spec_write(&final(self).bus, address, value, now),
            final(self).ppu == old(self).ppu,
            final(self).framebuffer == old(self).framebuffer,
            final(self).speed == old(self).speed,
            final(self).frames == old(self).frames,
            final(self).ticks == old(self).ticks,
            final(self).audio_accumulator == old(self).audio_accumulator,
            final(self).samples == old(self).samples,
    {
        self.bus.write(address, value)
    }

    pub fn ie_register(&self) -> (r: u8)
        ensures
            r == self.bus.ie_register,
    {
        self.bus.get_ie_register()
    }
}

/// A write outside the cartridge and the DMA register leaves the DMA unit
/// and every address's readability as they were.
pub proof fn lemma_write_keeps_dma(old: Devices, new: Devices, address: u16, value: u8, now: u64)
    requires
        old.bus.wf(),
        old.bus.spec_write(&new.bus, address, value, now),
        !cart_address(address),
        address != 0xFF46,
    ensures
        new.bus.io.dma == old.bus.io.dma,
        forall|a: u16| #[trigger] new.bus.readable(a) == old.bus.readable(a),
        old.dma_readable() ==> new.dma_readable(),
{
    assert forall|b: int| 0 <= b < 0xA0 && old.dma_readable() && (new.bus.io.dma.active || new.bus.io.dma.restarted)
        implies #[trigger] new.bus.readable((new.bus.io.dma.value as int * 0x100 + b) as u16) by {
        assert(old.bus.readable((old.bus.io.dma.value as int * 0x100 + b) as u16));
    }
}

} // verus!
