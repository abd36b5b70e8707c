use vstd::prelude::*;
use super::timer::{Timer, spec_apu_timer_tick};
use super::pulse_channel::{spec_period, spec_length_enable};

verus! {

/// The wave channel (channel 3): 32 four-bit samples played from wave RAM.
#[derive(Debug, Clone, Copy)]
pub struct WaveChannel {
    pub dac_enable: u8,
    pub initial_length_timer: u8,
    pub output_level: u8,
    pub period_low: u8,
    pub period_high_ctrl: u8,

    pub wave_pattern_ram: [u8; 16],

    pub enabled: bool,

    pub length_timer: u16,

    pub period_divider: Timer,
    pub wave_ram_pointer: u8,

    pub buffer: u8,
}

/// The number of right shifts that the output level applies to a sample
/// (4 mutes it).
pub open spec fn spec_output_shift(output_level: u8) -> u8 {
    let code = (output_level / 32) % 4;
    if code == 0 { 4 } else if code == 1 { 0 } else if code == 2 { 1 } else { 2 }
}

/// The output level (bits 6-5 of NR32) scales the four-bit samples: code 0
/// mutes the channel, 1 plays at full volume, 2 at half and 3 at a quarter.
pub proof fn lemma_output_levels(output_level: u8, sample: u8)
    requires
        sample < 16,
    ensures
        ({
            let out = sample as int / vstd::arithmetic::power2::pow2(spec_output_shift(output_level) as nat) as int;
            let code = (output_level / 32) % 4;
            &&& code == 0 ==> out == 0
            &&& code == 1 ==> out == sample
            &&& code == 2 ==> out == sample / 2
            &&& code == 3 ==> out == sample / 4
        }),
{
    vstd::arithmetic::power2::lemma2_to64();
    let code = (output_level / 32) % 4;
    if code == 0 {
        assert(spec_output_shift(output_level) == 4);
        assert(sample as int / 16 == 0);
    } else if code == 1 {
        assert(spec_output_shift(output_level) == 0);
        assert(sample as int / 1 == sample);
    } else if code == 2 {
        assert(spec_output_shift(output_level) == 1);
    } else {
        assert(spec_output_shift(output_level) == 2);
    }
}

/// The length counter: with length enabled (bit 6 of NR34), a length step
/// counts the counter down, and the channel keeps playing only when it played
/// and the counter did not reach 0: when it reaches 0 the channel is off.
/// With length disabled nothing changes.
pub proof fn lemma_wave_length_step(c: WaveChannel)
    ensures
        spec_length_enable(c.period_high_ctrl) ==> {
            let d = spec_wave_length_tick(c);
            &&& d.length_timer as int == (if c.length_timer > 0 { c.length_timer - 1 } else { 0xFFFF })
            &&& d.enabled == (c.enabled && c.length_timer != 1)
            &&& d.length_timer == 0 ==> !d.enabled
        },
        !spec_length_enable(c.period_high_ctrl) ==> spec_wave_length_tick(c) == c,
{
}

/// Whether writing `address` is defined (elsewhere it is not).
pub open spec fn wave_address(address: u16) -> bool {
    (0xFF1A <= address <= 0xFF1E) || (0xFF30 <= address < 0xFF40)
}

/// The channel after a length-counter step.
pub open spec fn spec_wave_length_tick(c: WaveChannel) -> WaveChannel {
    if spec_length_enable(c.period_high_ctrl) {
        let lt = vstd::wrapping::u16_specs::wrapping_sub(c.length_timer, 1);
        WaveChannel { length_timer: lt, enabled: if lt == 0 { false } else { c.enabled }, ..c }
    } else {
        c
    }
}

/// The channel after one tick of its period divider: when the divider fires,
/// the next four-bit sample (high half of a byte first) is loaded.
pub open spec fn spec_wave_tick(c: WaveChannel) -> WaveChannel {
    let (t, fired) = spec_apu_timer_tick(c.period_divider);
    let p = ((c.wave_ram_pointer + 1) % 32) as u8;
    let byte = c.wave_pattern_ram@[(p / 2) as int];
    if fired {
        WaveChannel {
            period_divider: t,
            wave_ram_pointer: p,
            buffer: if p % 2 == 0 { byte / 16 } else { byte % 16 },
            ..c
        }
    } else {
        WaveChannel { period_divider: t, ..c }
    }
}

impl WaveChannel {
    pub open spec fn wf(&self) -> bool {
        self.wave_pattern_ram@.len() == 16 && self.wave_ram_pointer < 32
    }

    /// What reading register `address` gives.
    pub open spec fn spec_read(&self, address: u16) -> u8 {
        if address == 0xFF1A {
            self.dac_enable | 0x7F
        } else if address == 0xFF1B {
            0xFF
        } else if address == 0xFF1C {
            self.output_level | 0x9F
        } else if address == 0xFF1D {
            0xFF
        } else if address == 0xFF1E {
            self.period_high_ctrl | 0xBF
        } else if self.enabled {
            self.wave_pattern_ram@[(self.wave_ram_pointer / 2) as int]
        } else {
            self.wave_pattern_ram@[address - 0xFF30]
        }
    }

    /// What writing `value` at register `address` does: `new` is the channel after.
    pub open spec fn spec_write(&self, new: &Self, address: u16, value: u8) -> bool {
        if address == 0xFF1A {
            *new == WaveChannel {
                dac_enable: value & 0x80,
                enabled: if value < 0x80 { false } else { self.enabled },
                ..*self
            }
        } else if address == 0xFF1B {
            *new == WaveChannel { initial_length_timer: value, length_timer: (256 - value) as u16, ..*self }
        } else if address == 0xFF1C {
            *new == WaveChannel { output_level: value & 0x60, ..*self }
        } else if address == 0xFF1D {
            *new == WaveChannel { period_low: value, ..*self }
        } else if address == 0xFF1E {
            let c1 = WaveChannel { period_high_ctrl: value & 0xC7, ..*self };
            let c2 = if !spec_length_enable(self.period_high_ctrl) && spec_length_enable(c1.period_high_ctrl) && c1.length_timer == 0 {
                WaveChannel { enabled: false, ..c1 }
            } else {
                c1
            };
            if value >= 0x80 {
                *new == WaveChannel {
                    enabled: c2.dac_enable >= 0x80,
                    length_timer: if c2.length_timer == 0 { 256 } else { c2.length_timer },
                    period_divider: Timer {
                        period: ((2048 - spec_period(c2.period_low, c2.period_high_ctrl)) * 2) as u16,
                        ..c2.period_divider
                    },
                    wave_ram_pointer: 0,
                    ..c2
                }
            } else {
                *new == c2
            }
        } else if !self.enabled {
            *new == WaveChannel {
                wave_pattern_ram: new.wave_pattern_ram,
                ..*self
            } && new.wave_pattern_ram@ == self.wave_pattern_ram@.update(address - 0xFF30, value)
        } else {
            *new == *self
        }
    }

    /// A channel with every register and counter at zero.
    pub fn new() -> (r: WaveChannel)
        ensures
            r.wf(),
            r.wave_pattern_ram@ == Seq::new(16, |i: int| 0u8),
            r.dac_enable == 0,
            r.initial_length_timer == 0,
            r.output_level == 0,
            r.period_low == 0,
            r.period_high_ctrl == 0,
            !r.enabled,
            r.length_timer == 0,
            r.period_divider == (Timer { period: 0, value: 0 }),
            r.wave_ram_pointer == 0,
            r.buffer == 0,
    {
        let r = WaveChannel {
            dac_enable: 0,
            initial_length_timer: 0,
            output_level: 0,
            period_low: 0,
            period_high_ctrl: 0,
            wave_pattern_ram: [0; 16],
            enabled: false,
            length_timer: 0,
            period_divider: Timer::new(),
            wave_ram_pointer: 0,
            buffer: 0,
        };
        assert(r.wave_pattern_ram@ =~= Seq::new(16, |i: int| 0u8));
        r
    }

    /// Reads a register or the wave RAM (while the channel plays, the byte
    /// under the play position is read).
    pub fn read(&self, address: u16) -> (r: u8)
        requires
            self.wf(),
            wave_address(address),
        ensures
            r == self.spec_read(address),
    {
        match address {
            0xFF1A => self.dac_enable | 0x7F,
            0xFF1B => 0xFF,
            0xFF1C => self.output_level | 0x9F,
            0xFF1D => 0xFF,
            0xFF1E => self.period_high_ctrl | 0xBF,
            _ => {
                if self.enabled {
                    self.wave_pattern_ram[self.wave_ram_pointer as usize / 2]
                } else {
                    self.wave_pattern_ram[address as usize - 0xFF30]
                }
            },
        }
    }

    /// Writes a register or the wave RAM (the wave RAM is read-only while the
    /// channel plays).
    pub fn write(&mut self, address: u16, value: u8)
        requires
            old(self).wf(),
            wave_address(address),
        ensures
            final(self).wf(),
            old(self).spec_write(final(self), address, value),
    {
        let v = value;
        proof { crate::bits::lemma_u8_bits(v); }
        assert((v & 0x80 == 0x80) == (v >= 0x80) && (v & 0x80 < 0x80) == (v < 0x80));
        match address {
            0xFF1A => {
                self.dac_enable = value & 0x80;
                if !self.is_dac_enabled() {
                    self.enabled = false;
                }
            },
            0xFF1B => {
                self.initial_length_timer = value;
                self.length_timer = 256 - value as u16;
            },
            0xFF1C => self.output_level = value & 0x60,
            0xFF1D => self.period_low = value,
            0xFF1E => {
                let old_length_enable = self.length_enable();
                self.period_high_ctrl = value & 0xC7;
                if !old_length_enable && self.length_enable() && self.length_timer == 0 {
                    self.enabled = false;
                }
                let h = self.period_high_ctrl;
                assert((h >= 0x80) == (v >= 0x80)) by (bit_vector) requires h == v & 0xC7;
                if self.trigger() {
                    self.enabled = self.is_dac_enabled();
                    if self.length_timer == 0 {
                        self.length_timer = 256;
                    }
                    let p = self.period();
                    self.period_divider.set_period((2048 - p) * 2);
                    self.wave_ram_pointer = 0;
                }
            },
            _ => {
                if !self.enabled {
                    self.wave_pattern_ram.set(address as usize - 0xFF30, value);
                }
            },
        }
    }

    /// One tick of the period divider; moves to the next sample when it fires.
    pub fn tick(&mut self)
        requires
            old(self).wf(),
        ensures
            final(self).wf(),
            *final(self) == spec_wave_tick(*old(self)),
    {
        if self.period_divider.tick() {
            self.wave_ram_pointer = (self.wave_ram_pointer + 1) % 32;
            let byte = self.wave_pattern_ram[(self.wave_ram_pointer / 2) as usize];
            proof { crate::bits::lemma_u8_bits(byte); }
            assert(byte >> 4 == byte / 16 && byte & 0x0F == byte % 16);
            self.buffer = if self.wave_ram_pointer % 2 == 0 { byte >> 4 } else { byte & 0x0F };
        }
    }

    /// One step of the length counter.
    pub fn length_tick(&mut self)
        ensures
            *final(self) == spec_wave_length_tick(*old(self)),
    {
        if self.length_enable() {
            self.length_timer = self.length_timer.wrapping_sub(1);
            if self.length_timer == 0 {
                self.enabled = false;
            }
        }
    }

    /// The current sample, shifted by the output level, or `None` when the channel is off.
    pub fn output_sample(&self) -> (r: Option<u8>)
        ensures
            r == (if self.enabled {
                Some((self.buffer as int / vstd::arithmetic::power2::pow2(spec_output_shift(self.output_level) as nat) as int) as u8)
            } else {
                None::<u8>
            }),
    {
        if self.enabled {
            let shift = self.output_shift();
            let b = self.buffer;
            proof {
                vstd::arithmetic::power2::lemma2_to64();
                crate::bits::lemma_u8_bits(b);
                if shift == 0 {
                    assert(b >> shift == b / 1);
                } else if shift == 1 {
                    assert(b >> shift == b / 2);
                } else if shift == 2 {
                    assert(b >> shift == b / 4);
                } else {
                    assert(b >> shift == b / 16);
                }
            }
            Some(self.buffer >> shift)
        } else {
            None
        }
    }

    pub fn is_enabled(&self) -> (r: bool)
        ensures
            r == self.enabled,
    {
        self.enabled
    }

    /// Clears the registers when the APU is powered off (the wave RAM stays).
    pub fn power_off(&mut self)
        ensures
            *final(self) == (WaveChannel {
                dac_enable: 0,
                initial_length_timer: 0,
                output_level: 0,
                period_low: 0,
                period_high_ctrl: 0,
                enabled: false,
                ..*old(self)
            }),
    {
        self.dac_enable = 0;
        self.initial_length_timer = 0;
        self.output_level = 0;
        self.period_low = 0;
        self.period_high_ctrl = 0;
        self.enabled = false;
    }

    fn is_dac_enabled(&self) -> (r: bool)
        ensures
            r == (self.dac_enable >= 0x80),
    {
        let d = self.dac_enable;
        proof { crate::bits::lemma_u8_bits(d); crate::bits::lemma_u8_pow2(); }
        assert((d & (1u8 << 7) != 0) == (d >= 0x80));
        self.dac_enable & (1 << 7) != 0
    }

    /// The number of right shifts to apply to the sample read.
    fn output_shift(&self) -> (r: u8)
        ensures
            r == spec_output_shift(self.output_level),
    {
        let o = self.output_level;
        proof { crate::bits::lemma_u8_bits(o); }
        assert((o & 0b01100000) >> 5 == (o / 32) % 4);
        match (self.output_level & 0b01100000) >> 5 {
            0b00 => 4,
            0b01 => 0,
            0b10 => 1,
            _ => 2,
        }
    }

    fn period(&self) -> (r: u16)
        ensures
            r == spec_period(self.period_low, self.period_high_ctrl),
            r <= 0x7FF,
    {
        let l = self.period_low;
        let h = self.period_high_ctrl;
        assert((l as u16 | ((h as u16 & 0b111) << 8)) == (l as int + (h % 8) as int * 256) as u16
            && (l as int + (h % 8) as int * 256) <= 0x7FF) by (bit_vector);
        self.period_low as u16 | ((self.period_high_ctrl as u16 & 0b111) << 8)
    }

    fn length_enable(&self) -> (r: bool)
        ensures
            r == spec_length_enable(self.period_high_ctrl),
    {
        let h = self.period_high_ctrl;
        proof { crate::bits::lemma_u8_bits(h); }
        assert((h & 0b01000000 != 0) == ((h / 64) % 2 == 1));
        self.period_high_ctrl & 0b01000000 != 0
    }

    fn trigger(&self) -> (r: bool)
        ensures
            r == (self.period_high_ctrl >= 0x80),
    {
        let h = self.period_high_ctrl;
        proof { crate::bits::lemma_u8_bits(h); }
        assert((h & 0b10000000 != 0) == (h >= 0x80));
        self.period_high_ctrl & 0b10000000 != 0
    }
}

} // verus!
