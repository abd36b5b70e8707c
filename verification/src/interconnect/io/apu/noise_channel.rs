use vstd::prelude::*;
use super::timer::Timer;
use super::pulse_channel::{spec_envelope, spec_env_pace, spec_env_direction, spec_initial_volume, spec_dac_enabled, spec_length_enable};

verus! {

/// The noise channel (channel 4): registers, length counter and envelope.
#[derive(Debug, Clone, Copy, PartialEq, Eq)]
pub struct NoiseChannel {
    pub length_timer_reg: u8,
    pub volume_envelope: u8,
    pub freq_randomness: u8,
    pub control: u8,

    pub enabled: bool,

    pub volume: u8,
    pub enveloppe_pace: u8,
    pub enveloppe_timer: u8,
    pub enveloppe_direction: bool,

    pub length_timer: u8,
    pub timer: Timer,
}

/// What reading register `address` (`0xFF20..=0xFF23`) gives.
pub open spec fn spec_noise_read(c: NoiseChannel, address: u16) -> u8 {
    if address == 0xFF20 {
        0xFF
    } else if address == 0xFF21 {
        c.volume_envelope
    } else if address == 0xFF22 {
        c.freq_randomness
    } else {
        c.control | 0xBF
    }
}

/// The channel after `value` is written to register `address` (`0xFF20..=0xFF23`).
pub open spec fn spec_noise_write(c: NoiseChannel, address: u16, value: u8) -> NoiseChannel {
    if address == 0xFF20 {
        NoiseChannel { length_timer_reg: value % 64, length_timer: (64 - value % 64) as u8, ..c }
    } else if address == 0xFF21 {
        NoiseChannel { volume_envelope: value, enabled: if !spec_dac_enabled(value) { false } else { c.enabled }, ..c }
    } else if address == 0xFF22 {
        NoiseChannel { freq_randomness: value, ..c }
    } else {
        let c1 = NoiseChannel { control: value & 0xC0, ..c };
        if value >= 0x80 {
            let pace = spec_env_pace(c1.volume_envelope);
            NoiseChannel {
                enabled: spec_dac_enabled(c1.volume_envelope),
                length_timer: if c1.length_timer == 0 { 64 } else { c1.length_timer },
                enveloppe_direction: spec_env_direction(c1.volume_envelope),
                enveloppe_timer: if pace == 0 { 8 } else { pace },
                enveloppe_pace: pace,
                volume: spec_initial_volume(c1.volume_envelope),
                ..c1
            }
        } else {
            c1
        }
    }
}

/// The channel after a length-counter step.
pub open spec fn spec_noise_length_tick(c: NoiseChannel) -> NoiseChannel {
    if spec_length_enable(c.control) {
        let lt: u8 = if c.length_timer > 0 { (c.length_timer - 1) as u8 } else { 0 };
        NoiseChannel { length_timer: lt, enabled: if lt == 0 { false } else { c.enabled }, ..c }
    } else {
        c
    }
}

/// The length counter: with length enabled (bit 6 of NR44), a length step
/// counts the counter down (it stays at 0), and the channel keeps playing
/// only when it played and had more than one step left: when the counter
/// reaches 0 the channel is off. With length disabled nothing changes.
pub proof fn lemma_noise_length_step(c: NoiseChannel)
    ensures
        spec_length_enable(c.control) ==> {
            let d = spec_noise_length_tick(c);
            &&& d.length_timer as int == (if c.length_timer > 0 { c.length_timer - 1 } else { 0 })
            &&& d.enabled == (c.enabled && c.length_timer > 1)
            &&& d.length_timer == 0 ==> !d.enabled
        },
        !spec_length_enable(c.control) ==> spec_noise_length_tick(c) == c,
{
}

impl NoiseChannel {
    /// The invariant: the volume stays in range.
    pub open spec fn wf(&self) -> bool {
        self.volume < 16
    }

    /// A channel with every register and counter at zero.
    pub fn new() -> (r: NoiseChannel)
        ensures
            r.wf(),
            r == (NoiseChannel {
                length_timer_reg: 0,
                volume_envelope: 0,
                freq_randomness: 0,
                control: 0,
                enabled: false,
                volume: 0,
                enveloppe_pace: 0,
                enveloppe_timer: 0,
                enveloppe_direction: false,
                length_timer: 0,
                timer: Timer { period: 0, value: 0 },
            }),
    {
        NoiseChannel {
            length_timer_reg: 0,
            volume_envelope: 0,
            freq_randomness: 0,
            control: 0,
            enabled: false,
            volume: 0,
            enveloppe_pace: 0,
            enveloppe_timer: 0,
            enveloppe_direction: false,
            length_timer: 0,
            timer: Timer::new(),
        }
    }

    /// Reads register `address` (`0xFF20..=0xFF23`).
    pub fn read(&self, address: u16) -> (r: u8)
        requires
            0xFF20 <= address <= 0xFF23,
        ensures
            r == spec_noise_read(*self, address),
    {
        match address {
            0xFF20 => 0xFF,
            0xFF21 => self.volume_envelope,
            0xFF22 => self.freq_randomness,
            _ => self.control | 0xBF,
        }
    }

    /// Writes register `address` (`0xFF20..=0xFF23`).
    pub fn write(&mut self, address: u16, value: u8)
        requires
            old(self).wf(),
            0xFF20 <= address <= 0xFF23,
        ensures
            final(self).wf(),
            *final(self) == spec_noise_write(*old(self), address, value),
    {
        let v = value;
        proof { crate::bits::lemma_u8_bits(v); }
        assert(v & 0x3F == v % 64 && v & 0b111111 == v % 64);
        proof { crate::bits::lemma_u8_bits(v); }
        assert((v & 0xF8 != 0) == (v >= 8));
        proof { crate::bits::lemma_u8_bits(v); }
        assert((v & 0b10000000 != 0) == (v >= 0x80));
        match address {
            0xFF20 => {
                self.length_timer_reg = value & 0x3F;
                let r = self.length_timer_reg;
                proof { crate::bits::lemma_u8_bits(r); }
                self.length_timer = 64 - (self.length_timer_reg & 0b111111);
            },
            0xFF21 => {
                self.volume_envelope = value;
                if self.volume_envelope & 0xF8 == 0 {
                    self.enabled = false;
                }
            },
            0xFF22 => self.freq_randomness = value,
            _ => {
                self.control = value & 0xC0;
                if value & 0b10000000 != 0 {
                    let e = self.volume_envelope;
                    proof { crate::bits::lemma_u8_bits(e); }
                    assert((e & 0xF8 != 0) == (e >= 8));
                    proof { crate::bits::lemma_u8_bits(e); }
                    assert((e & 0b1000 != 0) == ((e / 8) % 2 == 1));
                    proof { crate::bits::lemma_u8_bits(e); }
                    assert(e & 0b111 == e % 8);
                    proof { crate::bits::lemma_u8_bits(e); }
                    assert((e >> 4) & 0b1111 == e / 16);
                    self.enabled = self.volume_envelope & 0xF8 != 0;
                    if self.length_timer == 0 {
                        self.length_timer = 64;
                    }
                    self.enveloppe_direction = self.volume_envelope & 0b1000 != 0;
                    let pace = self.volume_envelope & 0b111;
                    self.enveloppe_timer = if pace == 0 { 8 } else { pace };
                    self.enveloppe_pace = pace;
                    self.volume = (self.volume_envelope >> 4) & 0b1111;
                }
            },
        }
    }

    /// One step of the length counter.
    pub fn length_tick(&mut self)
        ensures
            *final(self) == spec_noise_length_tick(*old(self)),
    {
        let c = self.control;
        proof { crate::bits::lemma_u8_bits(c); }
        assert((c & 0b1000000 != 0) == ((c / 64) % 2 == 1));
        if self.control & 0b1000000 != 0 {
            self.length_timer = self.length_timer.saturating_sub(1);
            if self.length_timer == 0 {
                self.enabled = false;
            }
        }
    }

    /// One step of the volume envelope.
    pub fn enveloppe_tick(&mut self)
        requires
            old(self).wf(),
        ensures
            final(self).wf(),
            ({
                let (v, t) = spec_envelope(old(self).volume, old(self).enveloppe_pace, old(self).enveloppe_timer, old(self).enveloppe_direction);
                *final(self) == NoiseChannel { volume: v, enveloppe_timer: t, ..*old(self) }
            }),
    {
        self.enveloppe_timer = self.enveloppe_timer.saturating_sub(1);
        if self.enveloppe_timer == 0 && self.enveloppe_pace != 0 {
            if self.enveloppe_direction {
                if self.volume < 15 {
                    self.volume = self.volume + 1;
                }
            } else {
                self.volume = self.volume.saturating_sub(1);
            }
            self.enveloppe_timer = self.enveloppe_pace;
        }
    }

    pub fn is_enabled(&self) -> (r: bool)
        ensures
            r == self.enabled,
    {
        self.enabled
    }

    /// Clears the registers when the APU is powered off.
    pub fn power_off(&mut self)
        ensures
            *final(self) == (NoiseChannel {
                length_timer: 0,
                volume_envelope: 0,
                freq_randomness: 0,
                control: 0,
                ..*old(self)
            }),
    {
        self.length_timer = 0;
        self.volume_envelope = 0;
        self.freq_randomness = 0;
        self.control = 0;
    }
}

} // verus!
