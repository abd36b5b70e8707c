use vstd::prelude::*;

pub mod timer;
pub mod pulse_channel;
pub mod noise_channel;
pub mod wave_channel;

use pulse_channel::{PulseChannel, spec_pulse_write, spec_pulse_read, spec_length_tick, spec_sweep_tick, spec_envelope};
use wave_channel::{WaveChannel, wave_address};
use noise_channel::{NoiseChannel, spec_noise_write, spec_noise_read, spec_noise_length_tick};

verus! {

/// The registers and channels of the audio unit. Mixing the channels into
/// samples is left to the caller, from the channels' `output_level` and
/// `output_sample`, `master_vol` and `sound_panning`.
#[derive(Debug, Clone, Copy)]
pub struct APU {
    /// Position of the frame sequencer (0 to 7).
    pub div_apu: u8,
    pub ch1: PulseChannel,
    pub ch2: PulseChannel,
    pub ch3: WaveChannel,
    pub ch4: NoiseChannel,
    pub master_vol: u8,
    pub sound_panning: u8,
    pub audio_master_ctrl: u8,
}

/// Whether an address is one of the audio registers or the wave RAM.
pub open spec fn apu_address(address: u16) -> bool {
    0xFF10 <= address < 0xFF40
}

/// A pulse channel after one tick of its period divider.
pub open spec fn spec_pulse_tick(c: PulseChannel) -> PulseChannel {
    let (t, fired) = timer::spec_apu_timer_tick(c.timer);
    PulseChannel {
        timer: t,
        waveform_pointer: if fired { ((c.waveform_pointer + 1) % 8) as u8 } else { c.waveform_pointer },
        ..c
    }
}

/// A pulse channel after an envelope step.
pub open spec fn spec_pulse_envelope(c: PulseChannel) -> PulseChannel {
    let (v, t) = spec_envelope(c.volume, c.enveloppe_pace, c.enveloppe_timer, c.enveloppe_direction);
    PulseChannel { volume: v, enveloppe_timer: t, ..c }
}

/// The noise channel after an envelope step.
pub open spec fn spec_noise_envelope(c: NoiseChannel) -> NoiseChannel {
    let (v, t) = spec_envelope(c.volume, c.enveloppe_pace, c.enveloppe_timer, c.enveloppe_direction);
    NoiseChannel { volume: v, enveloppe_timer: t, ..c }
}

/// The unit after one step of the frame sequencer.
pub open spec fn spec_sequencer_step(a: APU) -> APU {
    let d = ((a.div_apu + 1) % 8) as u8;
    let length = d % 2 == 0;
    let c1a = if length { spec_length_tick(a.ch1) } else { a.ch1 };
    let c1b = if d == 2 || d == 6 { spec_sweep_tick(c1a) } else { c1a };
    let c2a = if length { spec_length_tick(a.ch2) } else { a.ch2 };
    let c3a = if length { wave_channel::spec_wave_length_tick(a.ch3) } else { a.ch3 };
    let c4a = if length { spec_noise_length_tick(a.ch4) } else { a.ch4 };
    APU {
        div_apu: d,
        ch1: if d == 7 { spec_pulse_envelope(c1b) } else { c1b },
        ch2: if d == 7 { spec_pulse_envelope(c2a) } else { c2a },
        ch3: c3a,
        ch4: if d == 7 { spec_noise_envelope(c4a) } else { c4a },
        ..a
    }
}

/// The unit after one clock tick.
pub open spec fn spec_apu_tick(a: APU, div_falling_edge: bool) -> APU {
    let a1 = if div_falling_edge { spec_sequencer_step(a) } else { a };
    APU {
        ch1: spec_pulse_tick(a1.ch1),
        ch2: spec_pulse_tick(a1.ch2),
        ch3: wave_channel::spec_wave_tick(a1.ch3),
        ..a1
    }
}

/// What the mixer needs at a sample point: the sample of each channel
/// (`None` when off), the master volume and the panning.
#[derive(Debug, Clone, Copy, PartialEq, Eq)]
pub struct MixInput {
    pub powered: bool,
    pub ch1: Option<u8>,
    pub ch2: Option<u8>,
    pub ch3: Option<u8>,
    pub master_vol: u8,
    pub sound_panning: u8,
}

impl APU {
    /// What the mixer needs at this point: whether the unit is powered, the
    /// level of each enabled channel, the master volume and the panning.
    pub open spec fn spec_mix_input(&self) -> MixInput {
        MixInput {
            powered: self.powered(),
            ch1: if self.ch1.enabled {
                Some(if pulse_channel::spec_waveform(pulse_channel::spec_wave_duty(self.ch1), self.ch1.waveform_pointer) { self.ch1.volume } else { 0u8 })
            } else {
                None::<u8>
            },
            ch2: if self.ch2.enabled {
                Some(if pulse_channel::spec_waveform(pulse_channel::spec_wave_duty(self.ch2), self.ch2.waveform_pointer) { self.ch2.volume } else { 0u8 })
            } else {
                None::<u8>
            },
            ch3: if self.ch3.enabled {
                Some((self.ch3.buffer as int / vstd::arithmetic::power2::pow2(wave_channel::spec_output_shift(self.ch3.output_level) as nat) as int) as u8)
            } else {
                None::<u8>
            },
            master_vol: self.master_vol,
            sound_panning: self.sound_panning,
        }
    }

    /// What the mixer needs at this point.
    pub fn mix_input(&self) -> (r: MixInput)
        requires
            self.wf(),
        ensures
            r == self.spec_mix_input(),
    {
        MixInput {
            powered: self.audio_enabled(),
            ch1: self.ch1.output_level(),
            ch2: self.ch2.output_level(),
            ch3: self.ch3.output_sample(),
            master_vol: self.master_vol,
            sound_panning: self.sound_panning,
        }
    }

    pub open spec fn wf(&self) -> bool {
        &&& self.div_apu < 8
        &&& self.ch1.wf()
        &&& self.ch2.wf()
        &&& self.ch3.wf()
        &&& self.ch4.wf()
    }

    /// Whether the unit is powered (bit 7 of NR52).
    pub open spec fn powered(&self) -> bool {
        self.audio_master_ctrl >= 0x80
    }

    /// Whether a register write to the pulse channels comes in the first half
    /// of a length period: the next step of the frame sequencer does not clock
    /// the length counters.
    pub open spec fn spec_first_period(&self) -> bool {
        self.div_apu % 2 == 0
    }

    /// What reading `address` gives.
    pub open spec fn spec_read(&self, address: u16) -> u8 {
        if address < 0xFF15 {
            spec_pulse_read(self.ch1, (address - 0xFF10) as u16)
        } else if address == 0xFF15 {
            0xFF
        } else if address < 0xFF1A {
            spec_pulse_read(self.ch2, (address - 0xFF15) as u16)
        } else if address < 0xFF1F {
            self.ch3.spec_read(address)
        } else if address == 0xFF1F {
            0xFF
        } else if address < 0xFF24 {
            spec_noise_read(self.ch4, address)
        } else if address == 0xFF24 {
            self.master_vol
        } else if address == 0xFF25 {
            self.sound_panning
        } else if address == 0xFF26 {
            ((self.audio_master_ctrl & 0x80)
                | (if self.ch1.enabled { 0x01u8 } else { 0 })
                | (if self.ch2.enabled { 0x02u8 } else { 0 })
                | (if self.ch3.enabled { 0x04u8 } else { 0 })
                | (if self.ch4.enabled { 0x08u8 } else { 0 })) | 0x70
        } else if address < 0xFF30 {
            0xFF
        } else {
            self.ch3.spec_read(address)
        }
    }

    /// What writing `value` at `address` does: `new` is the unit after the write.
    pub open spec fn spec_write(&self, new: &Self, address: u16, value: u8) -> bool {
        if !self.powered() && address <= 0xFF25 {
            *new == *self
        } else if address < 0xFF15 {
            *new == APU { ch1: spec_pulse_write(self.ch1, (address - 0xFF10) as u16, value, self.spec_first_period()), ..*self }
        } else if address == 0xFF15 || address == 0xFF1F || (0xFF27 <= address < 0xFF30) {
            *new == *self
        } else if address < 0xFF1A {
            *new == APU { ch2: spec_pulse_write(self.ch2, (address - 0xFF15) as u16, value, self.spec_first_period()), ..*self }
        } else if address < 0xFF1F || address >= 0xFF30 {
            &&& self.ch3.spec_write(&new.ch3, address, value)
            &&& *new == APU { ch3: new.ch3, ..*self }
        } else if address < 0xFF24 {
            *new == APU { ch4: spec_noise_write(self.ch4, address, value), ..*self }
        } else if address == 0xFF24 {
            *new == APU { master_vol: value, ..*self }
        } else if address == 0xFF25 {
            *new == APU { sound_panning: value, ..*self }
        } else {
            let was_on = self.powered();
            let now_on = value >= 0x80;
            let a = APU { audio_master_ctrl: value & 0x80, ..*self };
            if was_on && !now_on {
                &&& new.audio_master_ctrl == value & 0x80
                &&& new.div_apu == self.div_apu
                &&& new.master_vol == 0
                &&& new.sound_panning == 0
                &&& new.ch1 == (PulseChannel { sweep: 0, length_timer_duty_cycle: 0, volume_envelope: 0, period_low: 0, period_high_ctrl: 0, enabled: false, ..self.ch1 })
                &&& new.ch2 == (PulseChannel { sweep: 0, length_timer_duty_cycle: 0, volume_envelope: 0, period_low: 0, period_high_ctrl: 0, enabled: false, ..self.ch2 })
                &&& new.ch3 == (WaveChannel { dac_enable: 0, initial_length_timer: 0, output_level: 0, period_low: 0, period_high_ctrl: 0, enabled: false, ..self.ch3 })
                &&& new.ch4 == (NoiseChannel { length_timer: 0, volume_envelope: 0, freq_randomness: 0, control: 0, ..self.ch4 })
            } else {
                *new == a
            }
        }
    }

    /// A powered-off unit with every channel at zero.
    pub fn new() -> (r: APU)
        ensures
            r.wf(),
            r.div_apu == 0,
            r.ch1 == PulseChannel::zero_spec(),
            r.ch2 == PulseChannel::zero_spec(),
            !r.ch3.enabled,
            r.ch4 == (NoiseChannel {
                length_timer_reg: 0,
                volume_envelope: 0,
                freq_randomness: 0,
                control: 0,
                enabled: false,
                volume: 0,
                enveloppe_pace: 0,
                enveloppe_timer: 0,
                enveloppe_direction: false,
                length_timer: 0,
                timer: timer::Timer { period: 0, value: 0 },
            }),
            r.master_vol == 0,
            r.sound_panning == 0,
            r.audio_master_ctrl == 0,
    {
        APU {
            div_apu: 0,
            ch1: PulseChannel::zero(),
            ch2: PulseChannel::zero(),
            ch3: WaveChannel::new(),
            ch4: NoiseChannel::new(),
            master_vol: 0,
            sound_panning: 0,
            audio_master_ctrl: 0,
        }
    }

    /// One step of the frame sequencer: the position advances; the length
    /// counters step on even positions, the sweep on positions 2 and 6, the
    /// envelopes on position 7.
    pub fn sequencer_step(&mut self)
        requires
            old(self).wf(),
        ensures
            final(self).wf(),
            *final(self) == spec_sequencer_step(*old(self)),
    {
        self.div_apu = (self.div_apu + 1) % 8;
        let d = self.div_apu;
        proof { crate::bits::lemma_u8_bits(d); }
        assert((d & 1 == 0) == (d % 2 == 0));
        if self.div_apu & 1 == 0 {
            self.ch1.length_tick();
            self.ch2.length_tick();
            self.ch3.length_tick();
            self.ch4.length_tick();
        }
        if self.div_apu == 2 || self.div_apu == 6 {
            self.ch1.sweep_tick();
        }
        if self.div_apu == 7 {
            self.ch1.enveloppe_tick();
            self.ch2.enveloppe_tick();
            self.ch4.enveloppe_tick();
        }
    }

    /// One clock tick: on a falling edge of the divider, one step of the frame
    /// sequencer; then one tick of the period dividers of channels 1 to 3.
    pub fn tick(&mut self, div_falling_edge: bool)
        requires
            old(self).wf(),
        ensures
            final(self).wf(),
            *final(self) == spec_apu_tick(*old(self), div_falling_edge),
    {
        if div_falling_edge {
            self.sequencer_step();
        }
        self.ch1.tick();
        self.ch2.tick();
        self.ch3.tick();
    }

    fn first_period(&self) -> (r: bool)
        ensures
            r == self.spec_first_period(),
    {
        self.div_apu % 2 == 0
    }

    /// Writes an audio register or the wave RAM (`0xFF10..0xFF40`); while the
    /// unit is off, writes below `0xFF26` are ignored.
    pub fn write(&mut self, address: u16, value: u8)
        requires
            old(self).wf(),
            apu_address(address),
        ensures
            final(self).wf(),
            old(self).spec_write(final(self), address, value),
    {
        let c = self.audio_master_ctrl;
        proof { crate::bits::lemma_u8_bits(c); }
        assert(((c & 0x80) == 0) == (c < 0x80));
        if (self.audio_master_ctrl & 0x80) == 0 && address <= 0xFF25 {
            return;
        }
        let fp = self.first_period();
        if address < 0xFF15 {
            self.ch1.write(address - 0xFF10, value, fp);
        } else if address == 0xFF15 {
        } else if address < 0xFF1A {
            self.ch2.write(address - 0xFF15, value, fp);
        } else if address < 0xFF1F {
            self.ch3.write(address, value);
        } else if address == 0xFF1F {
        } else if address < 0xFF24 {
            self.ch4.write(address, value);
        } else if address == 0xFF24 {
            self.master_vol = value;
        } else if address == 0xFF25 {
            self.sound_panning = value;
        } else if address == 0xFF26 {
            self.write_nr52(value);
        } else if address < 0xFF30 {
        } else {
            self.ch3.write(address, value);
        }
    }

    /// Reads an audio register or the wave RAM (`0xFF10..0xFF40`).
    pub fn read(&self, address: u16) -> (r: u8)
        requires
            self.wf(),
            apu_address(address),
        ensures
            r == self.spec_read(address),
    {
        if address < 0xFF15 {
            self.ch1.read(address - 0xFF10)
        } else if address == 0xFF15 {
            0xFF
        } else if address < 0xFF1A {
            self.ch2.read(address - 0xFF15)
        } else if address < 0xFF1F {
            self.ch3.read(address)
        } else if address == 0xFF1F {
            0xFF
        } else if address < 0xFF24 {
            self.ch4.read(address)
        } else if address == 0xFF24 {
            self.master_vol
        } else if address == 0xFF25 {
            self.sound_panning
        } else if address == 0xFF26 {
            ((self.audio_master_ctrl & 0x80)
                | (if self.ch1.is_enabled() { 0x01u8 } else { 0 })
                | (if self.ch2.is_enabled() { 0x02u8 } else { 0 })
                | (if self.ch3.is_enabled() { 0x04u8 } else { 0 })
                | (if self.ch4.is_enabled() { 0x08u8 } else { 0 })) | 0x70
        } else if address < 0xFF30 {
            0xFF
        } else {
            self.ch3.read(address)
        }
    }

    /// Writes NR52: only the power bit is writable; powering off clears the
    /// registers of every channel (not the wave RAM) and the mixer.
    fn write_nr52(&mut self, value: u8)
        requires
            old(self).wf(),
        ensures
            final(self).wf(),
            old(self).spec_write(final(self), 0xFF26, value),
    {
        let c = self.audio_master_ctrl;
        let v = value;
        proof { crate::bits::lemma_u8_bits(c); }
        assert(((c & 0x80) != 0) == (c >= 0x80));
        proof { crate::bits::lemma_u8_bits(v); }
        assert(((v & 0x80) != 0) == (v >= 0x80));
        let was_on = self.audio_master_ctrl & 0x80 != 0;
        let now_on = value & 0x80 != 0;
        self.audio_master_ctrl = value & 0x80;
        if was_on && !now_on {
            self.ch1.power_off();
            self.ch2.power_off();
            self.ch3.power_off();
            self.ch4.power_off();
            self.master_vol = 0;
            self.sound_panning = 0;
        }
    }

    /// Whether the unit is powered.
    pub fn audio_enabled(&self) -> (r: bool)
        ensures
            r == self.powered(),
    {
        let c = self.audio_master_ctrl;
        proof { crate::bits::lemma_u8_bits(c); }
        assert((c & 0b10000000 != 0) == (c >= 0x80));
        self.audio_master_ctrl & 0b10000000 != 0
    }
}

} // verus!
