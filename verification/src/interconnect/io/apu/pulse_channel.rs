use vstd::prelude::*;
use super::timer::{Timer, spec_apu_timer_tick};

verus! {

/// Whether step `ptr` (0 to 7) of the waveform of duty cycle `duty` (0 to 3) is high.
pub open spec fn spec_waveform(duty: u8, ptr: u8) -> bool {
    if duty == 0 {
        ptr == 7
    } else if duty == 1 {
        ptr == 0 || ptr == 7
    } else if duty == 2 {
        ptr == 0 || ptr >= 5
    } else {
        1 <= ptr <= 6
    }
}

/// Whether step `ptr` of the waveform of duty cycle `duty` is high.
pub fn waveform(duty: u8, ptr: u8) -> (r: bool)
    ensures
        r == spec_waveform(duty, ptr),
{
    if duty == 0 {
        ptr == 7
    } else if duty == 1 {
        ptr == 0 || ptr == 7
    } else if duty == 2 {
        ptr == 0 || ptr >= 5
    } else {
        1 <= ptr && ptr <= 6
    }
}

/// A square-wave channel (channels 1 and 2), with the frequency sweep of channel 1.
#[derive(Debug, Clone, Copy, PartialEq, Eq)]
pub struct PulseChannel {
    pub sweep: u8,
    pub length_timer_duty_cycle: u8,
    pub volume_envelope: u8,
    pub period_low: u8,
    pub period_high_ctrl: u8,

    pub enabled: bool,

    pub sweep_enabled: bool,
    pub sweep_timer: u8,
    pub shadow_register: u16,
    pub negate_has_been_used: bool,

    pub volume: u8,
    pub enveloppe_pace: u8,
    pub enveloppe_timer: u8,
    pub enveloppe_direction: bool,

    pub length_timer: u8,
    pub timer: Timer,

    pub waveform_pointer: u8,
}

// Fields decoded from the registers.

pub open spec fn spec_sweep_pace(c: PulseChannel) -> u8 {
    (c.sweep / 16) % 8
}

/// True when the sweep increases the frequency (bit 3 of NRx0 clear).
pub open spec fn spec_direction(c: PulseChannel) -> bool {
    (c.sweep / 8) % 2 == 0
}

pub open spec fn spec_step(c: PulseChannel) -> u8 {
    c.sweep % 8
}

pub open spec fn spec_wave_duty(c: PulseChannel) -> u8 {
    c.length_timer_duty_cycle / 64
}

pub open spec fn spec_initial_volume(envelope: u8) -> u8 {
    envelope / 16
}

/// True when the envelope increases the volume (bit 3 of NRx2).
pub open spec fn spec_env_direction(envelope: u8) -> bool {
    (envelope / 8) % 2 == 1
}

pub open spec fn spec_env_pace(envelope: u8) -> u8 {
    envelope % 8
}

/// The DAC is on when the upper five bits of NRx2 are not all zero.
pub open spec fn spec_dac_enabled(envelope: u8) -> bool {
    envelope >= 8
}

/// The 11-bit period.
pub open spec fn spec_period(low: u8, high_ctrl: u8) -> u16 {
    (low as int + (high_ctrl % 8) as int * 256) as u16
}

/// Whether the length counter is enabled (bit 6 of NRx4).
pub open spec fn spec_length_enable(high_ctrl: u8) -> bool {
    (high_ctrl / 64) % 2 == 1
}

/// The channel after a length-counter step.
pub open spec fn spec_length_tick(c: PulseChannel) -> PulseChannel {
    if spec_length_enable(c.period_high_ctrl) {
        let lt: u8 = if c.length_timer > 0 { (c.length_timer - 1) as u8 } else { 0 };
        PulseChannel { length_timer: lt, enabled: if lt == 0 { false } else { c.enabled }, ..c }
    } else {
        c
    }
}

/// The duty cycles: of the eight steps of a waveform, duty 0 has one high
/// step (12.5%), duty 1 two (25%), duty 2 four (50%) and duty 3 six (75%);
/// duty 3 is duty 1 inverted.
pub proof fn lemma_duty_cycles(duty: u8)
    requires
        duty < 4,
    ensures
        (if spec_waveform(duty, 0) { 1int } else { 0 }) + (if spec_waveform(duty, 1) { 1int } else { 0 })
            + (if spec_waveform(duty, 2) { 1int } else { 0 }) + (if spec_waveform(duty, 3) { 1int } else { 0 })
            + (if spec_waveform(duty, 4) { 1int } else { 0 }) + (if spec_waveform(duty, 5) { 1int } else { 0 })
            + (if spec_waveform(duty, 6) { 1int } else { 0 }) + (if spec_waveform(duty, 7) { 1int } else { 0 })
            == (if duty == 0 { 1int } else if duty == 1 { 2 } else if duty == 2 { 4 } else { 6 }),
        forall|p: u8| p < 8 ==> (spec_waveform(3, p) <==> !#[trigger] spec_waveform(1, p)),
{
}

/// The register fields: NRx0 holds the sweep pace in bits 6-4, its direction
/// in bit 3 (clear: the frequency rises) and its step in bits 2-0; NRx1 the
/// duty in bits 7-6; NRx2 the initial volume in bits 7-4, the envelope
/// direction in bit 3 (set: louder) and its pace in bits 2-0, the DAC being
/// on when bits 7-3 are not all clear; the period is NRx3 with bits 2-0 of
/// NRx4 above it.
pub proof fn lemma_register_fields(c: PulseChannel, env: u8, low: u8, high: u8)
    ensures
        spec_sweep_pace(c) == (c.sweep >> 4) & 7,
        spec_direction(c) <==> c.sweep & 0x08 == 0,
        spec_step(c) == c.sweep & 7,
        spec_wave_duty(c) == c.length_timer_duty_cycle >> 6,
        spec_initial_volume(env) == env >> 4,
        spec_env_direction(env) <==> env & 0x08 != 0,
        spec_env_pace(env) == env & 7,
        spec_dac_enabled(env) <==> env & 0xF8 != 0,
        spec_period(low, high) == (((high & 7) as u16) << 8) | (low as u16),
        spec_period(low, high) < 0x800,
{
    let sw = c.sweep;
    let d = c.length_timer_duty_cycle;
    assert(((sw >> 4) & 7 == (sw / 16) % 8) && ((sw & 0x08 == 0) <==> (sw / 8) % 2 == 0) && (sw & 7 == sw % 8)
        && (d >> 6 == d / 64) && (env >> 4 == env / 16) && ((env & 0x08 != 0) <==> (env / 8) % 2 == 1)
        && (env & 7 == env % 8) && ((env & 0xF8 != 0) <==> env >= 8)) by (bit_vector);
    let h = (high & 7) as u16;
    let l = low as u16;
    assert(h < 8 && (h << 8) | l == h * 256 + l) by (bit_vector)
        requires h == (high & 7) as u16, l == low as u16;
    assert(high & 7 == high % 8) by (bit_vector);
}

/// The volume envelope: at the end of a period (the timer runs out) of a
/// non-zero pace, the volume moves one step up or down (staying within 0 to
/// 15) and the timer restarts from the pace; otherwise the volume holds and
/// the timer counts down.
pub proof fn lemma_envelope_step(volume: u8, pace: u8, timer: u8, increasing: bool)
    requires
        volume < 16,
    ensures
        ({
            let (v, t) = spec_envelope(volume, pace, timer, increasing);
            &&& v < 16
            &&& (timer <= 1 && pace != 0) ==> {
                &&& t == pace
                &&& v == (if increasing { if volume == 15 { 15 } else { volume + 1 } } else { if volume == 0 { 0 } else { volume - 1 } })
            }
            &&& !(timer <= 1 && pace != 0) ==> v == volume && t as int == (if timer > 0 { timer - 1 } else { 0 })
        }),
{
}

/// The sweep's next frequency: the shadow frequency plus (rising) or minus
/// (falling) itself shifted right by the step; a result above 0x7FF turns the
/// channel off.
pub proof fn lemma_sweep_frequency(c: PulseChannel)
    requires
        c.shadow_register < 0x800,
    ensures
        ({
            let (d, f) = spec_calculate_frequency(c);
            let change = c.shadow_register >> ((c.sweep & 7) as u16);
            &&& (c.sweep & 0x08 == 0) ==> f == c.shadow_register + change
            &&& (c.sweep & 0x08 != 0) ==> f == c.shadow_register - change
            &&& f > 0x7FF ==> !d.enabled
            &&& f <= 0x7FF ==> d.enabled == c.enabled
        }),
{
    lemma_register_fields(c, 0, 0, 0);
    let s = c.shadow_register;
    let sw = c.sweep;
    vstd::arithmetic::power2::lemma2_to64();
    assert(s >> 0u16 == s / 1 && s >> 1u16 == s / 2 && s >> 2u16 == s / 4 && s >> 3u16 == s / 8
        && s >> 4u16 == s / 16 && s >> 5u16 == s / 32 && s >> 6u16 == s / 64 && s >> 7u16 == s / 128) by (bit_vector);
    assert(sw & 7 == sw % 8 && sw & 7 < 8) by (bit_vector);
}

/// The length enable flag is bit 6 of the channel's control register.
pub proof fn lemma_length_enable_bit(h: u8)
    ensures
        spec_length_enable(h) <==> (h & 0x40) != 0,
{
    assert(((h / 64) % 2 == 1) <==> (h & 0x40) != 0) by (bit_vector);
}

/// The length counter: with length enabled (bit 6 of NR14/NR24), a length
/// step counts the counter down (it stays at 0), and the channel keeps
/// playing only when it played and had more than one step left: when the
/// counter reaches 0 the channel is off. With length disabled nothing changes.
pub proof fn lemma_length_step(c: PulseChannel)
    ensures
        spec_length_enable(c.period_high_ctrl) ==> {
            let d = spec_length_tick(c);
            &&& d.length_timer as int == (if c.length_timer > 0 { c.length_timer - 1 } else { 0 })
            &&& d.enabled == (c.enabled && c.length_timer > 1)
            &&& d.length_timer == 0 ==> !d.enabled
        },
        !spec_length_enable(c.period_high_ctrl) ==> spec_length_tick(c) == c,
{
}

/// The new volume and timer after an envelope step.
pub open spec fn spec_envelope(volume: u8, pace: u8, timer: u8, increasing: bool) -> (u8, u8) {
    let t: u8 = if timer > 0 { (timer - 1) as u8 } else { 0 };
    if t == 0 && pace != 0 {
        let v: u8 = if increasing {
            if volume < 15 { (volume + 1) as u8 } else { volume }
        } else {
            if volume > 0 { (volume - 1) as u8 } else { 0 }
        };
        (v, pace)
    } else {
        (volume, t)
    }
}

/// The next frequency of the sweep, and the channel (which notes a decrease,
/// and turns off when the frequency leaves the 11-bit range).
pub open spec fn spec_calculate_frequency(c: PulseChannel) -> (PulseChannel, u16) {
    let change = (c.shadow_register as int / vstd::arithmetic::power2::pow2(spec_step(c) as nat) as int) as u16;
    let new_freq = if spec_direction(c) {
        vstd::wrapping::u16_specs::wrapping_add(c.shadow_register, change)
    } else {
        vstd::wrapping::u16_specs::wrapping_sub(c.shadow_register, change)
    };
    let c1 = if spec_direction(c) { c } else { PulseChannel { negate_has_been_used: true, ..c } };
    let c2 = if new_freq > 0x7FF { PulseChannel { enabled: false, ..c1 } } else { c1 };
    (c2, new_freq)
}

/// The first part of a trigger: the channel turns on if its DAC is on, and
/// an expired length counter restarts from 64.
pub open spec fn spec_trigger_length(c: PulseChannel, first_period: bool) -> PulseChannel {
    let c1 = PulseChannel { enabled: spec_dac_enabled(c.volume_envelope), ..c };
    if c1.length_timer == 0 {
        let c3 = PulseChannel { length_timer: 64, ..c1 };
        if first_period { spec_length_tick(c3) } else { c3 }
    } else {
        c1
    }
}

/// The second part of a trigger: the divider, envelope and sweep restart
/// from the registers.
pub open spec fn spec_trigger_setup(c2: PulseChannel) -> PulseChannel {
    let period = spec_period(c2.period_low, c2.period_high_ctrl);
    let pace = spec_env_pace(c2.volume_envelope);
    PulseChannel {
        timer: Timer { period: ((2048 - period) * 4) as u16, ..c2.timer },
        enveloppe_direction: spec_env_direction(c2.volume_envelope),
        enveloppe_timer: if pace == 0 { 8 } else { pace },
        enveloppe_pace: pace,
        volume: spec_initial_volume(c2.volume_envelope),
        waveform_pointer: 0,
        shadow_register: period,
        sweep_timer: if spec_sweep_pace(c2) == 0 { 8 } else { spec_sweep_pace(c2) },
        sweep_enabled: spec_sweep_pace(c2) != 0 || spec_step(c2) != 0,
        negate_has_been_used: false,
        ..c2
    }
}

/// The channel after the trigger bit is written.
pub open spec fn spec_trigger(c: PulseChannel, first_period: bool) -> PulseChannel {
    let c4 = spec_trigger_setup(spec_trigger_length(c, first_period));
    if spec_step(c4) != 0 { spec_calculate_frequency(c4).0 } else { c4 }
}

/// The channel after `value` is written to its register `address` (0 to 4).
pub open spec fn spec_pulse_write(c: PulseChannel, address: u16, value: u8, first_period: bool) -> PulseChannel {
    if address == 0 {
        let prev_dir = spec_direction(c);
        let c1 = PulseChannel { sweep: value % 128, ..c };
        if c1.sweep_enabled && !prev_dir && spec_direction(c1) && c1.negate_has_been_used {
            PulseChannel { enabled: false, ..c1 }
        } else {
            c1
        }
    } else if address == 1 {
        PulseChannel { length_timer_duty_cycle: value, length_timer: (64 - value % 64) as u8, ..c }
    } else if address == 2 {
        PulseChannel {
            volume_envelope: value,
            enabled: if !spec_dac_enabled(value) { false } else { c.enabled },
            ..c
        }
    } else if address == 3 {
        PulseChannel { period_low: value, ..c }
    } else {
        let old_length_enable = spec_length_enable(c.period_high_ctrl);
        let c1 = PulseChannel { period_high_ctrl: value & 0xC7, ..c };
        let c2 = if !old_length_enable && spec_length_enable(c1.period_high_ctrl) && c1.length_timer != 0 && first_period {
            spec_length_tick(c1)
        } else {
            c1
        };
        if value >= 0x80 { spec_trigger(c2, first_period) } else { c2 }
    }
}

/// The channel after a sweep step.
pub open spec fn spec_sweep_tick(c: PulseChannel) -> PulseChannel {
    let t: u8 = if c.sweep_timer > 0 { (c.sweep_timer - 1) as u8 } else { 0 };
    let c1 = PulseChannel { sweep_timer: t, ..c };
    if t != 0 {
        c1
    } else {
        let c2 = PulseChannel { sweep_timer: if spec_sweep_pace(c1) == 0 { 8 } else { spec_sweep_pace(c1) }, ..c1 };
        if c2.sweep_enabled && spec_sweep_pace(c2) > 0 {
            let (c3, new_freq) = spec_calculate_frequency(c2);
            if new_freq < 0x800 && spec_step(c3) > 0 {
                let c4 = PulseChannel {
                    shadow_register: new_freq,
                    period_low: (new_freq % 256) as u8,
                    period_high_ctrl: ((c3.period_high_ctrl / 8) * 8 + (new_freq / 256) % 8) as u8,
                    ..c3
                };
                spec_calculate_frequency(c4).0
            } else {
                c3
            }
        } else {
            c2
        }
    }
}

/// What reading register `address` (0 to 4) gives.
pub open spec fn spec_pulse_read(c: PulseChannel, address: u16) -> u8 {
    if address == 0 {
        c.sweep | 0x80
    } else if address == 1 {
        c.length_timer_duty_cycle | 0x3F
    } else if address == 2 {
        c.volume_envelope
    } else if address == 3 {
        0xFF
    } else {
        c.period_high_ctrl | 0xBF
    }
}

impl PulseChannel {
    /// The invariant: the waveform step and the volume stay in range.
    pub open spec fn wf(&self) -> bool {
        self.waveform_pointer < 8 && self.volume < 16
    }

    /// A channel with every register and counter at zero.
    pub fn zero() -> (r: PulseChannel)
        ensures
            r.wf(),
            r == (PulseChannel {
                sweep: 0,
                length_timer_duty_cycle: 0,
                volume_envelope: 0,
                period_low: 0,
                period_high_ctrl: 0,
                enabled: false,
                sweep_enabled: false,
                sweep_timer: 0,
                shadow_register: 0,
                negate_has_been_used: false,
                volume: 0,
                enveloppe_pace: 0,
                enveloppe_timer: 0,
                enveloppe_direction: false,
                length_timer: 0,
                timer: Timer { period: 0, value: 0 },
                waveform_pointer: 0,
            }),
    {
        PulseChannel {
            sweep: 0,
            length_timer_duty_cycle: 0,
            volume_envelope: 0,
            period_low: 0,
            period_high_ctrl: 0,
            enabled: false,
            sweep_enabled: false,
            sweep_timer: 0,
            shadow_register: 0,
            negate_has_been_used: false,
            volume: 0,
            enveloppe_pace: 0,
            enveloppe_timer: 0,
            enveloppe_direction: false,
            length_timer: 0,
            timer: Timer::new(),
            waveform_pointer: 0,
        }
    }

    /// The channel in its state after the boot ROM (channel 1 when `ch1`, else channel 2).
    pub fn new(ch1: bool) -> (r: PulseChannel)
        ensures
            r.wf(),
            r == (if ch1 {
                PulseChannel {
                    sweep: 0x80,
                    length_timer_duty_cycle: 0xBF,
                    volume_envelope: 0xF3,
                    period_low: 0xFF,
                    period_high_ctrl: 0xBF,
                    enabled: true,
                    ..PulseChannel::zero_spec()
                }
            } else {
                PulseChannel {
                    sweep: 0x80,
                    length_timer_duty_cycle: 0x3F,
                    volume_envelope: 0x00,
                    period_low: 0xFF,
                    period_high_ctrl: 0xBF,
                    ..PulseChannel::zero_spec()
                }
            }),
    {
        let z = PulseChannel::zero();
        if ch1 {
            PulseChannel {
                sweep: 0x80,
                length_timer_duty_cycle: 0xBF,
                volume_envelope: 0xF3,
                period_low: 0xFF,
                period_high_ctrl: 0xBF,
                enabled: true,
                ..z
            }
        } else {
            PulseChannel {
                sweep: 0x80,
                length_timer_duty_cycle: 0x3F,
                volume_envelope: 0x00,
                period_low: 0xFF,
                period_high_ctrl: 0xBF,
                ..z
            }
        }
    }

    /// A channel with every register and counter at zero.
    pub open spec fn zero_spec() -> PulseChannel {
        PulseChannel {
            sweep: 0,
            length_timer_duty_cycle: 0,
            volume_envelope: 0,
            period_low: 0,
            period_high_ctrl: 0,
            enabled: false,
            sweep_enabled: false,
            sweep_timer: 0,
            shadow_register: 0,
            negate_has_been_used: false,
            volume: 0,
            enveloppe_pace: 0,
            enveloppe_timer: 0,
            enveloppe_direction: false,
            length_timer: 0,
            timer: Timer { period: 0, value: 0 },
            waveform_pointer: 0,
        }
    }

    /// Reads register `address` (0 to 4).
    pub fn read(&self, address: u16) -> (r: u8)
        requires
            address <= 4,
        ensures
            r == spec_pulse_read(*self, address),
    {
        match address {
            0 => self.sweep | 0x80,
            1 => self.length_timer_duty_cycle | 0x3F,
            2 => self.volume_envelope,
            3 => 0xFF,
            _ => self.period_high_ctrl | 0xBF,
        }
    }

    fn sweep_pace(&self) -> (r: u8)
        ensures
            r == spec_sweep_pace(*self),
    {
        let s = self.sweep;
        proof { crate::bits::lemma_u8_bits(s); }
        assert((s >> 4) & 0b111 == (s / 16) % 8);
        (self.sweep >> 4) & 0b111
    }

    fn direction(&self) -> (r: bool)
        ensures
            r == spec_direction(*self),
    {
        let s = self.sweep;
        proof { crate::bits::lemma_u8_bits(s); }
        assert(((s & 0b1000) == 0) == ((s / 8) % 2 == 0));
        (self.sweep & 0b1000) == 0
    }

    fn step(&self) -> (r: u8)
        ensures
            r == spec_step(*self),
            r < 8,
    {
        let s = self.sweep;
        proof { crate::bits::lemma_u8_bits(s); }
        assert(s & 0b111 == s % 8);
        self.sweep & 0b111
    }

    fn wave_duty(&self) -> (r: u8)
        ensures
            r == spec_wave_duty(*self),
    {
        let s = self.length_timer_duty_cycle;
        proof { crate::bits::lemma_u8_bits(s); }
        assert((s >> 6) & 0b11 == s / 64);
        (self.length_timer_duty_cycle >> 6) & 0b11
    }

    fn initial_length_timer(&self) -> (r: u8)
        ensures
            r == self.length_timer_duty_cycle % 64,
    {
        let s = self.length_timer_duty_cycle;
        proof { crate::bits::lemma_u8_bits(s); }
        assert(s & 0b111111 == s % 64);
        self.length_timer_duty_cycle & 0b111111
    }

    fn initial_volume(&self) -> (r: u8)
        ensures
            r == spec_initial_volume(self.volume_envelope),
            r < 16,
    {
        let s = self.volume_envelope;
        proof { crate::bits::lemma_u8_bits(s); }
        assert((s >> 4) & 0b1111 == s / 16);
        (self.volume_envelope >> 4) & 0b1111
    }

    fn enveloppe_direction(&self) -> (r: bool)
        ensures
            r == spec_env_direction(self.volume_envelope),
    {
        let s = self.volume_envelope;
        proof { crate::bits::lemma_u8_bits(s); }
        assert((s & 0b1000 != 0) == ((s / 8) % 2 == 1));
        self.volume_envelope & 0b1000 != 0
    }

    fn enveloppe_pace(&self) -> (r: u8)
        ensures
            r == spec_env_pace(self.volume_envelope),
    {
        let s = self.volume_envelope;
        proof { crate::bits::lemma_u8_bits(s); }
        assert(s & 0b111 == s % 8);
        self.volume_envelope & 0b111
    }

    fn is_dac_enabled(&self) -> (r: bool)
        ensures
            r == spec_dac_enabled(self.volume_envelope),
    {
        let s = self.volume_envelope;
        proof { crate::bits::lemma_u8_bits(s); }
        assert((s & 0xF8 != 0) == (s >= 8));
        self.volume_envelope & 0xF8 != 0
    }

    fn period(&self) -> (r: u16)
        ensures
            r == spec_period(self.period_low, self.period_high_ctrl),
            r <= 0x7FF,
    {
        let l = self.period_low;
        let h = self.period_high_ctrl;
        assert((l as u16 | ((h as u16 & 0b111) << 8)) == (l as int + (h % 8) as int * 256) as u16
            && (l as int + (h % 8) as int * 256) <= 0x7FF) by (bit_vector);
        self.period_low as u16 | ((self.period_high_ctrl as u16 & 0b111) << 8)
    }

    fn length_enable(&self) -> (r: bool)
        ensures
            r == spec_length_enable(self.period_high_ctrl),
    {
        let h = self.period_high_ctrl;
        proof { crate::bits::lemma_u8_bits(h); }
        assert((h & 0b1000000 != 0) == ((h / 64) % 2 == 1));
        self.period_high_ctrl & 0b1000000 != 0
    }

    /// Writes register `address` (0 to 4); `first_period` tells whether the
    /// frame sequencer is in the first half of a length period.
    pub fn write(&mut self, address: u16, value: u8, first_period: bool)
        requires
            old(self).wf(),
            address <= 4,
        ensures
            final(self).wf(),
            *final(self) == spec_pulse_write(*old(self), address, value, first_period),
    {
        if address == 0 {
            let prev_dir = self.direction();
            proof { crate::bits::lemma_u8_bits(value); }
            assert(value & 0x7F == value % 128);
            self.sweep = value & 0x7F;
            if self.sweep_enabled {
                if !prev_dir && self.direction() && self.negate_has_been_used {
                    self.enabled = false;
                }
            }
        } else if address == 1 {
            self.length_timer_duty_cycle = value;
            self.length_timer = 64 - self.initial_length_timer();
        } else if address == 2 {
            self.volume_envelope = value;
            if !self.is_dac_enabled() {
                self.enabled = false;
            }
        } else if address == 3 {
            self.period_low = value;
        } else {
            let old_length_enable = self.length_enable();
            self.period_high_ctrl = value & 0xC7;
            if !old_length_enable && self.length_enable() && self.length_timer != 0 {
                if first_period {
                    self.length_tick();
                }
            }
            proof { crate::bits::lemma_u8_bits(value); }
            assert((value & 0b10000000 != 0) == (value >= 0x80));
            if value & 0b10000000 != 0 {
                self.trigger(first_period);
            }
        }
    }

    /// Restarts the channel (trigger bit written).
    fn trigger(&mut self, first_period: bool)
        requires
            old(self).wf(),
        ensures
            final(self).wf(),
            *final(self) == spec_trigger(*old(self), first_period),
    {
        self.trigger_length(first_period);
        self.trigger_setup();
        if self.step() != 0 {
            self.calculate_frequency();
        }
    }

    fn trigger_length(&mut self, first_period: bool)
        requires
            old(self).wf(),
        ensures
            final(self).wf(),
            *final(self) == spec_trigger_length(*old(self), first_period),
    {
        self.enabled = self.is_dac_enabled();
        if self.length_timer == 0 {
            self.length_timer = 64;
            if first_period {
                self.length_tick();
            }
        }
    }

    fn trigger_setup(&mut self)
        requires
            old(self).wf(),
        ensures
            final(self).wf(),
            *final(self) == spec_trigger_setup(*old(self)),
    {
        let period = self.period();
        self.timer.set_period((2048 - period) * 4);
        self.enveloppe_direction = self.enveloppe_direction();
        let pace = self.enveloppe_pace();
        self.enveloppe_timer = if pace == 0 { 8 } else { pace };
        self.enveloppe_pace = pace;
        self.volume = self.initial_volume();
        self.waveform_pointer = 0;
        self.shadow_register = period;
        let sp = self.sweep_pace();
        self.sweep_timer = if sp == 0 { 8 } else { sp };
        self.sweep_enabled = sp != 0 || self.step() != 0;
        self.negate_has_been_used = false;
    }

    /// One tick of the period divider; advances the waveform when it fires.
    pub fn tick(&mut self)
        requires
            old(self).wf(),
        ensures
            final(self).wf(),
            ({
                let (t, fired) = spec_apu_timer_tick(old(self).timer);
                *final(self) == PulseChannel {
                    timer: t,
                    waveform_pointer: if fired { ((old(self).waveform_pointer + 1) % 8) as u8 } else { old(self).waveform_pointer },
                    ..*old(self)
                }
            }),
    {
        if self.timer.tick() {
            self.waveform_pointer = (self.waveform_pointer + 1) % 8;
        }
    }

    /// The current sample, 0 to 15, or `None` when the channel is off.
    pub fn output_level(&self) -> (r: Option<u8>)
        requires
            self.wf(),
        ensures
            r == (if self.enabled {
                Some(if spec_waveform(spec_wave_duty(*self), self.waveform_pointer) { self.volume } else { 0u8 })
            } else {
                None::<u8>
            }),
    {
        if self.enabled {
            let duty = self.wave_duty();
            if waveform(duty, self.waveform_pointer) {
                Some(self.volume)
            } else {
                Some(0)
            }
        } else {
            None
        }
    }

    /// One step of the length counter.
    pub fn length_tick(&mut self)
        ensures
            *final(self) == spec_length_tick(*old(self)),
    {
        if self.length_enable() {
            self.length_timer = self.length_timer.saturating_sub(1);
            if self.length_timer == 0 {
                self.enabled = false;
            }
        }
    }

    /// One step of the volume envelope.
    pub fn enveloppe_tick(&mut self)
        requires
            old(self).wf(),
        ensures
            final(self).wf(),
            ({
                let (v, t) = spec_envelope(old(self).volume, old(self).enveloppe_pace, old(self).enveloppe_timer, old(self).enveloppe_direction);
                *final(self) == PulseChannel { volume: v, enveloppe_timer: t, ..*old(self) }
            }),
    {
        self.enveloppe_timer = self.enveloppe_timer.saturating_sub(1);
        if self.enveloppe_timer == 0 && self.enveloppe_pace != 0 {
            if self.enveloppe_direction {
                if self.volume < 15 {
                    self.volume = self.volume + 1;
                }
            } else {
                self.volume = self.volume.saturating_sub(1);
            }
            self.enveloppe_timer = self.enveloppe_pace;
        }
    }

    /// One step of the frequency sweep.
    pub fn sweep_tick(&mut self)
        requires
            old(self).wf(),
        ensures
            final(self).wf(),
            *final(self) == spec_sweep_tick(*old(self)),
    {
        self.sweep_timer = self.sweep_timer.saturating_sub(1);
        if self.sweep_timer == 0 {
            let sp = self.sweep_pace();
            self.sweep_timer = if sp == 0 { 8 } else { sp };
            if self.sweep_enabled && self.sweep_pace() > 0 {
                let new_freq = self.calculate_frequency();
                if new_freq < 0x800 && self.step() > 0 {
                    self.shadow_register = new_freq;
                    proof { crate::bits::lemma_u16_bits(new_freq); }
                    assert(new_freq as u8 == (new_freq % 256) as u8);
                    let h = self.period_high_ctrl;
                    assert((h & 0xF8) | ((new_freq >> 8) as u8 & 0x7) == ((h / 8) * 8 + (new_freq / 256) % 8) as u8) by (bit_vector)
                        requires new_freq < 0x800;
                    self.period_low = new_freq as u8;
                    self.period_high_ctrl = (self.period_high_ctrl & 0xF8) | ((new_freq >> 8) as u8 & 0x7);
                    let _ = self.calculate_frequency();
                }
            }
        }
    }

    pub fn is_enabled(&self) -> (r: bool)
        ensures
            r == self.enabled,
    {
        self.enabled
    }

    /// Clears the registers when the APU is powered off.
    pub fn power_off(&mut self)
        ensures
            *final(self) == (PulseChannel {
                sweep: 0,
                length_timer_duty_cycle: 0,
                volume_envelope: 0,
                period_low: 0,
                period_high_ctrl: 0,
                enabled: false,
                ..*old(self)
            }),
    {
        self.sweep = 0;
        self.length_timer_duty_cycle = 0;
        self.volume_envelope = 0;
        self.period_low = 0;
        self.period_high_ctrl = 0;
        self.enabled = false;
    }

    /// Computes the next frequency of the sweep (see `spec_calculate_frequency`).
    fn calculate_frequency(&mut self) -> (r: u16)
        ensures
            (*final(self), r) == spec_calculate_frequency(*old(self)),
    {
        let step = self.step();
        let sh = self.shadow_register;
        proof {
            vstd::arithmetic::power2::lemma2_to64();
            lemma_shr_pow2(sh, step);
        }
        let change = self.shadow_register >> step;
        let new_freq = if self.direction() {
            self.shadow_register.wrapping_add(change)
        } else {
            self.negate_has_been_used = true;
            self.shadow_register.wrapping_sub(change)
        };
        if new_freq > 0x7FF {
            self.enabled = false;
        }
        new_freq
    }
}

/// A right shift divides by a power of two.
pub proof fn lemma_shr_pow2(x: u16, s: u8)
    requires
        s < 8,
    ensures
        x >> s == (x as int / vstd::arithmetic::power2::pow2(s as nat) as int) as u16,
{
    vstd::arithmetic::power2::lemma2_to64();
    crate::bits::lemma_u16_shr(x);
}

} // verus!
