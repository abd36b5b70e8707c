use vstd::prelude::*;

pub mod timer;
pub mod dma;
pub mod gamepad;
pub mod lcd;
pub mod apu;

use timer::{Timer, spec_timer_tick, spec_timer_write, spec_timer_read};
use dma::{DMA, spec_dma_tick, spec_dma_start, spec_transferring};
use gamepad::{Gamepad, spec_output};
use lcd::LCD;
use apu::{APU, spec_apu_tick};
use crate::cpu::interrupts::{InterruptType, interrupt_bit};
use crate::utils::ColorMode;

verus! {

// Start | End   | 1st app | Purpose
// $FF00 |       |   DMG   | Joypad input
// $FF01 | $FF02 |   DMG   | Serial transfer
// $FF04 | $FF07 |   DMG   | Timer and divider
// $FF0F |       |   DMG   | Interrupts
// $FF10 | $FF26 |   DMG   | Audio
// $FF30 | $FF3F |   DMG   | Wave pattern
// $FF40 | $FF4B |   DMG   | LCD Control, Status, Position, Scrolling, and Palettes

/// The I/O registers (`0xFF00..0xFF80`) and the devices behind them.
#[derive(Clone, Copy)]
pub struct IO {
    pub gamepad: Gamepad,
    pub serial: [u8; 2],
    pub timer: Timer,
    pub if_register: u8,
    pub lcd: LCD,
    pub dma: DMA,
    pub apu: APU,
    /// The divider bit that clocks the audio frame sequencer, at the last tick.
    pub apu_div_bit: bool,
}

/// Bit 12 of the divider, whose falling edges clock the audio frame sequencer.
pub open spec fn spec_apu_div_bit(div: u16) -> bool {
    (div / 4096) % 2 == 1
}

impl IO {
    pub open spec fn wf(&self) -> bool {
        &&& self.serial@.len() == 2
        &&& self.timer.wf()
        &&& self.lcd.wf()
        &&& self.apu.wf()
    }

    /// What reading `address` gives (0 for the registers that are not implemented).
    pub open spec fn spec_read(&self, address: u16) -> u8 {
        if address == 0xFF00 {
            spec_output(self.gamepad)
        } else if address == 0xFF01 {
            self.serial@[0]
        } else if address == 0xFF02 {
            self.serial@[1]
        } else if 0xFF04 <= address <= 0xFF07 {
            spec_timer_read(self.timer, address)
        } else if address == 0xFF0F {
            self.if_register
        } else if 0xFF10 <= address <= 0xFF3F {
            self.apu.spec_read(address)
        } else if 0xFF40 <= address <= 0xFF4B {
            self.lcd.spec_reg(address)
        } else {
            0
        }
    }

    /// What writing `value` at `address` does: `new` is the I/O after the write.
    pub open spec fn spec_write(&self, new: &Self, address: u16, value: u8) -> bool {
        &&& new.gamepad.gamepad_state == self.gamepad.gamepad_state
        &&& new.apu_div_bit == self.apu_div_bit
        &&& if address == 0xFF00 {
                &&& new.gamepad.button_select == ((value / 32) % 2 == 1)
                &&& new.gamepad.direction_select == ((value / 16) % 2 == 1)
                &&& *new == IO { gamepad: new.gamepad, ..*self }
            } else if address == 0xFF01 {
                new.serial@ == self.serial@.update(0, value) && *new == IO { serial: new.serial, ..*self }
            } else if address == 0xFF02 {
                new.serial@ == self.serial@.update(1, value) && *new == IO { serial: new.serial, ..*self }
            } else if 0xFF04 <= address <= 0xFF07 {
                *new == IO { timer: spec_timer_write(self.timer, address, value), ..*self }
            } else if address == 0xFF0F {
                *new == IO { if_register: value, ..*self }
            } else if 0xFF10 <= address <= 0xFF3F {
                self.apu.spec_write(&new.apu, address, value) && *new == IO { apu: new.apu, ..*self }
            } else if 0xFF40 <= address <= 0xFF4B {
                &&& self.lcd.spec_write(&new.lcd, address, value)
                &&& new.dma == (if address == 0xFF46 { spec_dma_start(self.dma, value) } else { self.dma })
                &&& *new == IO { lcd: new.lcd, dma: new.dma, ..*self }
            } else {
                *new == *self
            }
    }

    /// The I/O after one clock tick of the timer: a reload requests the timer interrupt.
    pub open spec fn spec_tick_timer(&self) -> IO {
        let (t, it) = spec_timer_tick(self.timer);
        IO {
            timer: t,
            if_register: if it is Some { self.if_register | interrupt_bit(InterruptType::Timer) } else { self.if_register },
            ..*self
        }
    }

    /// The I/O after one clock tick of the audio unit: the frame sequencer
    /// steps on falling edges of bit 12 of the divider.
    pub open spec fn spec_tick_apu(&self) -> IO {
        let bit = spec_apu_div_bit(self.timer.div);
        IO { apu: spec_apu_tick(self.apu, self.apu_div_bit && !bit), apu_div_bit: bit, ..*self }
    }

    pub fn new(color_mode: ColorMode) -> (r: IO)
        ensures
            r.wf(),
            r.gamepad == Gamepad::new_spec(),
            r.serial@ == seq![0u8, 0],
            r.timer == Timer::new_spec(),
            r.if_register == 0,
            r.lcd.color_mode == color_mode,
            r.dma == (DMA { active: false, byte: 0, value: 0, start_delay: 0, restarted: false }),
            r.apu.audio_master_ctrl == 0,
    {
        let r = IO {
            gamepad: Gamepad::new(),
            serial: [0; 2],
            timer: Timer::new(),
            if_register: 0,
            lcd: LCD::new(color_mode),
            dma: DMA::new(),
            apu: APU::new(),
            apu_div_bit: false,
        };
        assert(r.serial@ =~= seq![0u8, 0]);
        r
    }

    /// Reads an I/O register.
    pub fn read(&self, address: u16) -> (r: u8)
        requires
            self.wf(),
            0xFF00 <= address < 0xFF80,
        ensures
            r == self.spec_read(address),
    {
        if address == 0xFF00 {
            self.gamepad.get_output()
        } else if address == 0xFF01 {
            self.serial[0]
        } else if address == 0xFF02 {
            self.serial[1]
        } else if 0xFF04 <= address && address <= 0xFF07 {
            self.timer.read(address)
        } else if address == 0xFF0F {
            self.if_register
        } else if 0xFF10 <= address && address <= 0xFF3F {
            self.apu.read(address)
        } else if 0xFF40 <= address && address <= 0xFF4B {
            self.lcd.read(address)
        } else {
            0
        }
    }

    /// Writes an I/O register; a write to `0xFF46` also starts an OAM DMA transfer.
    pub fn write(&mut self, address: u16, value: u8)
        requires
            old(self).wf(),
            0xFF00 <= address < 0xFF80,
        ensures
            final(self).wf(),
            old(self).spec_write(final(self), address, value),
    {
        if address == 0xFF00 {
            self.gamepad.set_sel(value);
        } else if address == 0xFF01 {
            self.serial = [value, self.serial[1]];
            assert(self.serial@ =~= old(self).serial@.update(0, value));
        } else if address == 0xFF02 {
            self.serial = [self.serial[0], value];
            assert(self.serial@ =~= old(self).serial@.update(1, value));
        } else if 0xFF04 <= address && address <= 0xFF07 {
            self.timer.write(address, value);
        } else if address == 0xFF0F {
            self.if_register = value;
        } else if 0xFF10 <= address && address <= 0xFF3F {
            self.apu.write(address, value);
        } else if 0xFF40 <= address && address <= 0xFF4B {
            if address == 0xFF46 {
                self.dma.start(value);
            }
            self.lcd.write(address, value);
        }
    }

    /// One clock tick of the timer.
    pub fn tick_timer(&mut self)
        requires
            old(self).wf(),
        ensures
            final(self).wf(),
            *final(self) == old(self).spec_tick_timer(),
    {
        let interrupt = self.timer.tick();
        if let Some(interrupt) = interrupt {
            self.if_register = self.if_register | interrupt.bit();
        }
    }

    /// One clock tick of the audio unit.
    pub fn tick_apu(&mut self)
        requires
            old(self).wf(),
        ensures
            final(self).wf(),
            *final(self) == old(self).spec_tick_apu(),
    {
        let div = self.timer.div;
        proof { crate::bits::lemma_u16_bits(div); }
        let bit = (self.timer.div >> 12) & 1 == 1;
        let falling = self.apu_div_bit && !bit;
        self.apu.tick(falling);
        self.apu_div_bit = bit;
    }

    /// Requests an interrupt (sets its bit in IF).
    pub fn request_interrupt(&mut self, interrupt: InterruptType)
        ensures
            *final(self) == (IO { if_register: old(self).if_register | interrupt_bit(interrupt), ..*old(self) }),
    {
        self.if_register = self.if_register | interrupt.bit();
    }

    /// One machine cycle of the DMA unit; returns the offset and source page of the byte to copy.
    pub fn tick_dma(&mut self) -> (r: Option<(u8, u8)>)
        ensures
            (final(self).dma, r) == spec_dma_tick(old(self).dma),
            *final(self) == (IO { dma: final(self).dma, ..*old(self) }),
    {
        self.dma.tick()
    }

    pub fn dma_transferring(&self) -> (r: bool)
        ensures
            r == spec_transferring(self.dma),
    {
        self.dma.transferring()
    }
}

} // verus!
