use vstd::prelude::*;
use crate::cpu::interrupts::InterruptType;

verus! {

/// The divider and the programmable timer (registers `0xFF04..=0xFF07`).
#[derive(Debug, Clone, Copy, PartialEq, Eq)]
pub struct Timer {
    pub div: u16,
    pub tima: u8,
    pub tma: u8,
    pub tac: u8,

    pub previous_result: bool,
    pub tima_overflow: bool,
    pub tima_overflow_counter: u8,
}

/// The bit of the divider that clocks the timer, for the clock select bits of `tac`.
pub open spec fn spec_selected_bit(div: u16, tac: u8) -> bool {
    let sel = tac % 4;
    let bit: nat = if sel == 0 { 9 } else if sel == 1 { 3 } else if sel == 2 { 5 } else { 7 };
    (div as nat / vstd::arithmetic::power2::pow2(bit)) % 2 == 1
}

/// Whether the timer is enabled (bit 2 of `tac`).
pub open spec fn spec_timer_enable(tac: u8) -> bool {
    (tac / 4) % 2 == 1
}

/// The timer after a falling edge of its input: `tima` counts up; on overflow
/// the reload is scheduled.
pub open spec fn spec_count(t: Timer) -> Timer {
    if t.tima == 255 {
        Timer { tima: 0, tima_overflow: true, tima_overflow_counter: 0, ..t }
    } else {
        Timer { tima: (t.tima + 1) as u8, ..t }
    }
}

/// The timer after its input changed to `result`: a falling edge counts,
/// unless a reload is pending.
pub open spec fn spec_edge(t: Timer, result: bool) -> Timer {
    let t2 = if !t.tima_overflow && t.previous_result && !result { spec_count(t) } else { t };
    Timer { previous_result: result, ..t2 }
}

/// The timer input for the given registers.
pub open spec fn spec_input(div: u16, tac: u8) -> bool {
    spec_timer_enable(tac) && spec_selected_bit(div, tac)
}

/// The timer after one clock tick, and the interrupt it requests.
pub open spec fn spec_timer_tick(t: Timer) -> (Timer, Option<InterruptType>) {
    let div = vstd::wrapping::u16_specs::wrapping_add(t.div, 1);
    let t1 = Timer { div, ..t };
    if t1.tima_overflow && t1.tima_overflow_counter + 1 == 4 {
        (Timer { tima: t1.tma, tima_overflow: false, tima_overflow_counter: 0, ..t1 }, Some(InterruptType::Timer))
    } else {
        let t2 = if t1.tima_overflow {
            Timer { tima_overflow_counter: (t1.tima_overflow_counter + 1) as u8, ..t1 }
        } else {
            t1
        };
        (spec_edge(t2, spec_input(t2.div, t2.tac)), None)
    }
}

/// The timer after `value` is written at `address`.
pub open spec fn spec_timer_write(t: Timer, address: u16, value: u8) -> Timer {
    if address == 0xFF04 {
        let t1 = Timer { div: 0, ..t };
        spec_edge(t1, spec_input(0, t.tac))
    } else if address == 0xFF05 {
        if t.tima_overflow {
            Timer { tima: value, tima_overflow: false, tima_overflow_counter: 0, ..t }
        } else {
            Timer { tima: value, ..t }
        }
    } else if address == 0xFF06 {
        Timer { tma: value, ..t }
    } else {
        let tac = value | 0b11111000;
        spec_edge(Timer { tac, ..t }, spec_input(t.div, tac))
    }
}

/// What reading `address` gives.
pub open spec fn spec_timer_read(t: Timer, address: u16) -> u8 {
    if address == 0xFF04 {
        (t.div / 256) as u8
    } else if address == 0xFF05 {
        t.tima
    } else if address == 0xFF06 {
        t.tma
    } else {
        t.tac | 0b11111000
    }
}

impl Timer {
    /// The invariant of the reload delay.
    pub open spec fn wf(&self) -> bool {
        self.tima_overflow_counter < 4
    }

    /// The timer after the boot ROM.
    pub open spec fn new_spec() -> Timer {
        Timer {
            div: 0xABCF,
            tima: 0,
            tma: 0,
            tac: 0,
            previous_result: false,
            tima_overflow: false,
            tima_overflow_counter: 0,
        }
    }

    pub fn new() -> (r: Timer)
        ensures
            r.wf(),
            r == Timer::new_spec(),
    {
        Timer {
            div: 0xABCF,
            tima: 0,
            tma: 0,
            tac: 0,
            previous_result: false,
            tima_overflow: false,
            tima_overflow_counter: 0,
        }
    }

    /// Whether the divider bit selected by `tac` is set.
    pub fn selected_bit(&self) -> (r: bool)
        ensures
            r == spec_selected_bit(self.div, self.tac),
    {
        let div = self.div;
        let tac = self.tac;
        proof { lemma_selected_bit(div, tac); }
        match self.tac & 0b11 {
            0b00 => (self.div & (1 << 9)) != 0,
            0b01 => (self.div & (1 << 3)) != 0,
            0b10 => (self.div & (1 << 5)) != 0,
            _ => (self.div & (1 << 7)) != 0,
        }
    }

    /// The timer input: enabled and selected bit set.
    fn input(&self) -> (r: bool)
        ensures
            r == spec_input(self.div, self.tac),
    {
        let tac = self.tac;
        proof { crate::bits::lemma_u8_bits(tac); crate::bits::lemma_u8_pow2(); }
        assert(((tac & (1u8 << 2)) != 0) == ((tac / 4) % 2 == 1));
        let timer_enable = (self.tac & (1 << 2)) != 0;
        timer_enable && self.selected_bit()
    }

    /// Counts a falling edge of the timer input.
    fn count(&mut self)
        ensures
            *final(self) == spec_count(*old(self)),
    {
        if self.tima == 255 {
            self.tima = 0;
            self.tima_overflow = true;
            self.tima_overflow_counter = 0;
        } else {
            self.tima = self.tima + 1;
        }
    }

    /// Takes the new timer input into account.
    fn edge(&mut self, result: bool)
        ensures
            *final(self) == spec_edge(*old(self), result),
    {
        if !self.tima_overflow && self.previous_result && !result {
            self.count();
        }
        self.previous_result = result;
    }

    /// One clock tick; returns the timer interrupt when `tima` was reloaded.
    pub fn tick(&mut self) -> (r: Option<InterruptType>)
        requires
            old(self).wf(),
        ensures
            final(self).wf(),
            (*final(self), r) == spec_timer_tick(*old(self)),
    {
        self.div = self.div.wrapping_add(1);
        if self.tima_overflow {
            self.tima_overflow_counter = self.tima_overflow_counter + 1;
            if self.tima_overflow_counter == 4 {
                self.tima = self.tma;
                self.tima_overflow = false;
                self.tima_overflow_counter = 0;
                return Some(InterruptType::Timer);
            }
        }
        let result = self.input();
        self.edge(result);
        None
    }

    /// Writes a timer register (`0xFF04..=0xFF07`).
    pub fn write(&mut self, address: u16, value: u8)
        requires
            old(self).wf(),
            0xFF04 <= address <= 0xFF07,
        ensures
            final(self).wf(),
            *final(self) == spec_timer_write(*old(self), address, value),
    {
        if address == 0xFF04 {
            self.div = 0;
            let new_result = self.input();
            self.edge(new_result);
        } else if address == 0xFF05 {
            self.tima = value;
            if self.tima_overflow {
                self.tima_overflow = false;
                self.tima_overflow_counter = 0;
            }
        } else if address == 0xFF06 {
            self.tma = value;
        } else {
            self.tac = value | 0b11111000;
            let new_result = self.input();
            self.edge(new_result);
        }
    }

    /// Reads a timer register (`0xFF04..=0xFF07`).
    pub fn read(&self, address: u16) -> (r: u8)
        requires
            0xFF04 <= address <= 0xFF07,
        ensures
            r == spec_timer_read(*self, address),
    {
        if address == 0xFF04 {
            let d = self.div;
            proof { crate::bits::lemma_u16_bits(d); }
            (self.div >> 8) as u8
        } else if address == 0xFF05 {
            self.tima
        } else if address == 0xFF06 {
            self.tma
        } else {
            self.tac | 0b11111000
        }
    }
}

/// The masks of `selected_bit` test the bit that `spec_selected_bit` names.
/// The period, in clocks, of the timer for the clock select bits of `tac`:
/// 1024 (4096 Hz), 16, 64 or 256.
pub open spec fn timer_period(tac: u8) -> int {
    let sel = tac % 4;
    if sel == 0 { 1024 } else if sel == 1 { 16 } else if sel == 2 { 64 } else { 256 }
}

/// The timer's clock falls once per period: as DIV counts up by one, the
/// divider bit selected by TAC goes from 1 to 0 exactly when DIV reaches a
/// multiple of the period (every 1024, 16, 64 or 256 clocks).
pub proof fn lemma_timer_clock_period(div: u16, tac: u8)
    ensures
        ({
            let next = vstd::wrapping::u16_specs::wrapping_add(div, 1);
            (spec_selected_bit(div, tac) && !spec_selected_bit(next, tac)) <==> (next as int) % timer_period(tac) == 0
        }),
{
    let next = vstd::wrapping::u16_specs::wrapping_add(div, 1);
    lemma_selected_bit(div, tac);
    lemma_selected_bit(next, tac);
    let n: u16 = next;
    assert(n == div + 1 || (div == 0xFFFF && n == 0));
    assert(
        (((div & (1u16 << 9)) != 0 && (n & (1u16 << 9)) == 0) == (n % 1024 == 0))
        && (((div & (1u16 << 3)) != 0 && (n & (1u16 << 3)) == 0) == (n % 16 == 0))
        && (((div & (1u16 << 5)) != 0 && (n & (1u16 << 5)) == 0) == (n % 64 == 0))
        && (((div & (1u16 << 7)) != 0 && (n & (1u16 << 7)) == 0) == (n % 256 == 0))
    ) by (bit_vector)
        requires n == div + 1 || (div == 0xFFFF && n == 0);
}

/// An enabled timer counts at its period: from a state whose recorded input
/// is the current one, with no reload pending and TIMA below 255, one clock
/// tick increments TIMA exactly when DIV reaches a multiple of the period, and
/// leaves it otherwise.
pub proof fn lemma_timer_counts(t: Timer)
    requires
        t.previous_result == spec_input(t.div, t.tac),
        !t.tima_overflow,
        spec_timer_enable(t.tac),
        t.tima < 255,
    ensures
        ({
            let next = vstd::wrapping::u16_specs::wrapping_add(t.div, 1);
            let u = spec_timer_tick(t).0;
            &&& u.div == next
            &&& u.tima as int == (if (next as int) % timer_period(t.tac) == 0 { t.tima + 1 } else { t.tima as int })
            &&& u.previous_result == spec_input(u.div, u.tac)
            &&& spec_timer_tick(t).1 is None
        }),
{
    lemma_timer_clock_period(t.div, t.tac);
}

/// The registers read back: DIV shows the high byte of the divider and a
/// write resets it to 0; TIMA and TMA read what was written; TAC reads its
/// three low bits as written and the others as 1.
pub proof fn lemma_timer_registers(t: Timer, v: u8)
    ensures
        spec_timer_read(t, 0xFF04) == t.div >> 8,
        spec_timer_write(t, 0xFF04, v).div == 0,
        spec_timer_read(spec_timer_write(t, 0xFF04, v), 0xFF04) == 0,
        spec_timer_read(spec_timer_write(t, 0xFF05, v), 0xFF05) == v,
        spec_timer_read(spec_timer_write(t, 0xFF06, v), 0xFF06) == v,
        spec_timer_read(spec_timer_write(t, 0xFF07, v), 0xFF07) & 0x07 == v & 0x07,
        spec_timer_read(spec_timer_write(t, 0xFF07, v), 0xFF07) & 0xF8 == 0xF8,
        spec_timer_write(t, 0xFF07, v).tac & 0x07 == v & 0x07,
{
    let d = t.div;
    assert(d >> 8 == d / 256) by (bit_vector);
    assert((((v | 0xF8) | 0xF8) & 0x07 == v & 0x07) && (((v | 0xF8) | 0xF8) & 0xF8 == 0xF8) && ((v | 0xF8) & 0x07 == v & 0x07)) by (bit_vector);
}

/// The overflow reload: when TIMA has just overflowed (it reads 0), it is
/// reloaded from TMA four clocks later, with the timer interrupt requested
/// then and not before.
pub proof fn lemma_timer_reload(t: Timer)
    requires
        t.tima_overflow,
        t.tima_overflow_counter == 0,
    ensures
        ({
            let (t1, i1) = spec_timer_tick(t);
            let (t2, i2) = spec_timer_tick(t1);
            let (t3, i3) = spec_timer_tick(t2);
            let (t4, i4) = spec_timer_tick(t3);
            &&& i1 is None && i2 is None && i3 is None
            &&& t1.tima == t.tima && t2.tima == t.tima && t3.tima == t.tima
            &&& i4 == Some(InterruptType::Timer)
            &&& t4.tima == t.tma
            &&& !t4.tima_overflow
        }),
{
}

proof fn lemma_selected_bit(div: u16, tac: u8)
    ensures
        tac & 0b11 == tac % 4,
        ((div & (1u16 << 9)) != 0) == ((div as nat / vstd::arithmetic::power2::pow2(9)) % 2 == 1),
        ((div & (1u16 << 3)) != 0) == ((div as nat / vstd::arithmetic::power2::pow2(3)) % 2 == 1),
        ((div & (1u16 << 5)) != 0) == ((div as nat / vstd::arithmetic::power2::pow2(5)) % 2 == 1),
        ((div & (1u16 << 7)) != 0) == ((div as nat / vstd::arithmetic::power2::pow2(7)) % 2 == 1),
{
    vstd::arithmetic::power2::lemma2_to64();
    crate::bits::lemma_u8_bits(tac);
    crate::bits::lemma_u16_bits(div);
}

} // verus!
