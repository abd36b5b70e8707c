use vstd::prelude::*;
use super::CPU;
use super::registers::{CpuRegisters, high_byte};
use super::stack::{sp_dec, holds_high_byte, holds_return_address};
use crate::devices::{Devices, lemma_write_keeps_dma};
use crate::interconnect::{BusFault, cart_address, console_ram, lemma_read_after_write};

verus! {

/// The five interrupt sources, each with its bit in the IF and IE registers.
#[derive(Clone, Copy, Debug, PartialEq, Eq)]
pub enum InterruptType {
    VBlank,
    LcdStat,
    Timer,
    Serial,
    Joypad,
}

/// The bit of an interrupt in the IF and IE registers.
pub open spec fn interrupt_bit(it: InterruptType) -> u8 {
    match it {
        InterruptType::VBlank => 0b0000_0001,
        InterruptType::LcdStat => 0b0000_0010,
        InterruptType::Timer => 0b0000_0100,
        InterruptType::Serial => 0b0000_1000,
        InterruptType::Joypad => 0b0001_0000,
    }
}

/// The address of the handler of an interrupt.
pub open spec fn interrupt_vector(it: InterruptType) -> u16 {
    match it {
        InterruptType::VBlank => 0x40,
        InterruptType::LcdStat => 0x48,
        InterruptType::Timer => 0x50,
        InterruptType::Serial => 0x58,
        InterruptType::Joypad => 0x60,
    }
}

impl InterruptType {
    /// The address of this interrupt's handler.
    pub fn vector(&self) -> (r: u16)
        ensures
            r == interrupt_vector(*self),
    {
        match self {
            InterruptType::VBlank => 0x40,
            InterruptType::LcdStat => 0x48,
            InterruptType::Timer => 0x50,
            InterruptType::Serial => 0x58,
            InterruptType::Joypad => 0x60,
        }
    }

    /// The bit of this interrupt in the IF and IE registers.
    pub fn bit(&self) -> (r: u8)
        ensures
            r == interrupt_bit(*self),
    {
        match self {
            InterruptType::VBlank => 0b0000_0001,
            InterruptType::LcdStat => 0b0000_0010,
            InterruptType::Timer => 0b0000_0100,
            InterruptType::Serial => 0b0000_1000,
            InterruptType::Joypad => 0b0001_0000,
        }
    }
}

/// The IE register that a dispatch sees after pushing PC's high byte: the
/// push overwrites IE when SP - 1 is `0xFFFF`.
pub open spec fn ie_after_push(sp: u16, pc: u16, ie: u8) -> u8 {
    if sp_dec(sp) == 0xFFFF { high_byte(pc) } else { ie }
}

/// Whether a dispatch from SP cannot fault: the DMA source page is readable
/// and both pushes go outside the cartridge and the DMA register.
pub open spec fn dispatch_safe(dev: Devices, sp: u16) -> bool {
    &&& dev.dma_readable()
    &&& !cart_address(sp_dec(sp))
    &&& !cart_address(sp_dec(sp_dec(sp)))
    &&& sp_dec(sp) != 0xFF46
    &&& sp_dec(sp_dec(sp)) != 0xFF46
}

/// The rank of an interrupt in priority order, VBlank first.
pub open spec fn priority(it: InterruptType) -> int {
    match it {
        InterruptType::VBlank => 0,
        InterruptType::LcdStat => 1,
        InterruptType::Timer => 2,
        InterruptType::Serial => 3,
        InterruptType::Joypad => 4,
    }
}

/// Each interrupt has its own bit and its own handler: the interrupt of rank
/// `k` in priority order (VBlank, LCD status, timer, serial, joypad) has bit
/// `k` of IF and IE, and its handler at `0x40 + 8k`.
pub proof fn lemma_interrupt_vectors(t: InterruptType, u: InterruptType)
    ensures
        0 <= priority(t) < 5,
        interrupt_vector(t) == 0x40 + 8 * priority(t),
        interrupt_bit(t) as int == vstd::arithmetic::power2::pow2(priority(t) as nat),
        t != u ==> priority(t) != priority(u),
        t != u ==> interrupt_vector(t) != interrupt_vector(u),
        t != u ==> interrupt_bit(t) != interrupt_bit(u),
{
    vstd::arithmetic::power2::lemma2_to64();
}

/// Interrupt priority: an interrupt is taken exactly when one of the five
/// is both requested (IF) and enabled (IE), and the one taken is requested
/// and enabled while no interrupt of higher priority is.
pub proof fn lemma_first_pending(i: u8, e: u8)
    ensures
        first_pending(i, e) is None <==> (i & e) & 0x1F == 0,
        first_pending(i, e) matches Some(t) ==> {
            &&& i & interrupt_bit(t) != 0
            &&& e & interrupt_bit(t) != 0
            &&& forall|u: InterruptType| #[trigger] priority(u) < priority(t)
                    ==> (i & interrupt_bit(u) == 0 || e & interrupt_bit(u) == 0)
        },
{
    crate::bits::lemma_and_bits(i, e);
    let p = i & e;
    assert((p & 0x1F == 0) <==> (p & 0x01 == 0 && p & 0x02 == 0 && p & 0x04 == 0 && p & 0x08 == 0 && p & 0x10 == 0)) by (bit_vector);
}

/// The pending interrupt of highest priority (lowest bit), if any.
pub open spec fn first_pending(if_register: u8, ie_register: u8) -> Option<InterruptType> {
    let p = if_register & ie_register;
    if p & 0x01 != 0 {
        Some(InterruptType::VBlank)
    } else if p & 0x02 != 0 {
        Some(InterruptType::LcdStat)
    } else if p & 0x04 != 0 {
        Some(InterruptType::Timer)
    } else if p & 0x08 != 0 {
        Some(InterruptType::Serial)
    } else if p & 0x10 != 0 {
        Some(InterruptType::Joypad)
    } else {
        None
    }
}

impl CPU {
    /// The start of a dispatch: two idle cycles, PC's high byte pushed, one cycle.
    #[verifier::rlimit(30)]
    fn dispatch_start(&mut self, dev: &mut Devices) -> (r: Result<(), BusFault>)
        requires
            old(dev).wf(),
        ensures
            final(dev).wf(),
            *final(self) == (CPU { registers: final(self).registers, ..*old(self) }),
            final(self).registers == (CpuRegisters { sp: final(self).registers.sp, ..old(self).registers }),
            r is Ok ==> final(self).registers.sp == sp_dec(old(self).registers.sp),
            r is Ok ==> final(dev).bus.ie_register
                == ie_after_push(old(self).registers.sp, old(self).registers.pc, old(dev).bus.ie_register),
            dispatch_safe(*old(dev), old(self).registers.sp) ==> r is Ok && final(dev).dma_readable(),
            r is Ok ==> final(dev).ticks == (old(dev).ticks + 12) % 0x1_0000_0000_0000_0000,
            r is Ok && console_ram(sp_dec(old(self).registers.sp))
                ==> holds_high_byte(final(dev).bus, old(self).registers.sp, old(self).registers.pc),
    {
        dev.incr_cycle()?;
        dev.incr_cycle()?;
        let pc = self.registers.pc;
        proof { crate::bits::lemma_u16_bits(pc); }
        let ghost d0 = *dev;
        self.push(dev, (pc >> 8) as u8)?;
        let ghost d1 = *dev;
        proof {
            let a = sp_dec(old(self).registers.sp);
            let now = choose|now: u64| #[trigger] d0.bus.spec_write(&dev.bus, a, (pc / 256) as u8, now);
            crate::interconnect::lemma_write_ie(d0.bus, dev.bus, a, (pc / 256) as u8, now);
            if dispatch_safe(*old(dev), old(self).registers.sp) {
                lemma_write_keeps_dma(d0, *dev, a, (pc / 256) as u8, now);
            }
            if console_ram(a) {
                assert forall|t: u64| #[trigger] dev.bus.spec_read(a, t) == (pc / 256) as u8 by {
                    lemma_read_after_write(d0.bus, dev.bus, a, (pc / 256) as u8, now, t);
                }
            }
        }
        dev.incr_cycle()?;
        proof {
            let a = sp_dec(old(self).registers.sp);
            if console_ram(a) {
                assert forall|t: u64| #[trigger] dev.bus.spec_read(a, t) == (pc / 256) as u8 by {
                    assert(d1.bus.memory_address(a));
                    assert(d1.bus.spec_read(a, t) == (pc / 256) as u8);
                }
            }
        }
        Ok(())
    }

    /// Dispatches an interrupt to `address`: two idle cycles, PC's high byte
    /// pushed, then, unless IE no longer enables the interrupt (the push may
    /// have overwritten IE), PC's low byte pushed and PC set to `address`.
    /// Returns whether the dispatch was cancelled (PC is then 0).
    #[verifier::rlimit(30)]
    pub fn interrupt_handle(&mut self, dev: &mut Devices, address: u16, interrupt_type: InterruptType) -> (r: Result<bool, BusFault>)
        requires
            old(dev).wf(),
        ensures
            final(dev).wf(),
            *final(self) == (CPU { registers: final(self).registers, ..*old(self) }),
            final(self).registers == (CpuRegisters { pc: final(self).registers.pc, sp: final(self).registers.sp, ..old(self).registers }),
            r matches Ok(cancelled) ==> {
                let sp = old(self).registers.sp;
                let ie = ie_after_push(sp, old(self).registers.pc, old(dev).bus.ie_register);
                &&& cancelled == (ie & interrupt_bit(interrupt_type) == 0)
                &&& final(self).registers.pc == (if cancelled { 0 } else { address })
                &&& final(self).registers.sp == (if cancelled { sp_dec(sp) } else { sp_dec(sp_dec(sp)) })
            },
            dispatch_safe(*old(dev), old(self).registers.sp) ==> r is Ok && final(dev).dma_readable(),
            r matches Ok(cancelled) ==> {
                let sp = old(self).registers.sp;
                let pc = old(self).registers.pc;
                &&& final(dev).ticks == (old(dev).ticks + if cancelled { 12int } else { 20int }) % 0x1_0000_0000_0000_0000
                &&& (cancelled && console_ram(sp_dec(sp))) ==> holds_high_byte(final(dev).bus, sp, pc)
                &&& (!cancelled && console_ram(sp_dec(sp)) && console_ram(sp_dec(sp_dec(sp))))
                        ==> holds_return_address(final(dev).bus, sp, pc)
                &&& (cancelled || sp_dec(sp_dec(sp)) != 0xFFFF)
                        ==> final(dev).bus.ie_register == ie_after_push(sp, pc, old(dev).bus.ie_register)
            },
    {
        let ghost safe = dispatch_safe(*old(dev), old(self).registers.sp);
        self.dispatch_start(dev)?;
        let ie_register = dev.ie_register();
        let it = interrupt_type.bit();
        if (ie_register & it) == 0 {
            self.registers.pc = 0;
            assert(dev.ticks == (old(dev).ticks + 12) % 0x1_0000_0000_0000_0000);
            return Ok(true);
        }
        let pc = self.registers.pc;
        let ghost d1 = *dev;
        self.push(dev, pc as u8)?;
        let ghost d2 = *dev;
        proof {
            let a = sp_dec(sp_dec(old(self).registers.sp));
            let hi = sp_dec(old(self).registers.sp);
            let now = choose|now: u64| #[trigger] d1.bus.spec_write(&dev.bus, a, pc as u8, now);
            crate::interconnect::lemma_write_ie(d1.bus, dev.bus, a, pc as u8, now);
            if safe {
                lemma_write_keeps_dma(d1, *dev, a, pc as u8, now);
            }
            if console_ram(a) && console_ram(hi) {
                assert forall|t: u64| #[trigger] dev.bus.spec_read(a, t) == pc as u8
                    && dev.bus.spec_read(hi, t) == d1.bus.spec_read(hi, t) by {
                    lemma_read_after_write(d1.bus, dev.bus, a, pc as u8, now, t);
                }
            }
        }
        dev.incr_cycle()?;
        let ghost d3 = *dev;
        if (ie_register & it) == 0 {
            self.registers.pc = 0;
            return Ok(true);
        }
        self.registers.pc = address;
        dev.incr_cycle()?;
        assert(dev.ticks == (old(dev).ticks + 20) % 0x1_0000_0000_0000_0000);
        proof {
            let sp = old(self).registers.sp;
            let a = sp_dec(sp_dec(sp));
            let hi = sp_dec(sp);
            assert(pc as u8 == crate::cpu::registers::low_byte(pc)) by (bit_vector);
            if console_ram(a) && console_ram(hi) {
                assert(d2.bus.memory_address(a) && d2.bus.memory_address(hi));
                assert(d3.bus.memory_address(a) && d3.bus.memory_address(hi));
                assert forall|t: u64| #[trigger] dev.bus.spec_read(a, t) == pc as u8 by {
                    assert(d3.bus.spec_read(a, t) == d2.bus.spec_read(a, t));
                }
                assert forall|t: u64| #[trigger] dev.bus.spec_read(hi, t) == crate::cpu::registers::high_byte(pc) by {
                    assert(d3.bus.spec_read(hi, t) == d2.bus.spec_read(hi, t));
                    assert(d2.bus.spec_read(hi, t) == d1.bus.spec_read(hi, t));
                }
                assert(holds_return_address(dev.bus, sp, pc));
            }
        }
        Ok(false)
    }

    /// Dispatches the interrupt if it is both requested (IF) and enabled (IE):
    /// the dispatch clears halt and IME, and, unless cancelled, writes back IF
    /// as read before the dispatch without the interrupt's bit. Returns whether
    /// the interrupt was dispatched.
    pub fn interrupt_check(&mut self, dev: &mut Devices, address: u16, interrupt_type: InterruptType) -> (r: Result<bool, BusFault>)
        requires
            old(dev).wf(),
        ensures
            final(dev).wf(),
            ({
                let bit = interrupt_bit(interrupt_type);
                let pending = old(dev).bus.io.if_register & bit != 0 && old(dev).bus.ie_register & bit != 0;
                let sp = old(self).registers.sp;
                let cancelled = ie_after_push(sp, old(self).registers.pc, old(dev).bus.ie_register) & bit == 0;
                &&& !pending ==> r == Ok::<bool, BusFault>(false) && *final(self) == *old(self) && *final(dev) == *old(dev)
                &&& pending ==> *final(self) == (CPU {
                        registers: final(self).registers,
                        halted: final(self).halted,
                        int_master_enabled: final(self).int_master_enabled,
                        ..*old(self)
                    })
                &&& pending ==> final(self).registers == (CpuRegisters { pc: final(self).registers.pc, sp: final(self).registers.sp, ..old(self).registers })
                &&& (pending && r is Ok) ==> {
                        &&& !final(self).halted
                        &&& !final(self).int_master_enabled
                        &&& r == Ok::<bool, BusFault>(!cancelled)
                        &&& final(self).registers.pc == (if cancelled { 0 } else { address })
                        &&& final(self).registers.sp == (if cancelled { sp_dec(sp) } else { sp_dec(sp_dec(sp)) })
                        &&& !cancelled ==> final(dev).bus.io.if_register == old(dev).bus.io.if_register & !bit
                        &&& final(dev).ticks == (old(dev).ticks + if cancelled { 12int } else { 20int }) % 0x1_0000_0000_0000_0000
                        &&& (cancelled && console_ram(sp_dec(sp))) ==> holds_high_byte(final(dev).bus, sp, old(self).registers.pc)
                        &&& (!cancelled && console_ram(sp_dec(sp)) && console_ram(sp_dec(sp_dec(sp))))
                                ==> holds_return_address(final(dev).bus, sp, old(self).registers.pc)
                        &&& (cancelled || sp_dec(sp_dec(sp)) != 0xFFFF)
                                ==> final(dev).bus.ie_register == ie_after_push(sp, old(self).registers.pc, old(dev).bus.ie_register)
                    }
                &&& (pending && dispatch_safe(*old(dev), sp)) ==> r is Ok && final(dev).dma_readable()
            }),
    {
        let if_register = self.get_int_flags(dev);
        let ie_register = dev.ie_register();
        let it = interrupt_type.bit();
        if (if_register & it) != 0 && (ie_register & it) != 0 {
            let cancelled = self.interrupt_handle(dev, address, interrupt_type)?;
            self.halted = false;
            self.int_master_enabled = false;
            if !cancelled {
                let ghost d = *dev;
                self.set_int_flags(dev, if_register & !it);
                proof {
                    assert forall|b: int| 0 <= b < 0xA0 && d.dma_readable() && (dev.bus.io.dma.active || dev.bus.io.dma.restarted)
                        implies #[trigger] dev.bus.readable((dev.bus.io.dma.value as int * 0x100 + b) as u16) by {
                        assert(d.bus.readable((d.bus.io.dma.value as int * 0x100 + b) as u16));
                    }
                    let sp = old(self).registers.sp;
                    let pc = old(self).registers.pc;
                    if console_ram(sp_dec(sp)) && console_ram(sp_dec(sp_dec(sp))) {
                        assert(holds_return_address(d.bus, sp, pc));
                        assert forall|t: u64| #[trigger] dev.bus.spec_read(sp_dec(sp), t) == crate::cpu::registers::high_byte(pc) by {
                            assert(d.bus.spec_read(sp_dec(sp), t) == crate::cpu::registers::high_byte(pc));
                        }
                        assert forall|t: u64| #[trigger] dev.bus.spec_read(sp_dec(sp_dec(sp)), t) == crate::cpu::registers::low_byte(pc) by {
                            assert(d.bus.spec_read(sp_dec(sp_dec(sp)), t) == crate::cpu::registers::low_byte(pc));
                        }
                    }
                    assert(dev.ticks == (old(dev).ticks + 20) % 0x1_0000_0000_0000_0000);
                }
                return Ok(true);
            } else {
                return Ok(false);
            }
        }
        Ok(false)
    }

    /// Dispatches the pending interrupt of highest priority: VBlank, LCD
    /// status, timer, serial, joypad. A dispatch cancelled by its own push
    /// into IE (from SP 0) leaves PC at 0 and goes on to the interrupts of
    /// lower priority, with the new IE.
    pub fn handle_interrupts(&mut self, dev: &mut Devices) -> (r: Result<(), BusFault>)
        requires
            old(dev).wf(),
        ensures
            final(dev).wf(),
            interrupts_handled(*old(self), *old(dev), *final(self), *final(dev), r),
    {
        let ghost c0 = *self;
        let ghost d0 = *dev;
        proof {
            let i = old(dev).bus.io.if_register;
            let e = old(dev).bus.ie_register;
            crate::bits::lemma_and_bits(i, e);
            let t0 = old(dev).ticks;
            assert(((t0 + 12) % 0x1_0000_0000_0000_0000 + 20) % 0x1_0000_0000_0000_0000
                == (t0 + 32) % 0x1_0000_0000_0000_0000);
            assert(sp_dec(0xFFFF) == 0xFFFE && sp_dec(0xFFFE) == 0xFFFD);
            assert(console_ram(0xFFFE) && console_ram(0xFFFD));
        }
        let mut k: u8 = 0;
        while k < 5
            invariant
                0 <= k <= 5,
                dev.wf(),
                c0 == *old(self),
                d0 == *old(dev),
                d0.wf(),
                ((d0.ticks + 12) % 0x1_0000_0000_0000_0000 + 20) % 0x1_0000_0000_0000_0000
                    == (d0.ticks + 32) % 0x1_0000_0000_0000_0000,
                dispatch_stage(c0, d0, *self, *dev, k as int),
            decreases 5 - k,
        {
            let it = rank_type(k);
            let address = it.vector();
            let ghost cb = *self;
            let ghost db = *dev;
            proof {
                crate::bits::lemma_and_bits(db.bus.io.if_register, db.bus.ie_register);
                crate::bits::lemma_clear_bits(db.bus.io.if_register);
                if cb.registers.sp == 0xFFFF {
                    assert(ie_after_push(0xFFFF, cb.registers.pc, db.bus.ie_register) == db.bus.ie_register);
                }
                if sp_dec(c0.registers.sp) == 0xFFFF {
                    assert(c0.registers.sp == 0);
                }
            }
            if self.interrupt_check(dev, address, it)? {
                return Ok(());
            }
            k = k + 1;
        }
        Ok(())
    }
}

/// What `handle_interrupts` does, from the CPU `c0` and devices `d0` to `c`
/// and `d`, with result `r`: with no pending interrupt nothing changes;
/// otherwise the pending interrupt of highest priority is dispatched, and a
/// dispatch cancelled by its own push into IE (from SP 0) leaves PC at 0 and
/// goes on to the interrupts of lower priority, with the new IE.
pub open spec fn interrupts_handled(c0: CPU, d0: Devices, c: CPU, d: Devices, r: Result<(), BusFault>) -> bool {
    &&& first_pending(d0.bus.io.if_register, d0.bus.ie_register) is None
        ==> r is Ok && c == c0 && d == d0
    &&& first_pending(d0.bus.io.if_register, d0.bus.ie_register) matches Some(t) ==> {
        let sp = c0.registers.sp;
        let pc = c0.registers.pc;
        let dispatched = ie_after_push(sp, pc, d0.bus.ie_register) & interrupt_bit(t) != 0;
        &&& dispatch_safe(d0, sp) ==> r is Ok
        &&& r is Ok ==> {
            &&& !c.halted
            &&& !c.int_master_enabled
            &&& c.registers == (CpuRegisters { pc: c.registers.pc, sp: c.registers.sp, ..c0.registers })
        }
        &&& (dispatched && r is Ok) ==> {
            &&& c.registers.pc == interrupt_vector(t)
            &&& c.registers.sp == sp_dec(sp_dec(sp))
            &&& d.bus.io.if_register == d0.bus.io.if_register & !interrupt_bit(t)
            &&& d.ticks == (d0.ticks + 20) % 0x1_0000_0000_0000_0000
            &&& (console_ram(sp_dec(sp)) && console_ram(sp_dec(sp_dec(sp))))
                    ==> holds_return_address(d.bus, sp, pc)
            &&& dispatch_safe(d0, sp) ==> d.dma_readable()
        }
        &&& (!dispatched && r is Ok) ==> {
            let ie = high_byte(pc);
            &&& sp == 0
            &&& d.bus.ie_register == ie
            &&& {
                ||| {
                    &&& c.registers.pc == 0
                    &&& c.registers.sp == 0xFFFF
                    &&& d.ticks == (d0.ticks + 12) % 0x1_0000_0000_0000_0000
                }
                ||| exists|t2: InterruptType| {
                    &&& priority(t) < #[trigger] priority(t2)
                    &&& ie & interrupt_bit(t2) != 0
                    &&& c.registers.pc == interrupt_vector(t2)
                    &&& c.registers.sp == 0xFFFD
                    &&& d.bus.io.if_register & interrupt_bit(t2) == 0
                    &&& d.ticks == (d0.ticks + 32) % 0x1_0000_0000_0000_0000
                    &&& holds_return_address(d.bus, 0xFFFF, 0)
                }
            }
        }
    }
}

/// The interrupt of rank `k` (0 to 4) in priority order.
pub open spec fn spec_rank_type(k: int) -> InterruptType {
    if k == 0 {
        InterruptType::VBlank
    } else if k == 1 {
        InterruptType::LcdStat
    } else if k == 2 {
        InterruptType::Timer
    } else if k == 3 {
        InterruptType::Serial
    } else {
        InterruptType::Joypad
    }
}

/// The interrupt of rank `k` (0 to 4) in priority order.
fn rank_type(k: u8) -> (r: InterruptType)
    requires
        k < 5,
    ensures
        r == spec_rank_type(k as int),
        priority(r) == k,
{
    if k == 0 {
        InterruptType::VBlank
    } else if k == 1 {
        InterruptType::LcdStat
    } else if k == 2 {
        InterruptType::Timer
    } else if k == 3 {
        InterruptType::Serial
    } else {
        InterruptType::Joypad
    }
}

/// The state after a dispatch from SP 0 that its push into IE cancelled:
/// PC 0, SP `0xFFFF`, halt and IME cleared, IE holding PC's high byte, three
/// machine cycles spent.
pub open spec fn cancelled_state(c0: CPU, d0: Devices, c: CPU, d: Devices) -> bool {
    &&& c0.registers.sp == 0
    &&& c == (CPU {
            registers: CpuRegisters { pc: 0, sp: 0xFFFF, ..c0.registers },
            halted: false,
            int_master_enabled: false,
            ..c0
        })
    &&& d.bus.ie_register == high_byte(c0.registers.pc)
    &&& d.ticks == (d0.ticks + 12) % 0x1_0000_0000_0000_0000
    &&& dispatch_safe(d0, 0) ==> d.dma_readable()
}

/// Where the dispatch of `handle_interrupts` stands before the check of the
/// interrupt of rank `k`: nothing done while the first pending interrupt is
/// not reached; after it, only a cancelled dispatch lets the checks go on.
pub open spec fn dispatch_stage(c0: CPU, d0: Devices, c: CPU, d: Devices, k: int) -> bool {
    match first_pending(d0.bus.io.if_register, d0.bus.ie_register) {
        None => c == c0 && d == d0,
        Some(t) => if k <= priority(t) {
            c == c0 && d == d0
        } else {
            &&& ie_after_push(c0.registers.sp, c0.registers.pc, d0.bus.ie_register) & interrupt_bit(t) == 0
            &&& cancelled_state(c0, d0, c, d)
        },
    }
}

} // verus!
