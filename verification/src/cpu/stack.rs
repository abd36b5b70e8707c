use vstd::prelude::*;
use super::CPU;
use crate::devices::Devices;
use crate::interconnect::{BusFault, Interconnect, console_ram, lemma_read_after_write};

verus! {

/// `sp - 1`, wrapping.
pub open spec fn sp_dec(sp: u16) -> u16 {
    vstd::wrapping::u16_specs::wrapping_sub(sp, 1)
}

/// `sp + 1`, wrapping.
pub open spec fn sp_inc(sp: u16) -> u16 {
    vstd::wrapping::u16_specs::wrapping_add(sp, 1)
}

/// Whether every read of `sp - 1` on `bus` gives the high byte of `pc`.
pub open spec fn holds_high_byte(bus: Interconnect, sp: u16, pc: u16) -> bool {
    forall|t: u64| #[trigger] bus.spec_read(sp_dec(sp), t) == super::registers::high_byte(pc)
}

/// Whether `bus` holds the return address `pc` pushed from `sp`: its high
/// byte at `sp - 1` and its low byte at `sp - 2`, whenever they are read.
pub open spec fn holds_return_address(bus: Interconnect, sp: u16, pc: u16) -> bool {
    &&& holds_high_byte(bus, sp, pc)
    &&& forall|t: u64| #[trigger] bus.spec_read(sp_dec(sp_dec(sp)), t) == super::registers::low_byte(pc)
}

impl CPU {
    /// Pushes a byte: SP is decremented, then the byte is written at SP.
    /// Fails where the bus does not define a write at the new SP.
    pub fn push(&mut self, dev: &mut Devices, value: u8) -> (r: Result<(), BusFault>)
        requires
            old(dev).bus.wf(),
        ensures
            final(dev).bus.wf(),
            final(self).registers.sp == sp_dec(old(self).registers.sp),
            *final(self) == (CPU { registers: final(self).registers, ..*old(self) }),
            final(self).registers == (super::registers::CpuRegisters { sp: final(self).registers.sp, ..old(self).registers }),
            r is Err <==> !old(dev).bus.writable(sp_dec(old(self).registers.sp)),
            r matches Err(f) ==> f == BusFault::Write(sp_dec(old(self).registers.sp)) && *final(dev) == *old(dev),
            r is Ok ==> exists|now: u64| #[trigger] old(dev).bus.spec_write(&final(dev).bus, sp_dec(old(self).registers.sp), value, now),
            *final(dev) == (Devices { bus: final(dev).bus, ..*old(dev) }),
    {
        let sp = self.registers.sp.wrapping_sub(1);
        assert(sp == sp_dec(old(self).registers.sp));
        self.registers.sp = sp;
        dev.write8_checked(sp, value)
    }

    /// Pops a byte: the byte at SP is read, then SP is incremented.
    /// Fails where the bus does not define a read at SP (SP is then unchanged).
    pub fn pop(&mut self, dev: &mut Devices) -> (r: Result<u8, BusFault>)
        requires
            old(dev).bus.wf(),
        ensures
            final(dev).bus.wf(),
            *final(self) == (CPU { registers: final(self).registers, ..*old(self) }),
            final(self).registers == (super::registers::CpuRegisters { sp: final(self).registers.sp, ..old(self).registers }),
            r is Err <==> !old(dev).bus.readable(old(self).registers.sp),
            r matches Err(f) ==> f == BusFault::Read(old(self).registers.sp) && *final(dev) == *old(dev)
                && final(self).registers.sp == old(self).registers.sp,
            r matches Ok(v) ==> final(self).registers.sp == sp_inc(old(self).registers.sp) && exists|now: u64|
                v == #[trigger] old(dev).bus.spec_read(old(self).registers.sp, now)
                && old(dev).bus.spec_after_read(&final(dev).bus, old(self).registers.sp, now),
            *final(dev) == (Devices { bus: final(dev).bus, ..*old(dev) }),
    {
        let val = dev.read8_checked(self.registers.sp);
        if val.is_ok() {
            self.registers.sp = self.registers.sp.wrapping_add(1);
        }
        val
    }
}

/// A byte that `push` writes is what `pop` then reads, and SP comes back to
/// where it was, when the stack is in the console's RAM.
pub proof fn lemma_push_pop(before: Interconnect, after: Interconnect, sp: u16, value: u8, now: u64, t: u64)
    requires
        before.wf(),
        console_ram(sp_dec(sp)),
        before.spec_write(&after, sp_dec(sp), value, now),
    ensures
        after.spec_read(sp_dec(sp), t) == value,
        sp_inc(sp_dec(sp)) == sp,
{
    lemma_read_after_write(before, after, sp_dec(sp), value, now, t);
}

} // verus!
