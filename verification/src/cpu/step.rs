use vstd::prelude::*;
use super::CPU;
use super::registers::CpuRegisters;
use super::interrupts::interrupts_handled;
use crate::devices::{Devices, cycle_step, read_step};
use crate::interconnect::BusFault;

verus! {

impl CPU {
    /// The start of a step: when IME is set, the pending interrupts are
    /// serviced and a pending `EI` is dropped.
    pub fn service_interrupts(&mut self, dev: &mut Devices) -> (r: Result<(), BusFault>)
        requires
            old(dev).wf(),
        ensures
            final(dev).wf(),
            !old(self).int_master_enabled ==> r is Ok && *final(self) == *old(self) && *final(dev) == *old(dev),
            old(self).int_master_enabled ==> exists|c: CPU| {
                &&& #[trigger] interrupts_handled(*old(self), *old(dev), c, *final(dev), r)
                &&& *final(self) == (if r is Ok { CPU { enabling_ime: false, ..c } } else { c })
            },
    {
        if self.int_master_enabled {
            self.handle_interrupts(dev)?;
            let ghost c = *self;
            self.enabling_ime = false;
            assert(interrupts_handled(*old(self), *old(dev), c, *dev, Ok(())));
        }
        Ok(())
    }

    /// One machine cycle of a halted CPU: the CPU wakes when an interrupt is
    /// requested (IF is not 0) after the cycle.
    pub fn halted_cycle(&mut self, dev: &mut Devices) -> (r: Result<(), BusFault>)
        requires
            old(dev).wf(),
        ensures
            final(dev).wf(),
            cycle_step(*old(dev), *final(dev), r is Ok),
            r is Ok <==> old(dev).bus.dma_source_readable(),
            *final(self) == (CPU {
                halted: if r is Ok { old(self).halted && final(dev).bus.io.if_register == 0 } else { old(self).halted },
                ..*old(self)
            }),
    {
        dev.incr_cycle()?;
        if self.get_int_flags(dev) != 0 {
            self.halted = false;
        }
        Ok(())
    }

    /// Reads the opcode at PC and moves PC past it, then one machine cycle.
    /// Fails where the bus does not define a read at PC, or where the DMA unit
    /// faults during the cycle.
    pub fn fetch_opcode(&mut self, dev: &mut Devices) -> (r: Result<u8, BusFault>)
        requires
            old(dev).wf(),
            old(self).registers.pc < 0xFFFF,
        ensures
            final(dev).wf(),
            !old(dev).bus.readable(old(self).registers.pc)
                ==> r == Err::<u8, BusFault>(BusFault::Read(old(self).registers.pc)) && *final(self) == *old(self) && *final(dev) == *old(dev),
            old(dev).bus.readable(old(self).registers.pc) && old(dev).dma_readable() ==> r is Ok,
            r matches Ok(op) ==> {
                &&& *final(self) == (CPU {
                        curr_opcode: op,
                        registers: CpuRegisters { pc: (old(self).registers.pc + 1) as u16, ..old(self).registers },
                        ..*old(self)
                    })
                &&& exists|mid: Devices, now: u64| #[trigger] read_step(*old(dev), mid, old(self).registers.pc, op, now)
                        && cycle_step(mid, *final(dev), true)
            },
    {
        let pc = self.registers.pc;
        let op = dev.read8_checked(pc)?;
        let ghost mid = *dev;
        let ghost now = choose|now: u64| op == #[trigger] old(dev).bus.spec_read(pc, now)
            && old(dev).bus.spec_after_read(&mid.bus, pc, now);
        proof {
            assert(read_step(*old(dev), mid, pc, op, now));
            assert forall|b: int| 0 <= b < 0xA0 && old(dev).dma_readable() && (mid.bus.io.dma.active || mid.bus.io.dma.restarted)
                implies #[trigger] mid.bus.readable((mid.bus.io.dma.value as int * 0x100 + b) as u16) by {
                crate::interconnect::lemma_readable_after_read(old(dev).bus, mid.bus, pc, (mid.bus.io.dma.value as int * 0x100 + b) as u16, now);
            }
        }
        self.curr_opcode = op;
        self.registers.pc = pc + 1;
        dev.incr_cycle()?;
        Ok(op)
    }

    /// The end of a step: an `EI` executed before takes effect (IME is set).
    pub fn end_step(&mut self)
        ensures
            *final(self) == (CPU {
                int_master_enabled: old(self).int_master_enabled || old(self).enabling_ime,
                ..*old(self)
            }),
    {
        if self.enabling_ime {
            self.int_master_enabled = true;
        }
    }
}

} // verus!
