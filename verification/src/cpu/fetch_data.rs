use vstd::prelude::*;
use super::CPU;
use super::instruction::{AddrMode, Instruction, RegType};
use super::registers::{CpuRegisters, pair};
use crate::devices::Devices;
use crate::interconnect::{BusFault, Interconnect, lemma_readable_after_read};

verus! {

/// The number of immediate bytes that follow the opcode.
pub open spec fn imm_len(mode: AddrMode) -> int {
    match mode {
        AddrMode::R_D8 | AddrMode::HL_SP | AddrMode::D8 | AddrMode::MR_D8 | AddrMode::R_A8 | AddrMode::A8_R => 1,
        AddrMode::D16 | AddrMode::R_D16 | AddrMode::D16_R | AddrMode::A16_R | AddrMode::R_A16 => 2,
        _ => 0,
    }
}

/// The number of bytes that the fetch reads from the bus.
pub open spec fn n_reads(mode: AddrMode) -> int {
    match mode {
        AddrMode::R_D8 | AddrMode::HL_SP | AddrMode::D8 | AddrMode::MR_D8 | AddrMode::A8_R => 1,
        AddrMode::R_MR | AddrMode::R_HLD | AddrMode::R_HLI | AddrMode::MR => 1,
        AddrMode::D16 | AddrMode::R_D16 | AddrMode::D16_R | AddrMode::A16_R | AddrMode::R_A8 => 2,
        AddrMode::R_A16 => 3,
        _ => 0,
    }
}

/// The number of machine cycles that the fetch takes.
pub open spec fn n_cycles(mode: AddrMode) -> int {
    match mode {
        AddrMode::D16 | AddrMode::R_D16 | AddrMode::D16_R | AddrMode::A16_R => 2,
        AddrMode::R_A16 => 3,
        _ => if n_reads(mode) > 0 { 1 } else { 0 },
    }
}

/// The machine cycles that have passed when read `k` happens.
pub open spec fn cycles_before(mode: AddrMode, k: int) -> int {
    match mode {
        AddrMode::D16 | AddrMode::R_D16 | AddrMode::D16_R | AddrMode::A16_R | AddrMode::R_A16 => k,
        _ => 0,
    }
}

/// Whether the registers that the fetch reads are named (`NONE` names no
/// register).
pub open spec fn regs_named(inst: Instruction) -> bool {
    match inst.mode {
        AddrMode::R | AddrMode::MR_D8 | AddrMode::MR => inst.reg_1 != RegType::NONE,
        AddrMode::R_R | AddrMode::R_MR | AddrMode::R_HLD | AddrMode::R_HLI | AddrMode::A8_R
        | AddrMode::D16_R | AddrMode::A16_R => inst.reg_2 != RegType::NONE,
        AddrMode::MR_R | AddrMode::HLD_R | AddrMode::HLI_R => inst.reg_1 != RegType::NONE && inst.reg_2 != RegType::NONE,
        _ => true,
    }
}

/// A register's value, ORed with `0xFF00` when the register is C (the
/// `(C)` operand addresses high memory).
pub open spec fn c_relative(regs: CpuRegisters, reg: RegType) -> u16 {
    if reg == RegType::C { regs.spec_read(reg) | 0xFF00 } else { regs.spec_read(reg) }
}

/// The address of read `k`, given the bytes `v` read before it.
pub open spec fn read_address(cpu: CPU, v: Seq<u8>, k: int) -> u16 {
    let r = cpu.registers;
    let i = cpu.curr_inst;
    match i.mode {
        AddrMode::R_MR => c_relative(r, i.reg_2),
        AddrMode::R_HLD | AddrMode::R_HLI => r.spec_read(i.reg_2),
        AddrMode::MR => r.spec_read(i.reg_1),
        AddrMode::R_A8 => if k == 0 { r.pc } else { (v[0] as u16) | 0xFF00 },
        AddrMode::R_A16 => if k < 2 { (r.pc + k) as u16 } else { pair(v[1], v[0]) },
        _ => (r.pc + k) as u16,
    }
}

/// Whether the bytes `v` are what the fetch reads from `bus` (the bus when
/// the fetch starts): as many as the mode reads, each one what `bus` holds at
/// its address, for the reads before the first machine cycle and for those of
/// plain memory (other addresses may change during the cycles).
pub open spec fn fetch_trace(cpu: CPU, bus: Interconnect, v: Seq<u8>) -> bool {
    &&& v.len() == n_reads(cpu.curr_inst.mode)
    &&& forall|k: int| 0 <= k < v.len()
            && (cycles_before(cpu.curr_inst.mode, k) == 0 || bus.memory_address(read_address(cpu, v, k)))
            ==> exists|now: u64| v[k] == #[trigger] bus.spec_read(read_address(cpu, v, k), now)
}

/// The CPU after the operand fetch, given the bytes `v` read from the bus:
/// the operand, the destination address, the program counter moved past the
/// immediate bytes, and HL stepped by the modes that step it.
pub open spec fn spec_fetch(cpu: CPU, v: Seq<u8>) -> CPU {
    let r = cpu.registers;
    let i = cpu.curr_inst;
    let base = CPU { mem_dest: 0, dest_is_mem: false, ..cpu };
    let r1 = CpuRegisters { pc: (r.pc + 1) as u16, ..r };
    let r2 = CpuRegisters { pc: (r.pc + 2) as u16, ..r };
    let hl = r.spec_read(RegType::HL);
    match i.mode {
        AddrMode::IMP => base,
        AddrMode::R => CPU { fetched_data: r.spec_read(i.reg_1), ..base },
        AddrMode::R_R => CPU { fetched_data: r.spec_read(i.reg_2), ..base },
        AddrMode::R_D8 | AddrMode::HL_SP | AddrMode::D8 => CPU { fetched_data: v[0] as u16, registers: r1, ..base },
        AddrMode::D16 | AddrMode::R_D16 => CPU { fetched_data: pair(v[1], v[0]), registers: r2, ..base },
        AddrMode::MR_R => CPU {
            fetched_data: r.spec_read(i.reg_2),
            mem_dest: c_relative(r, i.reg_1),
            dest_is_mem: true,
            ..base
        },
        AddrMode::R_MR => CPU { fetched_data: v[0] as u16, ..base },
        AddrMode::R_HLD => CPU {
            fetched_data: v[0] as u16,
            registers: r.spec_set(RegType::HL, vstd::wrapping::u16_specs::wrapping_sub(hl, 1)),
            ..base
        },
        AddrMode::R_HLI => CPU {
            fetched_data: v[0] as u16,
            registers: r.spec_set(RegType::HL, vstd::wrapping::u16_specs::wrapping_add(hl, 1)),
            ..base
        },
        AddrMode::HLD_R => CPU {
            fetched_data: r.spec_read(i.reg_2),
            mem_dest: r.spec_read(i.reg_1),
            dest_is_mem: true,
            registers: r.spec_set(RegType::HL, vstd::wrapping::u16_specs::wrapping_sub(hl, 1)),
            ..base
        },
        AddrMode::HLI_R => CPU {
            fetched_data: r.spec_read(i.reg_2),
            mem_dest: r.spec_read(i.reg_1),
            dest_is_mem: true,
            registers: r.spec_set(RegType::HL, vstd::wrapping::u16_specs::wrapping_add(hl, 1)),
            ..base
        },
        AddrMode::R_A8 => CPU { fetched_data: v[1] as u16, registers: r1, ..base },
        AddrMode::A8_R => CPU {
            fetched_data: r.spec_read(i.reg_2),
            mem_dest: (v[0] as u16) | 0xFF00,
            dest_is_mem: true,
            registers: r1,
            ..base
        },
        AddrMode::D16_R | AddrMode::A16_R => CPU {
            fetched_data: r2.spec_read(i.reg_2),
            mem_dest: pair(v[1], v[0]),
            dest_is_mem: true,
            registers: r2,
            ..base
        },
        AddrMode::MR_D8 => CPU {
            fetched_data: v[0] as u16,
            mem_dest: r1.spec_read(i.reg_1),
            dest_is_mem: true,
            registers: r1,
            ..base
        },
        AddrMode::MR => CPU {
            fetched_data: v[0] as u16,
            mem_dest: r.spec_read(i.reg_1),
            dest_is_mem: true,
            ..base
        },
        AddrMode::R_A16 => CPU { fetched_data: v[2] as u16, registers: r2, ..base },
    }
}

/// Whether the fetch cannot fault: the DMA source page is readable, and so is
/// every address that the fetch may read, whatever the bytes read before it.
pub open spec fn fetch_safe(cpu: CPU, dev: Devices) -> bool {
    &&& dev.dma_readable()
    &&& forall|v: Seq<u8>, k: int| 0 <= k < n_reads(cpu.curr_inst.mode)
            ==> #[trigger] dev.bus.readable(read_address(cpu, v, k))
}

/// What the operand fetch promises of the devices: as many machine cycles
/// as the mode takes, and the memory that the CPU reads left as it was.
pub open spec fn fetch_devices(cpu: CPU, old: Devices, new: Devices) -> bool {
    &&& new.wf()
    &&& new.ticks == (old.ticks + 4 * n_cycles(cpu.curr_inst.mode)) % 0x1_0000_0000_0000_0000
    &&& forall|a: u16| #[trigger] new.bus.readable(a) == old.bus.readable(a)
    &&& forall|a: u16| #[trigger] new.bus.memory_address(a) == old.bus.memory_address(a)
    &&& forall|a: u16, n: u64| old.bus.memory_address(a) ==> #[trigger] new.bus.spec_read(a, n) == old.bus.spec_read(a, n)
    &&& old.dma_readable() ==> new.dma_readable()
}

/// What `n` machine cycles (and the reads among them) promise of the
/// devices: the clock advanced by `n` cycles, readability and plain memory
/// unchanged, and a readable DMA source page kept readable.
pub open spec fn dev_step(old: Devices, new: Devices, n: int) -> bool {
    &&& new.wf()
    &&& new.ticks == (old.ticks + 4 * n) % 0x1_0000_0000_0000_0000
    &&& forall|a: u16| #[trigger] new.bus.readable(a) == old.bus.readable(a)
    &&& forall|a: u16| #[trigger] new.bus.memory_address(a) == old.bus.memory_address(a)
    &&& forall|a: u16, t: u64| old.bus.memory_address(a) ==> #[trigger] new.bus.spec_read(a, t) == old.bus.spec_read(a, t)
    &&& old.dma_readable() ==> new.dma_readable()
}

/// Steps compose.
pub proof fn lemma_dev_step_trans(a: Devices, b: Devices, c: Devices, n: int, m: int)
    requires
        0 <= n,
        0 <= m,
        dev_step(a, b, n),
        dev_step(b, c, m),
    ensures
        dev_step(a, c, n + m),
{
    let big: int = 0x1_0000_0000_0000_0000;
    vstd::arithmetic::div_mod::lemma_add_mod_noop_right(4 * m, a.ticks + 4 * n, big);
}

/// Everything that the fetch promises, whether it succeeds or fails.
pub open spec fn fetch_post(cpu: CPU, dev: Devices, new_cpu: CPU, new_dev: Devices, r: Result<(), BusFault>) -> bool {
    let mode = cpu.curr_inst.mode;
    &&& new_dev.wf()
    &&& r is Ok ==> exists|v: Seq<u8>| #[trigger] fetch_trace(cpu, dev.bus, v) && new_cpu == spec_fetch(cpu, v)
    &&& r is Ok ==> dev_step(dev, new_dev, n_cycles(mode))
    &&& fetch_safe(cpu, dev) ==> r is Ok
    &&& r matches Err(f) ==> !dev.dma_readable() || exists|v: Seq<u8>, k: int|
            0 <= k < n_reads(mode) && f == BusFault::Read(#[trigger] read_address(cpu, v, k))
            && !dev.bus.readable(read_address(cpu, v, k))
}

/// Reads a byte for the fetch.
fn fetch_read(dev: &mut Devices, address: u16) -> (r: Result<u8, BusFault>)
    requires
        old(dev).wf(),
    ensures
        final(dev).wf(),
        r is Err <==> !old(dev).bus.readable(address),
        r matches Err(f) ==> f == BusFault::Read(address),
        r matches Ok(v) ==> (exists|now: u64| v == #[trigger] old(dev).bus.spec_read(address, now)
                && old(dev).bus.spec_after_read(&final(dev).bus, address, now))
            && dev_step(*old(dev), *final(dev), 0),
{
    let r = dev.read8_checked(address);
    proof {
        if r is Ok {
            let now = choose|now: u64| r->Ok_0 == #[trigger] old(dev).bus.spec_read(address, now)
                && old(dev).bus.spec_after_read(&dev.bus, address, now);
            assert forall|a: u16| #[trigger] dev.bus.readable(a) == old(dev).bus.readable(a)
                && dev.bus.memory_address(a) == old(dev).bus.memory_address(a)
                && (forall|t: u64| old(dev).bus.memory_address(a) ==> #[trigger] dev.bus.spec_read(a, t) == old(dev).bus.spec_read(a, t)) by {
                lemma_readable_after_read(old(dev).bus, dev.bus, address, a, now);
            }
            assert(old(dev).ticks + 4 * 0 == old(dev).ticks);
            assert((old(dev).ticks as int) % 0x1_0000_0000_0000_0000int == old(dev).ticks);
        }
    }
    r
}

/// One machine cycle of the fetch.
fn fetch_cycle(dev: &mut Devices) -> (r: Result<(), BusFault>)
    requires
        old(dev).wf(),
    ensures
        final(dev).wf(),
        r is Ok ==> dev_step(*old(dev), *final(dev), 1),
        old(dev).dma_readable() ==> r is Ok,
{
    dev.incr_cycle()
}

impl CPU {
    /// The fetch of the modes that read registers only.
    fn fetch_from_registers(&mut self, dev: &Devices)
        requires
            old(self).curr_inst.mode is IMP || old(self).curr_inst.mode is R || old(self).curr_inst.mode is R_R
                || old(self).curr_inst.mode is MR_R || old(self).curr_inst.mode is HLD_R || old(self).curr_inst.mode is HLI_R,
            regs_named(old(self).curr_inst),
            dev.wf(),
        ensures
            fetch_post(*old(self), *dev, *final(self), *dev, Ok(())),
    {
        self.mem_dest = 0;
        self.dest_is_mem = false;
        let inst = self.curr_inst;
        match inst.mode {
            AddrMode::R => self.fetched_data = self.registers.read(inst.reg_1),
            AddrMode::R_R => self.fetched_data = self.registers.read(inst.reg_2),
            AddrMode::MR_R => {
                self.fetched_data = self.registers.read(inst.reg_2);
                self.mem_dest = self.registers.read(inst.reg_1);
                self.dest_is_mem = true;
                if inst.reg_1 == RegType::C {
                    self.mem_dest = self.mem_dest | 0xFF00;
                }
            },
            AddrMode::HLD_R => {
                self.fetched_data = self.registers.read(inst.reg_2);
                self.mem_dest = self.registers.read(inst.reg_1);
                self.dest_is_mem = true;
                let hl = self.registers.read(RegType::HL);
                self.registers.set(RegType::HL, hl.wrapping_sub(1));
            },
            AddrMode::HLI_R => {
                self.fetched_data = self.registers.read(inst.reg_2);
                self.mem_dest = self.registers.read(inst.reg_1);
                self.dest_is_mem = true;
                let hl = self.registers.read(RegType::HL);
                self.registers.set(RegType::HL, hl.wrapping_add(1));
            },
            _ => {},
        }
        proof {
            let v = Seq::<u8>::empty();
            assert(fetch_trace(*old(self), dev.bus, v));
            assert(*self == spec_fetch(*old(self), v));
            assert((dev.ticks as int) % 0x1_0000_0000_0000_0000int == dev.ticks);
        }
    }

    /// The fetch of the modes that read one immediate byte.
    fn fetch_imm8(&mut self, dev: &mut Devices) -> (r: Result<(), BusFault>)
        requires
            old(self).curr_inst.mode is R_D8 || old(self).curr_inst.mode is HL_SP || old(self).curr_inst.mode is D8
                || old(self).curr_inst.mode is MR_D8 || old(self).curr_inst.mode is A8_R,
            regs_named(old(self).curr_inst),
            old(self).registers.pc + 1 <= 0xFFFF,
            old(dev).wf(),
        ensures
            fetch_post(*old(self), *old(dev), *final(self), *final(dev), r),
    {
        self.mem_dest = 0;
        self.dest_is_mem = false;
        let inst = self.curr_inst;
        let pc = self.registers.pc;
        if inst.mode == AddrMode::A8_R {
            self.fetched_data = self.registers.read(inst.reg_2);
        }
        let ghost d0 = *dev;
        let ghost empty = Seq::<u8>::empty();
        assert(read_address(*old(self), empty, 0) == pc);
        let b = fetch_read(dev, pc)?;
        let ghost d1 = *dev;
        fetch_cycle(dev)?;
        self.registers.pc = pc + 1;
        match inst.mode {
            AddrMode::A8_R => {
                self.mem_dest = b as u16 | 0xFF00;
                self.dest_is_mem = true;
            },
            AddrMode::MR_D8 => {
                self.fetched_data = b as u16;
                self.mem_dest = self.registers.read(inst.reg_1);
                self.dest_is_mem = true;
            },
            _ => self.fetched_data = b as u16,
        }
        proof {
            lemma_dev_step_trans(d0, d1, *dev, 0, 1);
            let v = seq![b];
            assert(read_address(*old(self), v, 0) == pc);
            assert(fetch_trace(*old(self), d0.bus, v));
            assert(*self == spec_fetch(*old(self), v));
        }
        Ok(())
    }

    /// The fetch of the modes that read a 16-bit immediate.
    fn fetch_imm16(&mut self, dev: &mut Devices) -> (r: Result<(), BusFault>)
        requires
            old(self).curr_inst.mode is D16 || old(self).curr_inst.mode is R_D16
                || old(self).curr_inst.mode is D16_R || old(self).curr_inst.mode is A16_R,
            regs_named(old(self).curr_inst),
            old(self).registers.pc + 2 <= 0xFFFF,
            old(dev).wf(),
        ensures
            fetch_post(*old(self), *old(dev), *final(self), *final(dev), r),
    {
        self.mem_dest = 0;
        self.dest_is_mem = false;
        let inst = self.curr_inst;
        let pc = self.registers.pc;
        let ghost d0 = *dev;
        let ghost empty = Seq::<u8>::empty();
        assert(read_address(*old(self), empty, 0) == pc);
        assert(read_address(*old(self), empty, 1) == pc + 1);
        let low = fetch_read(dev, pc)?;
        let ghost d1 = *dev;
        fetch_cycle(dev)?;
        let ghost d2 = *dev;
        proof {
            lemma_dev_step_trans(d0, d1, d2, 0, 1);
        }
        let high = fetch_read(dev, pc + 1)?;
        let ghost d3 = *dev;
        fetch_cycle(dev)?;
        let value = super::registers::join(high, low);
        if inst.mode == AddrMode::D16 || inst.mode == AddrMode::R_D16 {
            self.registers.pc = pc + 2;
            self.fetched_data = value;
        } else {
            self.mem_dest = value;
            self.dest_is_mem = true;
            self.registers.pc = pc + 2;
            self.fetched_data = self.registers.read(inst.reg_2);
        }
        proof {
            lemma_dev_step_trans(d2, d3, *dev, 0, 1);
            lemma_dev_step_trans(d0, d2, *dev, 1, 1);
            let v = seq![low, high];
            assert(read_address(*old(self), v, 0) == pc);
            assert(read_address(*old(self), v, 1) == pc + 1);
            assert(fetch_trace(*old(self), d0.bus, v)) by {
                let t = choose|t: u64| high == #[trigger] d2.bus.spec_read((pc + 1) as u16, t);
                if d0.bus.memory_address((pc + 1) as u16) {
                    assert(high == d0.bus.spec_read((pc + 1) as u16, t));
                }
            }
            assert(*self == spec_fetch(*old(self), v));
        }
        Ok(())
    }

    /// The fetch of the modes that read the byte at a register's address.
    fn fetch_indirect(&mut self, dev: &mut Devices) -> (r: Result<(), BusFault>)
        requires
            old(self).curr_inst.mode is R_MR || old(self).curr_inst.mode is R_HLD
                || old(self).curr_inst.mode is R_HLI || old(self).curr_inst.mode is MR,
            regs_named(old(self).curr_inst),
            old(dev).wf(),
        ensures
            fetch_post(*old(self), *old(dev), *final(self), *final(dev), r),
    {
        self.mem_dest = 0;
        self.dest_is_mem = false;
        let inst = self.curr_inst;
        let mut addr: u16;
        if inst.mode == AddrMode::MR {
            self.mem_dest = self.registers.read(inst.reg_1);
            self.dest_is_mem = true;
            addr = self.mem_dest;
        } else {
            addr = self.registers.read(inst.reg_2);
            if inst.mode == AddrMode::R_MR && inst.reg_2 == RegType::C {
                addr = addr | 0xFF00;
            }
        }
        let ghost d0 = *dev;
        let ghost empty = Seq::<u8>::empty();
        assert(read_address(*old(self), empty, 0) == addr);
        let b = fetch_read(dev, addr)?;
        let ghost d1 = *dev;
        self.fetched_data = b as u16;
        fetch_cycle(dev)?;
        if inst.mode == AddrMode::R_HLD {
            let hl = self.registers.read(RegType::HL);
            self.registers.set(RegType::HL, hl.wrapping_sub(1));
        } else if inst.mode == AddrMode::R_HLI {
            let hl = self.registers.read(RegType::HL);
            self.registers.set(RegType::HL, hl.wrapping_add(1));
        }
        proof {
            lemma_dev_step_trans(d0, d1, *dev, 0, 1);
            let v = seq![b];
            assert(read_address(*old(self), v, 0) == addr);
            assert(fetch_trace(*old(self), d0.bus, v));
            assert(*self == spec_fetch(*old(self), v));
        }
        Ok(())
    }

    /// The fetch of `R_A8`: the byte at `0xFF00` plus an immediate byte.
    fn fetch_high_page(&mut self, dev: &mut Devices) -> (r: Result<(), BusFault>)
        requires
            old(self).curr_inst.mode is R_A8,
            old(self).registers.pc + 1 <= 0xFFFF,
            old(dev).wf(),
        ensures
            fetch_post(*old(self), *old(dev), *final(self), *final(dev), r),
    {
        self.mem_dest = 0;
        self.dest_is_mem = false;
        let pc = self.registers.pc;
        let ghost d0 = *dev;
        let ghost empty = Seq::<u8>::empty();
        assert(read_address(*old(self), empty, 0) == pc);
        let offset = fetch_read(dev, pc)?;
        let address = offset as u16 | 0xFF00;
        let ghost d1 = *dev;
        assert(read_address(*old(self), seq![offset], 1) == address);
        proof { crate::bits::lemma_u16_bits(offset as u16); }
        let b = fetch_read(dev, address)?;
        let ghost d2 = *dev;
        self.fetched_data = b as u16;
        fetch_cycle(dev)?;
        self.registers.pc = pc + 1;
        proof {
            lemma_dev_step_trans(d0, d1, d2, 0, 0);
            lemma_dev_step_trans(d0, d2, *dev, 0, 1);
            let v = seq![offset, b];
            assert(read_address(*old(self), v, 0) == pc);
            assert(read_address(*old(self), v, 1) == address);
            assert(fetch_trace(*old(self), d0.bus, v)) by {
                let n1 = choose|n: u64| offset == #[trigger] d0.bus.spec_read(pc, n) && d0.bus.spec_after_read(&d1.bus, pc, n);
                let t = choose|t: u64| b == #[trigger] d1.bus.spec_read(address, t) && d1.bus.spec_after_read(&d2.bus, address, t);
                assert(b == d0.bus.spec_read(address, t));
            }
            assert(*self == spec_fetch(*old(self), v));
        }
        Ok(())
    }

    /// The fetch of `R_A16`: the byte at a 16-bit immediate address.
    fn fetch_absolute(&mut self, dev: &mut Devices) -> (r: Result<(), BusFault>)
        requires
            old(self).curr_inst.mode is R_A16,
            old(self).registers.pc + 2 <= 0xFFFF,
            old(dev).wf(),
        ensures
            fetch_post(*old(self), *old(dev), *final(self), *final(dev), r),
    {
        self.mem_dest = 0;
        self.dest_is_mem = false;
        let pc = self.registers.pc;
        let ghost d0 = *dev;
        let ghost empty = Seq::<u8>::empty();
        assert(read_address(*old(self), empty, 0) == pc);
        assert(read_address(*old(self), empty, 1) == pc + 1);
        let low = fetch_read(dev, pc)?;
        let ghost d1 = *dev;
        fetch_cycle(dev)?;
        let ghost d2 = *dev;
        proof {
            lemma_dev_step_trans(d0, d1, d2, 0, 1);
        }
        let high = fetch_read(dev, pc + 1)?;
        let ghost d3 = *dev;
        fetch_cycle(dev)?;
        let ghost d4 = *dev;
        proof {
            lemma_dev_step_trans(d2, d3, d4, 0, 1);
            lemma_dev_step_trans(d0, d2, d4, 1, 1);
        }
        let address = super::registers::join(high, low);
        self.registers.pc = pc + 2;
        assert(read_address(*old(self), seq![low, high], 2) == address);
        let b = fetch_read(dev, address)?;
        let ghost d5 = *dev;
        self.fetched_data = b as u16;
        fetch_cycle(dev)?;
        proof {
            lemma_dev_step_trans(d4, d5, *dev, 0, 1);
            lemma_dev_step_trans(d0, d4, *dev, 2, 1);
            let v = seq![low, high, b];
            assert(read_address(*old(self), v, 0) == pc);
            assert(read_address(*old(self), v, 1) == pc + 1);
            assert(read_address(*old(self), v, 2) == address);
            assert(fetch_trace(*old(self), d0.bus, v)) by {
                let t1 = choose|t: u64| high == #[trigger] d2.bus.spec_read((pc + 1) as u16, t);
                if d0.bus.memory_address((pc + 1) as u16) {
                    assert(high == d0.bus.spec_read((pc + 1) as u16, t1));
                }
                let t2 = choose|t: u64| b == #[trigger] d4.bus.spec_read(address, t);
                if d0.bus.memory_address(address) {
                    assert(b == d0.bus.spec_read(address, t2));
                }
            }
            assert(*self == spec_fetch(*old(self), v));
        }
        Ok(())
    }

    /// Fetches the operand of the current instruction, as its addressing mode
    /// says: from registers, from immediate bytes after the opcode (moving PC
    /// past them), or from memory; the modes that write memory also set the
    /// destination address. Fails where the bus does not define a read, or
    /// where the DMA unit faults during one of the machine cycles.
    pub fn fetch_data(&mut self, dev: &mut Devices) -> (r: Result<(), BusFault>)
        requires
            old(dev).wf(),
            regs_named(old(self).curr_inst),
            old(self).registers.pc + imm_len(old(self).curr_inst.mode) <= 0xFFFF,
        ensures
            fetch_post(*old(self), *old(dev), *final(self), *final(dev), r),
    {
        match self.curr_inst.mode {
            AddrMode::IMP | AddrMode::R | AddrMode::R_R | AddrMode::MR_R | AddrMode::HLD_R | AddrMode::HLI_R => {
                self.fetch_from_registers(dev);
                Ok(())
            },
            AddrMode::R_D8 | AddrMode::HL_SP | AddrMode::D8 | AddrMode::MR_D8 | AddrMode::A8_R => self.fetch_imm8(dev),
            AddrMode::D16 | AddrMode::R_D16 | AddrMode::D16_R | AddrMode::A16_R => self.fetch_imm16(dev),
            AddrMode::R_MR | AddrMode::R_HLD | AddrMode::R_HLI | AddrMode::MR => self.fetch_indirect(dev),
            AddrMode::R_A8 => self.fetch_high_page(dev),
            AddrMode::R_A16 => self.fetch_absolute(dev),
        }
    }
}

} // verus!
