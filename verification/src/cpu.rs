use vstd::prelude::*;

pub mod fetch_data;
pub mod instruction;
pub mod interrupts;
pub mod registers;
pub mod stack;
pub mod step;

use crate::devices::Devices;
use crate::utils::{BIT_IGNORE, bit_of, bit_set};
use instruction::{AddrMode, CondType, Instruction, RegType};
use registers::CpuRegisters;

verus! {

/// The CPU: its registers, the operand of the instruction being executed,
/// and the halt and interrupt-enable state.
pub struct CPU {
    pub registers: CpuRegisters,

    /// The operand fetched for the current instruction.
    pub fetched_data: u16,
    /// Where the current instruction writes its result, when `dest_is_mem`.
    pub mem_dest: u16,
    pub dest_is_mem: bool,
    pub curr_opcode: u8,
    pub curr_inst: Instruction,

    pub halted: bool,
    pub stepping: bool,

    /// The interrupt master enable flag (IME).
    pub int_master_enabled: bool,
    /// Set by `EI`: IME is set after the next instruction.
    pub enabling_ime: bool,
}

/// What `set_flags` gives to one flag: kept when the argument is `BIT_IGNORE`,
/// else set when it is 1.
pub open spec fn flag_value(old: bool, arg: u8) -> bool {
    if arg == BIT_IGNORE { old } else { arg == 1 }
}

impl CPU {
    /// The CPU after the boot ROM, about to execute the cartridge's entry point.
    pub fn new() -> (r: CPU)
        ensures
            r.registers == (CpuRegisters { a: 0x01, f: 0xB0, b: 0x00, c: 0x13, d: 0x00, e: 0xD8, h: 0x01, l: 0x4D, pc: 0x100, sp: 0xFFFE }),
            r.fetched_data == 0,
            r.mem_dest == 0,
            !r.dest_is_mem,
            r.curr_opcode == 0,
            r.curr_inst == (Instruction { mode: AddrMode::IMP, reg_1: RegType::NONE, reg_2: RegType::NONE, cond: CondType::NONE }),
            !r.halted,
            !r.stepping,
            !r.int_master_enabled,
            !r.enabling_ime,
    {
        let registers = CpuRegisters::new();
        CPU {
            registers,
            fetched_data: 0,
            mem_dest: 0,
            dest_is_mem: false,
            curr_opcode: 0,
            curr_inst: Instruction::nop(),
            halted: false,
            stepping: false,
            int_master_enabled: false,
            enabling_ime: false,
        }
    }

    /// The zero flag (bit 7 of F).
    pub fn z_flag(&self) -> (r: bool)
        ensures
            r == bit_of(self.registers.f, 7),
    {
        let f = self.registers.f;
        proof { crate::bits::lemma_u8_bits(f); }
        assert((f & 0b10000000 != 0) == ((f >> 7u8) & 1 == 1));
        (f & 0b10000000) != 0
    }

    /// The subtract flag (bit 6 of F).
    pub fn n_flag(&self) -> (r: bool)
        ensures
            r == bit_of(self.registers.f, 6),
    {
        let f = self.registers.f;
        proof { crate::bits::lemma_u8_bits(f); }
        assert((f & 0b01000000 != 0) == ((f >> 6u8) & 1 == 1));
        (f & 0b01000000) != 0
    }

    /// The half-carry flag (bit 5 of F).
    pub fn h_flag(&self) -> (r: bool)
        ensures
            r == bit_of(self.registers.f, 5),
    {
        let f = self.registers.f;
        proof { crate::bits::lemma_u8_bits(f); }
        assert((f & 0b00100000 != 0) == ((f >> 5u8) & 1 == 1));
        (f & 0b00100000) != 0
    }

    /// The carry flag (bit 4 of F).
    pub fn c_flag(&self) -> (r: bool)
        ensures
            r == bit_of(self.registers.f, 4),
    {
        let f = self.registers.f;
        proof { crate::bits::lemma_u8_bits(f); }
        assert((f & 0b00010000 != 0) == ((f >> 4u8) & 1 == 1));
        (f & 0b00010000) != 0
    }

    /// Whether the condition of the current instruction holds.
    pub open spec fn spec_cond(&self) -> bool {
        let z = bit_of(self.registers.f, 7);
        let c = bit_of(self.registers.f, 4);
        match self.curr_inst.cond {
            CondType::NONE => true,
            CondType::Z => z,
            CondType::NZ => !z,
            CondType::C => c,
            CondType::NC => !c,
        }
    }

    /// Whether the condition of the current instruction holds.
    pub fn check_cond(&self) -> (r: bool)
        ensures
            r == self.spec_cond(),
    {
        let z = self.z_flag();
        let c = self.c_flag();
        match self.curr_inst.cond {
            CondType::NONE => true,
            CondType::Z => z,
            CondType::NZ => !z,
            CondType::C => c,
            CondType::NC => !c,
        }
    }

    /// Sets the flags Z, N, H and C: each argument sets its flag when 1,
    /// clears it when 0 or another value, and leaves it when `BIT_IGNORE`.
    pub fn set_flags(&mut self, z: u8, n: u8, h: u8, c: u8)
        ensures
            bit_of(final(self).registers.f, 7) == flag_value(bit_of(old(self).registers.f, 7), z),
            bit_of(final(self).registers.f, 6) == flag_value(bit_of(old(self).registers.f, 6), n),
            bit_of(final(self).registers.f, 5) == flag_value(bit_of(old(self).registers.f, 5), h),
            bit_of(final(self).registers.f, 4) == flag_value(bit_of(old(self).registers.f, 4), c),
            forall|i: u8| i < 4 ==> #[trigger] bit_of(final(self).registers.f, i) == bit_of(old(self).registers.f, i),
            final(self).registers == (CpuRegisters { f: final(self).registers.f, ..old(self).registers }),
            *final(self) == (CPU { registers: final(self).registers, ..*old(self) }),
    {
        if z != BIT_IGNORE {
            bit_set(&mut self.registers.f, 7, z == 1);
        }
        if n != BIT_IGNORE {
            bit_set(&mut self.registers.f, 6, n == 1);
        }
        if h != BIT_IGNORE {
            bit_set(&mut self.registers.f, 5, h == 1);
        }
        if c != BIT_IGNORE {
            bit_set(&mut self.registers.f, 4, c == 1);
        }
    }

    /// The interrupt flags register (IF, `0xFF0F`).
    pub fn get_int_flags(&self, dev: &mut Devices) -> (r: u8)
        requires
            old(dev).bus.wf(),
        ensures
            r == old(dev).bus.io.if_register,
            *final(dev) == *old(dev),
    {
        dev.read8(0xFF0F)
    }

    /// Writes the interrupt flags register (IF, `0xFF0F`).
    pub fn set_int_flags(&mut self, dev: &mut Devices, value: u8)
        requires
            old(dev).bus.wf(),
        ensures
            final(dev).bus.wf(),
            old(dev).bus.same_but_io(&final(dev).bus),
            final(dev).bus.io == (crate::interconnect::io::IO { if_register: value, ..old(dev).bus.io }),
            *final(dev) == (Devices { bus: final(dev).bus, ..*old(dev) }),
            *final(self) == *old(self),
    {
        dev.write8(0xFF0F, value)
    }
}

} // verus!
