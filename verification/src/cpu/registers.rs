use vstd::prelude::*;
use super::instruction::{RegType, is_reg8};
use crate::interconnect::Interconnect;

verus! {

/// The registers of the CPU.
#[derive(Debug, Clone, Copy, PartialEq, Eq, Structural)]
pub struct CpuRegisters {
    pub a: u8,
    pub f: u8,
    pub b: u8,
    pub c: u8,
    pub d: u8,
    pub e: u8,
    pub h: u8,
    pub l: u8,
    pub pc: u16,
    pub sp: u16,
}

/// The 16-bit value of a pair of 8-bit registers, `high` first.
pub open spec fn pair(high: u8, low: u8) -> u16 {
    (high as int * 256 + low as int) as u16
}

/// `(high << 8) | low`, computed.
pub(crate) fn join(high: u8, low: u8) -> (r: u16)
    ensures
        r == pair(high, low),
{
    let hi: u16 = high as u16;
    let lo: u16 = low as u16;
    proof { crate::bits::lemma_join_bytes(hi, lo); }
    hi << 8 | lo
}

/// The high byte of `v`.
pub open spec fn high_byte(v: u16) -> u8 {
    (v / 256) as u8
}

/// The low byte of `v`.
pub open spec fn low_byte(v: u16) -> u8 {
    (v % 256) as u8
}

/// The register pairs: AF, BC, DE and HL read as their first register in the
/// high byte and the second in the low byte; writing a pair puts its high
/// byte in the first register and its low byte in the second, and reads back;
/// writing an 8-bit register keeps the low byte and leaves its partner alone.
pub proof fn lemma_register_pairs(r: CpuRegisters, v: u16)
    ensures
        r.spec_read(RegType::AF) == r.spec_read(RegType::A) * 256 + r.spec_read(RegType::F),
        r.spec_read(RegType::BC) == r.spec_read(RegType::B) * 256 + r.spec_read(RegType::C),
        r.spec_read(RegType::DE) == r.spec_read(RegType::D) * 256 + r.spec_read(RegType::E),
        r.spec_read(RegType::HL) == r.spec_read(RegType::H) * 256 + r.spec_read(RegType::L),
        r.spec_set(RegType::AF, v).spec_read(RegType::A) == v >> 8 && r.spec_set(RegType::AF, v).spec_read(RegType::F) == v & 0xFF,
        r.spec_set(RegType::BC, v).spec_read(RegType::B) == v >> 8 && r.spec_set(RegType::BC, v).spec_read(RegType::C) == v & 0xFF,
        r.spec_set(RegType::DE, v).spec_read(RegType::D) == v >> 8 && r.spec_set(RegType::DE, v).spec_read(RegType::E) == v & 0xFF,
        r.spec_set(RegType::HL, v).spec_read(RegType::H) == v >> 8 && r.spec_set(RegType::HL, v).spec_read(RegType::L) == v & 0xFF,
        r.spec_set(RegType::AF, v).spec_read(RegType::AF) == v,
        r.spec_set(RegType::BC, v).spec_read(RegType::BC) == v,
        r.spec_set(RegType::DE, v).spec_read(RegType::DE) == v,
        r.spec_set(RegType::HL, v).spec_read(RegType::HL) == v,
        r.spec_set(RegType::B, v).spec_read(RegType::B) == v & 0xFF && r.spec_set(RegType::B, v).spec_read(RegType::C) == r.spec_read(RegType::C),
        r.spec_set(RegType::H, v).spec_read(RegType::H) == v & 0xFF && r.spec_set(RegType::H, v).spec_read(RegType::L) == r.spec_read(RegType::L),
        r.spec_set(RegType::L, v).spec_read(RegType::L) == v & 0xFF && r.spec_set(RegType::L, v).spec_read(RegType::H) == r.spec_read(RegType::H),
{
    assert((v >> 8) as int == v / 256 && (v & 0xFF) as int == v % 256) by (bit_vector);
    assert(#[verifier::truncate] (v as u8) as u16 == v & 0xFF) by (bit_vector);
}

/// `((v & 0xFF00) >> 8, v as u8)`, computed.
fn split(v: u16) -> (r: (u8, u8))
    ensures
        r.0 == high_byte(v),
        r.1 == low_byte(v),
{
    proof { crate::bits::lemma_u16_bits(v); }
    (((v & 0xFF00) >> 8) as u8, v as u8)
}

impl CpuRegisters {
    /// The value of a register (8-bit registers give their byte, pairs the
    /// first register as the high byte).
    pub open spec fn spec_read(&self, register: RegType) -> u16 {
        match register {
            RegType::NONE => 0,
            RegType::A => self.a as u16,
            RegType::F => self.f as u16,
            RegType::B => self.b as u16,
            RegType::C => self.c as u16,
            RegType::D => self.d as u16,
            RegType::E => self.e as u16,
            RegType::H => self.h as u16,
            RegType::L => self.l as u16,
            RegType::AF => pair(self.a, self.f),
            RegType::BC => pair(self.b, self.c),
            RegType::DE => pair(self.d, self.e),
            RegType::HL => pair(self.h, self.l),
            RegType::SP => self.sp,
            RegType::PC => self.pc,
        }
    }

    /// The registers after `register` is set to `value` (an 8-bit register
    /// takes the low byte, a pair is split high byte first).
    pub open spec fn spec_set(&self, register: RegType, value: u16) -> CpuRegisters {
        match register {
            RegType::NONE => *self,
            RegType::A => CpuRegisters { a: value as u8, ..*self },
            RegType::F => CpuRegisters { f: value as u8, ..*self },
            RegType::B => CpuRegisters { b: value as u8, ..*self },
            RegType::C => CpuRegisters { c: value as u8, ..*self },
            RegType::D => CpuRegisters { d: value as u8, ..*self },
            RegType::E => CpuRegisters { e: value as u8, ..*self },
            RegType::H => CpuRegisters { h: value as u8, ..*self },
            RegType::L => CpuRegisters { l: value as u8, ..*self },
            RegType::AF => CpuRegisters { a: high_byte(value), f: low_byte(value), ..*self },
            RegType::BC => CpuRegisters { b: high_byte(value), c: low_byte(value), ..*self },
            RegType::DE => CpuRegisters { d: high_byte(value), e: low_byte(value), ..*self },
            RegType::HL => CpuRegisters { h: high_byte(value), l: low_byte(value), ..*self },
            RegType::SP => CpuRegisters { sp: value, ..*self },
            RegType::PC => CpuRegisters { pc: value, ..*self },
        }
    }

    /// The registers after the boot ROM.
    pub fn new() -> (r: CpuRegisters)
        ensures
            r == (CpuRegisters { a: 0x01, f: 0xB0, b: 0x00, c: 0x13, d: 0x00, e: 0xD8, h: 0x01, l: 0x4D, pc: 0x100, sp: 0xFFFE }),
    {
        CpuRegisters { a: 0x01, f: 0xB0, b: 0x00, c: 0x13, d: 0x00, e: 0xD8, h: 0x01, l: 0x4D, pc: 0x100, sp: 0xFFFE }
    }

    /// Reads a register (`NONE` names no register).
    pub fn read(&self, register: RegType) -> (r: u16)
        requires
            register != RegType::NONE,
        ensures
            r == self.spec_read(register),
    {
        match register {
            RegType::NONE => 0,
            RegType::A => self.a as u16,
            RegType::F => self.f as u16,
            RegType::B => self.b as u16,
            RegType::C => self.c as u16,
            RegType::D => self.d as u16,
            RegType::E => self.e as u16,
            RegType::H => self.h as u16,
            RegType::L => self.l as u16,
            RegType::AF => join(self.a, self.f),
            RegType::BC => join(self.b, self.c),
            RegType::DE => join(self.d, self.e),
            RegType::HL => join(self.h, self.l),
            RegType::SP => self.sp,
            RegType::PC => self.pc,
        }
    }

    /// Sets a register (`NONE` names no register).
    pub fn set(&mut self, register: RegType, value: u16)
        requires
            register != RegType::NONE,
        ensures
            *final(self) == old(self).spec_set(register, value),
    {
        match register {
            RegType::NONE => {},
            RegType::A => self.a = value as u8,
            RegType::F => self.f = value as u8,
            RegType::B => self.b = value as u8,
            RegType::C => self.c = value as u8,
            RegType::D => self.d = value as u8,
            RegType::E => self.e = value as u8,
            RegType::H => self.h = value as u8,
            RegType::L => self.l = value as u8,
            RegType::AF => {
                let (hi, lo) = split(value);
                self.a = hi;
                self.f = lo;
            },
            RegType::BC => {
                let (hi, lo) = split(value);
                self.b = hi;
                self.c = lo;
            },
            RegType::DE => {
                let (hi, lo) = split(value);
                self.d = hi;
                self.e = lo;
            },
            RegType::HL => {
                let (hi, lo) = split(value);
                self.h = hi;
                self.l = lo;
            },
            RegType::SP => self.sp = value,
            RegType::PC => self.pc = value,
        }
    }

    /// Reads an 8-bit operand: an 8-bit register, or the byte at HL for `HL`
    /// (no other register is such an operand).
    pub fn read_reg8(&self, bus: &mut Interconnect, register: RegType) -> (r: u8)
        requires
            is_reg8(register) || register == RegType::HL,
            old(bus).wf(),
            register == RegType::HL ==> old(bus).readable(self.spec_read(RegType::HL)),
        ensures
            final(bus).wf(),
            is_reg8(register) ==> r == self.spec_read(register) && *final(bus) == *old(bus),
            register == RegType::HL ==> exists|now: u64|
                r == #[trigger] old(bus).spec_read(self.spec_read(RegType::HL), now)
                && old(bus).spec_after_read(final(bus), self.spec_read(RegType::HL), now),
    {
        if register.is_8bit() {
            self.read(register) as u8
        } else {
            bus.read(self.read(register))
        }
    }

    /// Writes an 8-bit operand: an 8-bit register, or the byte at HL for `HL`
    /// (no other register is such an operand).
    pub fn set_reg8(&mut self, bus: &mut Interconnect, register: RegType, value: u8)
        requires
            is_reg8(register) || register == RegType::HL,
            old(bus).wf(),
            register == RegType::HL ==> old(bus).writable(old(self).spec_read(RegType::HL)),
        ensures
            final(bus).wf(),
            is_reg8(register) ==> *final(self) == old(self).spec_set(register, value as u16) && *final(bus) == *old(bus),
            register == RegType::HL ==> *final(self) == *old(self) && exists|now: u64|
                #[trigger] old(bus).spec_write(final(bus), old(self).spec_read(RegType::HL), value, now),
    {
        if register.is_8bit() {
            self.set(register, value as u16)
        } else {
            let address = self.read(register);
            bus.write(address, value)
        }
    }
}

/// Whether two registers share storage: the same register, or a pair and
/// one of its halves.
pub open spec fn overlaps(r: RegType, s: RegType) -> bool {
    let halves = |p: RegType| -> (RegType, RegType) {
        match p {
            RegType::AF => (RegType::A, RegType::F),
            RegType::BC => (RegType::B, RegType::C),
            RegType::DE => (RegType::D, RegType::E),
            RegType::HL => (RegType::H, RegType::L),
            _ => (p, p),
        }
    };
    ||| r == s
    ||| halves(r).0 == s || halves(r).1 == s
    ||| halves(s).0 == r || halves(s).1 == r
}

/// Setting a register and reading it back gives the value (its low byte for
/// an 8-bit register), and leaves every register that shares no storage with
/// it as it was.
pub proof fn lemma_set_read(regs: CpuRegisters, r: RegType, s: RegType, value: u16)
    requires
        r != RegType::NONE,
    ensures
        regs.spec_set(r, value).spec_read(r) == (if is_reg8(r) { (value % 256) as u16 } else { value }),
        !overlaps(r, s) ==> regs.spec_set(r, value).spec_read(s) == regs.spec_read(s),
{
    let v = value;
    assert((v / 256) as u8 as int * 256 + (v % 256) as u8 as int == v as int) by (nonlinear_arith);
    crate::bits::lemma_u16_bits(v);
}

} // verus!
