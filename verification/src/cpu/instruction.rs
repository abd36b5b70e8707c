use vstd::prelude::*;

verus! {

/// The registers that an instruction names: the eight 8-bit registers, the
/// four pairs, the stack pointer and the program counter.
#[derive(Debug, Clone, Copy, PartialEq, Eq, Structural)]
pub enum RegType {
    NONE,
    A,
    F,
    B,
    C,
    D,
    E,
    H,
    L,
    AF,
    BC,
    DE,
    HL,
    SP,
    PC,
}

/// Whether a register is one of the eight 8-bit registers (those that come
/// before `AF`).
pub open spec fn is_reg8(r: RegType) -> bool {
    r is A || r is F || r is B || r is C || r is D || r is E || r is H || r is L
}

impl RegType {
    /// Whether this is one of the eight 8-bit registers.
    pub fn is_8bit(&self) -> (r: bool)
        ensures
            r == is_reg8(*self),
    {
        match self {
            RegType::A | RegType::F | RegType::B | RegType::C | RegType::D | RegType::E | RegType::H
            | RegType::L => true,
            _ => false,
        }
    }
}

/// The condition of a conditional jump, call or return.
#[derive(Debug, Clone, Copy, PartialEq, Eq, Structural)]
pub enum CondType {
    NONE,
    NZ,
    Z,
    NC,
    C,
}

/// Where an instruction takes its operand from and where its result goes.
#[allow(non_camel_case_types)]
#[derive(Debug, Clone, Copy, PartialEq, Eq, Structural)]
pub enum AddrMode {
    /// No operand.
    IMP,
    /// A register and a 16-bit immediate.
    R_D16,
    /// Two registers.
    R_R,
    /// Memory at a register, from a register.
    MR_R,
    /// A register.
    R,
    /// A register and an 8-bit immediate.
    R_D8,
    /// A register, from memory at a register.
    R_MR,
    /// A register, from memory at HL, HL incremented.
    R_HLI,
    /// A register, from memory at HL, HL decremented.
    R_HLD,
    /// Memory at HL, HL incremented, from a register.
    HLI_R,
    /// Memory at HL, HL decremented, from a register.
    HLD_R,
    /// A register, from high memory at an 8-bit immediate.
    R_A8,
    /// High memory at an 8-bit immediate, from a register.
    A8_R,
    /// HL, from SP and a signed 8-bit immediate.
    HL_SP,
    /// A 16-bit immediate.
    D16,
    /// An 8-bit immediate.
    D8,
    /// Memory at a 16-bit immediate, from a register.
    D16_R,
    /// Memory at a register, from an 8-bit immediate.
    MR_D8,
    /// Memory at a register.
    MR,
    /// Memory at a 16-bit immediate address, from a register.
    A16_R,
    /// A register, from memory at a 16-bit immediate address.
    R_A16,
}

/// What the operand fetch needs of a decoded instruction.
#[derive(Debug, Clone, Copy, PartialEq, Eq, Structural)]
pub struct Instruction {
    pub mode: AddrMode,
    pub reg_1: RegType,
    pub reg_2: RegType,
    pub cond: CondType,
}

impl Instruction {
    /// The instruction of opcode `0x00`: no operation.
    pub fn nop() -> (r: Instruction)
        ensures
            r == (Instruction { mode: AddrMode::IMP, reg_1: RegType::NONE, reg_2: RegType::NONE, cond: CondType::NONE }),
    {
        Instruction { mode: AddrMode::IMP, reg_1: RegType::NONE, reg_2: RegType::NONE, cond: CondType::NONE }
    }
}

} // verus!
