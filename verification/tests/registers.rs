use rsgb_core::cpu::instruction::RegType;
use rsgb_core::cpu::registers::CpuRegisters;

#[test]
fn test_register_hl_read_write() {
    let mut regs = CpuRegisters {
        a: 0, f: 0,
        b: 0, c: 0,
        d: 0, e: 0,
        h: 0x12, l: 0x34,
        sp: 0, pc: 0,
    };

    assert_eq!(regs.read(RegType::HL), 0x1234);

    regs.set(RegType::HL, regs.read(RegType::HL).wrapping_add(1));
    assert_eq!(regs.h, 0x12);
    assert_eq!(regs.l, 0x34 + 1);
    assert_eq!(regs.read(RegType::HL), 0x1234 + 1);
}

#[test]
fn registers_after_boot() {
    let regs = CpuRegisters::new();
    assert_eq!(regs.read(RegType::AF), 0x01B0);
    assert_eq!(regs.read(RegType::BC), 0x0013);
    assert_eq!(regs.read(RegType::DE), 0x00D8);
    assert_eq!(regs.read(RegType::HL), 0x014D);
    assert_eq!(regs.read(RegType::SP), 0xFFFE);
    assert_eq!(regs.read(RegType::PC), 0x0100);
}

#[test]
fn pair_write_splits_high_byte_first() {
    let mut regs = CpuRegisters::new();
    regs.set(RegType::DE, 0xBEEF);
    assert_eq!(regs.d, 0xBE);
    assert_eq!(regs.e, 0xEF);
    assert_eq!(regs.read(RegType::D), 0xBE);
    assert_eq!(regs.read(RegType::E), 0xEF);
    // the other registers are untouched
    assert_eq!(regs.read(RegType::BC), 0x0013);
    assert_eq!(regs.read(RegType::HL), 0x014D);
}

#[test]
fn byte_register_keeps_low_byte() {
    let mut regs = CpuRegisters::new();
    regs.set(RegType::A, 0x1234);
    assert_eq!(regs.a, 0x34);
    assert_eq!(regs.read(RegType::A), 0x34);
    assert_eq!(regs.read(RegType::AF), 0x34B0);
}

#[test]
fn half_write_changes_its_pair() {
    let mut regs = CpuRegisters::new();
    regs.set(RegType::H, 0xC0);
    assert_eq!(regs.read(RegType::HL), 0xC04D);
    regs.set(RegType::SP, 0x1234);
    regs.set(RegType::PC, 0x4321);
    assert_eq!(regs.sp, 0x1234);
    assert_eq!(regs.pc, 0x4321);
}

#[test]
fn reg8_classification() {
    assert!(RegType::A.is_8bit());
    assert!(RegType::L.is_8bit());
    assert!(!RegType::HL.is_8bit());
    assert!(!RegType::NONE.is_8bit());
    assert!(!RegType::SP.is_8bit());
}
