use rsgb_core::cart::Cartridge;
use rsgb_core::cpu::CPU;
use rsgb_core::cpu::instruction::{AddrMode, CondType, Instruction, RegType};
use rsgb_core::cpu::interrupts::InterruptType;
use rsgb_core::gameboy::Gameboy;
use rsgb_core::interconnect::BusFault;
use rsgb_core::utils::ColorMode;

/// A 32 KiB ROM-only image whose bytes from 0x100 on are `program`.
fn rom_with(program: &[u8]) -> Vec<u8> {
    let mut rom = vec![0u8; 0x8000];
    rom[0x147] = 0x00;
    rom[0x148] = 0x00;
    rom[0x149] = 0x00;
    for (i, b) in program.iter().enumerate() {
        rom[0x100 + i] = *b;
    }
    rom
}

fn console(program: &[u8]) -> Gameboy {
    let mut gb = Gameboy::new(ColorMode::ARGB);
    let cart = Cartridge::from_rom(rom_with(program)).ok().unwrap();
    gb.insert_cartridge(cart);
    gb
}

fn inst(mode: AddrMode, reg_1: RegType, reg_2: RegType) -> Instruction {
    Instruction { mode, reg_1, reg_2, cond: CondType::NONE }
}

#[test]
fn cpu_after_boot() {
    let cpu = CPU::new();
    assert_eq!(cpu.registers.pc, 0x100);
    assert_eq!(cpu.registers.sp, 0xFFFE);
    assert_eq!(cpu.curr_inst, Instruction::nop());
    assert!(!cpu.halted);
    assert!(!cpu.int_master_enabled);
    // F = 0xB0: Z, H and C set
    assert!(cpu.z_flag());
    assert!(!cpu.n_flag());
    assert!(cpu.h_flag());
    assert!(cpu.c_flag());
}

#[test]
fn set_flags_sets_clears_and_ignores() {
    let mut cpu = CPU::new();
    cpu.set_flags(0, 1, 2, 0);
    assert_eq!(cpu.registers.f, 0x60);
    cpu.registers.f = 0x0F;
    cpu.set_flags(1, 2, 2, 1);
    assert_eq!(cpu.registers.f, 0x9F);
}

#[test]
fn conditions_follow_flags() {
    let mut cpu = CPU::new();
    cpu.registers.f = 0x80; // Z set, C clear
    cpu.curr_inst.cond = CondType::Z;
    assert!(cpu.check_cond());
    cpu.curr_inst.cond = CondType::NZ;
    assert!(!cpu.check_cond());
    cpu.curr_inst.cond = CondType::C;
    assert!(!cpu.check_cond());
    cpu.curr_inst.cond = CondType::NC;
    assert!(cpu.check_cond());
    cpu.curr_inst.cond = CondType::NONE;
    assert!(cpu.check_cond());
}

#[test]
fn fetch_immediate_byte() {
    let mut gb = console(&[0x42]);
    gb.cpu.curr_inst = inst(AddrMode::R_D8, RegType::A, RegType::NONE);
    let ticks = gb.devices.ticks;
    assert_eq!(gb.cpu.fetch_data(&mut gb.devices), Ok(()));
    assert_eq!(gb.cpu.fetched_data, 0x42);
    assert_eq!(gb.cpu.registers.pc, 0x101);
    assert!(!gb.cpu.dest_is_mem);
    assert_eq!(gb.devices.ticks, ticks + 4);
}

#[test]
fn fetch_immediate_word() {
    let mut gb = console(&[0x34, 0x12]);
    gb.cpu.curr_inst = inst(AddrMode::R_D16, RegType::BC, RegType::NONE);
    let ticks = gb.devices.ticks;
    assert_eq!(gb.cpu.fetch_data(&mut gb.devices), Ok(()));
    assert_eq!(gb.cpu.fetched_data, 0x1234);
    assert_eq!(gb.cpu.registers.pc, 0x102);
    assert_eq!(gb.devices.ticks, ticks + 8);
}

#[test]
fn fetch_store_to_immediate_address() {
    let mut gb = console(&[0x00, 0xC1]);
    gb.cpu.curr_inst = inst(AddrMode::A16_R, RegType::NONE, RegType::A);
    gb.cpu.registers.a = 0x99;
    assert_eq!(gb.cpu.fetch_data(&mut gb.devices), Ok(()));
    assert_eq!(gb.cpu.mem_dest, 0xC100);
    assert!(gb.cpu.dest_is_mem);
    assert_eq!(gb.cpu.fetched_data, 0x99);
    assert_eq!(gb.cpu.registers.pc, 0x102);
}

#[test]
fn fetch_from_absolute_address() {
    let mut gb = console(&[0x10, 0xC0]);
    gb.devices.write8(0xC010, 0x77);
    gb.cpu.curr_inst = inst(AddrMode::R_A16, RegType::A, RegType::NONE);
    let ticks = gb.devices.ticks;
    assert_eq!(gb.cpu.fetch_data(&mut gb.devices), Ok(()));
    assert_eq!(gb.cpu.fetched_data, 0x77);
    assert_eq!(gb.cpu.registers.pc, 0x102);
    assert_eq!(gb.devices.ticks, ticks + 12);
}

#[test]
fn fetch_high_page() {
    let mut gb = console(&[0x85]);
    gb.devices.write8(0xFF85, 0x3C);
    gb.cpu.curr_inst = inst(AddrMode::R_A8, RegType::A, RegType::NONE);
    assert_eq!(gb.cpu.fetch_data(&mut gb.devices), Ok(()));
    assert_eq!(gb.cpu.fetched_data, 0x3C);
    assert_eq!(gb.cpu.registers.pc, 0x101);
}

#[test]
fn fetch_store_through_c() {
    let mut gb = console(&[]);
    gb.cpu.registers.c = 0x80;
    gb.cpu.registers.a = 0x11;
    gb.cpu.curr_inst = inst(AddrMode::MR_R, RegType::C, RegType::A);
    let ticks = gb.devices.ticks;
    assert_eq!(gb.cpu.fetch_data(&mut gb.devices), Ok(()));
    assert_eq!(gb.cpu.mem_dest, 0xFF80);
    assert!(gb.cpu.dest_is_mem);
    assert_eq!(gb.cpu.fetched_data, 0x11);
    assert_eq!(gb.devices.ticks, ticks);
}

#[test]
fn fetch_steps_hl() {
    let mut gb = console(&[]);
    gb.cpu.registers.h = 0xC0;
    gb.cpu.registers.l = 0x00;
    gb.cpu.registers.a = 0x5A;
    gb.cpu.curr_inst = inst(AddrMode::HLI_R, RegType::HL, RegType::A);
    assert_eq!(gb.cpu.fetch_data(&mut gb.devices), Ok(()));
    assert_eq!(gb.cpu.mem_dest, 0xC000);
    assert_eq!(gb.cpu.registers.read(RegType::HL), 0xC001);

    gb.devices.write8(0xC001, 0x66);
    gb.cpu.curr_inst = inst(AddrMode::R_HLD, RegType::A, RegType::HL);
    assert_eq!(gb.cpu.fetch_data(&mut gb.devices), Ok(()));
    assert_eq!(gb.cpu.fetched_data, 0x66);
    assert_eq!(gb.cpu.registers.read(RegType::HL), 0xC000);
    assert!(!gb.cpu.dest_is_mem);
}

#[test]
fn fetch_register_operand() {
    let mut gb = console(&[]);
    gb.cpu.curr_inst = inst(AddrMode::R_R, RegType::A, RegType::DE);
    assert_eq!(gb.cpu.fetch_data(&mut gb.devices), Ok(()));
    assert_eq!(gb.cpu.fetched_data, 0x00D8);
    assert_eq!(gb.cpu.registers.pc, 0x100);
}

#[test]
fn fetch_without_cartridge_faults() {
    let mut gb = Gameboy::new(ColorMode::ARGB);
    gb.cpu.curr_inst = inst(AddrMode::D8, RegType::NONE, RegType::NONE);
    assert_eq!(gb.cpu.fetch_data(&mut gb.devices), Err(BusFault::Read(0x100)));
}

#[test]
fn push_then_pop() {
    let mut gb = console(&[]);
    assert_eq!(gb.cpu.push(&mut gb.devices, 0xAB), Ok(()));
    assert_eq!(gb.cpu.registers.sp, 0xFFFD);
    assert_eq!(gb.devices.read8(0xFFFD), 0xAB);
    assert_eq!(gb.cpu.pop(&mut gb.devices), Ok(0xAB));
    assert_eq!(gb.cpu.registers.sp, 0xFFFE);
}

#[test]
fn push_into_rom_without_cartridge_faults() {
    let mut gb = Gameboy::new(ColorMode::ARGB);
    gb.cpu.registers.sp = 0x0100;
    assert_eq!(gb.cpu.push(&mut gb.devices, 1), Err(BusFault::Write(0x00FF)));
}

#[test]
fn interrupt_dispatch_to_vector() {
    let mut gb = console(&[]);
    gb.devices.write8(0xFFFF, 0x05); // VBlank and timer enabled
    gb.devices.write8(0xFF0F, 0x04); // timer requested
    gb.cpu.int_master_enabled = true;
    gb.cpu.halted = true;
    gb.cpu.registers.pc = 0x1234;
    assert_eq!(gb.cpu.handle_interrupts(&mut gb.devices), Ok(()));
    assert_eq!(gb.cpu.registers.pc, 0x50);
    assert_eq!(gb.cpu.registers.sp, 0xFFFC);
    assert!(!gb.cpu.int_master_enabled);
    assert!(!gb.cpu.halted);
    assert_eq!(gb.devices.read8(0xFFFD), 0x12);
    assert_eq!(gb.devices.read8(0xFFFC), 0x34);
    assert_eq!(gb.cpu.get_int_flags(&mut gb.devices) & 0x04, 0);
}

#[test]
fn interrupt_priority_lowest_bit_first() {
    let mut gb = console(&[]);
    gb.devices.write8(0xFFFF, 0x1F);
    gb.devices.write8(0xFF0F, 0x12); // LCD status and joypad
    assert_eq!(gb.cpu.handle_interrupts(&mut gb.devices), Ok(()));
    assert_eq!(gb.cpu.registers.pc, 0x48);
    assert_eq!(gb.cpu.get_int_flags(&mut gb.devices) & 0x12, 0x10);
}

#[test]
fn no_pending_interrupt_changes_nothing() {
    let mut gb = console(&[]);
    gb.devices.write8(0xFFFF, 0x01);
    gb.devices.write8(0xFF0F, 0x02);
    let ticks = gb.devices.ticks;
    assert_eq!(gb.cpu.handle_interrupts(&mut gb.devices), Ok(()));
    assert_eq!(gb.cpu.registers.pc, 0x100);
    assert_eq!(gb.cpu.registers.sp, 0xFFFE);
    assert_eq!(gb.devices.ticks, ticks);
}

#[test]
fn dispatch_cancelled_by_push_into_ie() {
    let mut gb = console(&[]);
    gb.devices.write8(0xFFFF, 0x01);
    gb.devices.write8(0xFF0F, 0x01);
    gb.cpu.registers.sp = 0x0000;
    gb.cpu.registers.pc = 0x0200;
    // the high byte of PC (0x02) lands in IE and disables VBlank
    assert_eq!(gb.cpu.interrupt_check(&mut gb.devices, 0x40, InterruptType::VBlank), Ok(false));
    assert_eq!(gb.cpu.registers.pc, 0);
    assert_eq!(gb.cpu.registers.sp, 0xFFFF);
    assert_eq!(gb.devices.ie_register(), 0x02);
}

#[test]
fn interrupt_bits() {
    assert_eq!(InterruptType::VBlank.bit(), 0x01);
    assert_eq!(InterruptType::LcdStat.bit(), 0x02);
    assert_eq!(InterruptType::Timer.bit(), 0x04);
    assert_eq!(InterruptType::Serial.bit(), 0x08);
    assert_eq!(InterruptType::Joypad.bit(), 0x10);
}

#[test]
fn dispatch_takes_five_machine_cycles() {
    let mut gb = console(&[]);
    gb.devices.write8(0xFFFF, 0x01);
    gb.devices.write8(0xFF0F, 0x01);
    gb.cpu.registers.pc = 0xBEEF;
    let ticks = gb.devices.ticks;
    assert_eq!(gb.cpu.handle_interrupts(&mut gb.devices), Ok(()));
    assert_eq!(gb.devices.ticks, ticks + 20);
    assert_eq!(gb.cpu.registers.pc, 0x40);
    assert_eq!(gb.devices.read8(0xFFFD), 0xBE);
    assert_eq!(gb.devices.read8(0xFFFC), 0xEF);
}

#[test]
fn cancelled_dispatch_takes_three_machine_cycles() {
    let mut gb = console(&[]);
    gb.devices.write8(0xFFFF, 0x01);
    gb.devices.write8(0xFF0F, 0x01);
    gb.cpu.registers.sp = 0x0000;
    gb.cpu.registers.pc = 0x0200;
    let ticks = gb.devices.ticks;
    assert_eq!(gb.cpu.interrupt_check(&mut gb.devices, 0x40, InterruptType::VBlank), Ok(false));
    assert_eq!(gb.devices.ticks, ticks + 12);
}

#[test]
fn cancelled_dispatch_goes_on_to_lower_priority() {
    let mut gb = console(&[]);
    gb.devices.write8(0xFFFF, 0x01);
    gb.devices.write8(0xFF0F, 0x03);
    gb.cpu.registers.sp = 0x0000;
    gb.cpu.registers.pc = 0x0200;
    let ticks = gb.devices.ticks;
    assert_eq!(gb.cpu.handle_interrupts(&mut gb.devices), Ok(()));
    // PC's high byte 0x02 lands in IE: VBlank is cancelled, LCD status is taken
    assert_eq!(gb.cpu.registers.pc, 0x48);
    assert_eq!(gb.cpu.registers.sp, 0xFFFD);
    assert_eq!(gb.devices.ie_register(), 0x02);
    assert_eq!(gb.devices.read8(0xFFFE), 0x00);
    assert_eq!(gb.devices.read8(0xFFFD), 0x00);
    assert_eq!(gb.devices.ticks, ticks + 32);
    assert!(!gb.cpu.int_master_enabled);
}

#[test]
fn interrupts_serviced_only_with_ime() {
    let mut gb = console(&[]);
    gb.devices.write8(0xFFFF, 0x01);
    gb.devices.write8(0xFF0F, 0x01);
    gb.cpu.enabling_ime = true;
    assert_eq!(gb.cpu.service_interrupts(&mut gb.devices), Ok(()));
    assert_eq!(gb.cpu.registers.pc, 0x100);
    assert!(gb.cpu.enabling_ime);
    gb.cpu.int_master_enabled = true;
    assert_eq!(gb.cpu.service_interrupts(&mut gb.devices), Ok(()));
    assert_eq!(gb.cpu.registers.pc, 0x40);
    assert!(!gb.cpu.enabling_ime);
    assert!(!gb.cpu.int_master_enabled);
}

#[test]
fn halted_cpu_wakes_on_request() {
    let mut gb = console(&[]);
    gb.devices.write8(0xFF0F, 0x00);
    gb.cpu.halted = true;
    let ticks = gb.devices.ticks;
    assert_eq!(gb.cpu.halted_cycle(&mut gb.devices), Ok(()));
    assert_eq!(gb.devices.ticks, ticks + 4);
    assert!(gb.cpu.halted);
    gb.devices.write8(0xFF0F, 0x04);
    assert_eq!(gb.cpu.halted_cycle(&mut gb.devices), Ok(()));
    assert!(!gb.cpu.halted);
}

#[test]
fn fetch_opcode_reads_at_pc() {
    let mut gb = console(&[0x3E, 0x42]);
    let ticks = gb.devices.ticks;
    assert_eq!(gb.cpu.fetch_opcode(&mut gb.devices), Ok(0x3E));
    assert_eq!(gb.cpu.curr_opcode, 0x3E);
    assert_eq!(gb.cpu.registers.pc, 0x101);
    assert_eq!(gb.devices.ticks, ticks + 4);
}

#[test]
fn fetch_opcode_without_cartridge_faults() {
    let mut gb = Gameboy::new(ColorMode::ARGB);
    assert_eq!(gb.cpu.fetch_opcode(&mut gb.devices), Err(BusFault::Read(0x100)));
    assert_eq!(gb.cpu.registers.pc, 0x100);
}

#[test]
fn ei_takes_effect_at_step_end() {
    let mut gb = console(&[]);
    gb.cpu.end_step();
    assert!(!gb.cpu.int_master_enabled);
    gb.cpu.enabling_ime = true;
    gb.cpu.end_step();
    assert!(gb.cpu.int_master_enabled);
}

#[test]
fn machine_cycles_run_the_pixel_unit_and_count_frames() {
    let mut gb = Gameboy::new(ColorMode::ARGB);
    assert_eq!(gb.devices.incr_cycle(), Ok(()));
    assert_eq!(gb.devices.ppu.line_ticks, 4);
    assert_eq!(gb.devices.ticks, 4);
    for _ in 1..(154 * 456 / 4 - 1) {
        assert_eq!(gb.devices.incr_cycle(), Ok(()));
    }
    assert_eq!(gb.devices.frames, 0);
    assert_eq!(gb.devices.incr_cycle(), Ok(()));
    assert_eq!(gb.devices.frames, 1);
}
