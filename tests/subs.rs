use gameboy_core::cpu::Cpu;
use gameboy_core::executors::{cp, sbc, sub};
use gameboy_core::memory_bus::{BOOT_ROM_SIZE, ROM_BANK_0_SIZE};
use gameboy_core::registers::{Reg8Kind, Registers};

fn cpu(registers: Registers) -> Cpu {
    Cpu::new(vec![0; BOOT_ROM_SIZE], vec![0; ROM_BANK_0_SIZE], Some(registers))
}

#[test]
fn subs_sub_increments_pc() {
    let mut registers = Registers::new();
    registers.a = 0x00;
    registers.b = 0x00;
    let mut cpu = cpu(registers);
    assert_eq!(cpu.pc.get(), 0);
    sub(&mut cpu, Reg8Kind::B);
    assert_eq!(cpu.pc.get(), 1);
}

#[test]
fn subs_sub_subs_value_from_target() {
    let mut registers = Registers::new();
    registers.a = 0x03;
    registers.c = 0x02;
    let mut cpu = cpu(registers);
    sub(&mut cpu, Reg8Kind::C);
    assert_eq!(cpu.registers.a, 0x01);
    assert!(!cpu.registers.f.zero);
    assert!(!cpu.registers.f.carry);
    assert!(!cpu.registers.f.half_carry);
    assert!(cpu.registers.f.subtract);
}

#[test]
fn sub_subs_value_from_a() {
    let mut registers = Registers::new();
    registers.a = 0x02;
    let mut cpu = cpu(registers);
    sub(&mut cpu, Reg8Kind::A);
    assert_eq!(cpu.registers.a, 0x00);
    assert!(cpu.registers.f.zero);
}

#[test]
fn subs_sub_subs_with_carry() {
    let mut registers = Registers::new();
    registers.a = 0x10;
    registers.d = 0x20;
    let mut cpu = cpu(registers);
    sub(&mut cpu, Reg8Kind::D);
    assert_eq!(cpu.registers.a, 240);
    assert!(cpu.registers.f.carry);
    assert!(!cpu.registers.f.half_carry);
}

#[test]
fn subs_sub_subs_with_half_carry() {
    let mut registers = Registers::new();
    registers.a = 0b0001_0111;
    registers.e = 0b0000_1111;
    let mut cpu = cpu(registers);
    sub(&mut cpu, Reg8Kind::E);
    assert_eq!(cpu.registers.a, 0x08);
    assert!(cpu.registers.f.half_carry);
    assert!(!cpu.registers.f.carry);
}

#[test]
fn subs_sbc_increments_pc() {
    let mut registers = Registers::new();
    registers.a = 0x00;
    registers.b = 0x00;
    let mut cpu = cpu(registers);
    assert_eq!(cpu.pc.get(), 0);
    sbc(&mut cpu, Reg8Kind::B);
    assert_eq!(cpu.pc.get(), 1);
}

#[test]
fn subs_sbc_without_carry_subs_value() {
    let mut registers = Registers::new();
    registers.a = 0x02;
    registers.b = 0x01;
    let mut cpu = cpu(registers);
    sbc(&mut cpu, Reg8Kind::B);
    assert_eq!(cpu.registers.a, 0x01);
    assert!(!cpu.registers.f.zero);
    assert!(!cpu.registers.f.carry);
    assert!(!cpu.registers.f.half_carry);
    assert!(cpu.registers.f.subtract);
}

#[test]
fn subs_sbc_subs_with_half_carry() {
    let mut registers = Registers::new();
    registers.a = 0b0010_0111;
    registers.e = 0b0000_1001;
    let mut cpu = cpu(registers);
    sbc(&mut cpu, Reg8Kind::E);
    assert_eq!(cpu.registers.a, 0b0001_1110);
    assert!(cpu.registers.f.half_carry);
    assert!(!cpu.registers.f.carry);
}

#[test]
fn subs_sbc_subs_with_carry() {
    let mut registers = Registers::new();
    registers.a = 0b1111_1110;
    registers.d = 0b1111_1111;
    let mut cpu = cpu(registers);
    sbc(&mut cpu, Reg8Kind::D);
    assert_eq!(cpu.registers.a, 0xFF);
    assert!(cpu.registers.f.carry);
}

#[test]
fn subs_sbc_through_carry() {
    let mut registers = Registers::new();
    registers.a = 0b1;
    registers.d = 0b1;
    // overflows to 0xFF
    registers.f.carry = true;
    let mut cpu = cpu(registers);
    sbc(&mut cpu, Reg8Kind::D);
    assert_eq!(cpu.registers.a, 0xFF);
    assert!(cpu.registers.f.carry);
}

#[test]
fn subs_sbc_through_carry_sets_half_carry() {
    let mut registers = Registers::new();
    registers.a = 0b0010_0001;
    registers.d = 0b0001_0001;
    // 1 - 1 - 1 -> overflows
    registers.f.carry = true;
    let mut cpu = cpu(registers);
    sbc(&mut cpu, Reg8Kind::D);
    assert_eq!(cpu.registers.a, 0x0F);
    assert!(!cpu.registers.f.carry);
    assert!(cpu.registers.f.half_carry);
}

#[test]
fn cp_sets_flags_and_keeps_a() {
    let mut registers = Registers::new();
    registers.a = 0x10;
    registers.b = 0x20;
    let mut cpu = cpu(registers);
    cp(&mut cpu, Reg8Kind::B);
    assert_eq!(cpu.registers.a, 0x10);
    assert!(cpu.registers.f.carry);
    assert!(cpu.registers.f.subtract);
    assert!(!cpu.registers.f.zero);
}

#[test]
fn cp_of_equal_values_sets_zero() {
    let mut registers = Registers::new();
    registers.a = 0x42;
    registers.c = 0x42;
    let mut cpu = cpu(registers);
    cp(&mut cpu, Reg8Kind::C);
    assert_eq!(cpu.registers.a, 0x42);
    assert!(cpu.registers.f.zero);
    assert!(!cpu.registers.f.carry);
}
