use gameboy_core::cpu::Cpu;
use gameboy_core::executors::{and, or, xor};
use gameboy_core::memory_bus::{BOOT_ROM_SIZE, ROM_BANK_0_SIZE};
use gameboy_core::registers::{Reg8Kind, Registers};

fn cpu(registers: Registers) -> Cpu {
    Cpu::new(vec![0; BOOT_ROM_SIZE], vec![0; ROM_BANK_0_SIZE], Some(registers))
}

#[test]
fn and_it_sets_a_correctly() {
    let mut registers = Registers::new();
    registers.a = 0b10001111;
    registers.b = 0b10101001;
    let mut cpu = cpu(registers);
    and(&mut cpu, Reg8Kind::B);
    assert_eq!(cpu.registers.a, 0b10001001);
    assert_eq!(cpu.registers.f.zero, false);
}

#[test]
fn and_it_sets_flags() {
    let mut registers = Registers::new();
    registers.a = 0x12;
    registers.d = 0x13;
    let mut cpu = cpu(registers);
    and(&mut cpu, Reg8Kind::D);
    assert_eq!(cpu.registers.f.zero, false);
    assert_eq!(cpu.registers.f.subtract, false);
    assert_eq!(cpu.registers.f.half_carry, true);
    assert_eq!(cpu.registers.f.carry, false);
}

#[test]
fn and_it_sets_zero_flag_when_result_is_zero() {
    let mut registers = Registers::new();
    registers.a = 0x00;
    registers.c = 0xFF;
    let mut cpu = cpu(registers);
    and(&mut cpu, Reg8Kind::C);
    assert_eq!(cpu.registers.a, 0x00);
    assert!(cpu.registers.f.zero);
}

#[test]
fn and_it_increments_pc() {
    let mut registers = Registers::new();
    registers.a = 0x00;
    registers.d = 0x00;
    let mut cpu = cpu(registers);
    assert_eq!(cpu.pc.get(), 0);
    and(&mut cpu, Reg8Kind::E);
    assert_eq!(cpu.pc.get(), 1);
}

#[test]
fn or_it_sets_a_register_correctly() {
    let mut registers = Registers::new();
    registers.a = 0b1000_1111;
    registers.b = 0b1010_1001;
    let mut cpu = cpu(registers);
    or(&mut cpu, Reg8Kind::B);
    assert_eq!(cpu.registers.a, 0b1010_1111);
    assert_eq!(cpu.registers.f.zero, false);
}

// `or` clears half-carry, as `xor` does.
#[test]
fn or_it_sets_flags() {
    let mut registers = Registers::new();
    registers.a = 0x12;
    registers.d = 0x13;
    let mut cpu = cpu(registers);
    or(&mut cpu, Reg8Kind::D);
    assert_eq!(cpu.registers.f.zero, false);
    assert_eq!(cpu.registers.f.subtract, false);
    assert_eq!(cpu.registers.f.half_carry, false);
    assert_eq!(cpu.registers.f.carry, false);
}

#[test]
fn or_it_sets_zero_flag_when_result_is_zero() {
    let mut registers = Registers::new();
    registers.a = 0x00;
    registers.c = 0x00;
    let mut cpu = cpu(registers);
    or(&mut cpu, Reg8Kind::C);
    assert_eq!(cpu.registers.a, 0x00);
    assert!(cpu.registers.f.zero);
}

#[test]
fn or_it_increments_pc() {
    let mut registers = Registers::new();
    registers.a = 0x00;
    registers.d = 0x00;
    let mut cpu = cpu(registers);
    assert_eq!(cpu.pc.get(), 0);
    or(&mut cpu, Reg8Kind::E);
    assert_eq!(cpu.pc.get(), 1);
}

#[test]
fn xor_it_sets_a_register_correctly() {
    let mut registers = Registers::new();
    registers.a = 0b1000_1111;
    registers.b = 0b1010_1001;
    let mut cpu = cpu(registers);
    xor(&mut cpu, Reg8Kind::B);
    assert_eq!(cpu.registers.a, 0b0010_0110);
    assert_eq!(cpu.registers.f.zero, false);
}

#[test]
fn xor_it_sets_flags() {
    let mut registers = Registers::new();
    registers.a = 0x12;
    registers.d = 0x13;
    let mut cpu = cpu(registers);
    xor(&mut cpu, Reg8Kind::D);
    assert_eq!(cpu.registers.f.zero, false);
    assert_eq!(cpu.registers.f.subtract, false);
    assert_eq!(cpu.registers.f.half_carry, false);
    assert_eq!(cpu.registers.f.carry, false);
}

#[test]
fn xor_it_sets_zero_flag_when_result_is_zero() {
    let mut registers = Registers::new();
    registers.a = 0x00;
    registers.c = 0x00;
    let mut cpu = cpu(registers);
    xor(&mut cpu, Reg8Kind::C);
    assert_eq!(cpu.registers.a, 0x00);
    assert!(cpu.registers.f.zero);
}

#[test]
fn xor_it_increments_pc() {
    let mut registers = Registers::new();
    registers.a = 0x00;
    registers.d = 0x00;
    let mut cpu = cpu(registers);
    assert_eq!(cpu.pc.get(), 0);
    xor(&mut cpu, Reg8Kind::E);
    assert_eq!(cpu.pc.get(), 1);
}

#[test]
fn logic_ops_clear_carry() {
    let mut registers = Registers::new();
    registers.a = 0xF0;
    registers.b = 0x0F;
    registers.f.carry = true;
    let mut cpu = cpu(registers);
    or(&mut cpu, Reg8Kind::B);
    assert_eq!(cpu.registers.a, 0xFF);
    assert!(!cpu.registers.f.carry);
}
