use gameboy_core::cpu::Cpu;
use gameboy_core::executors::{adc, add, add_hl};
use gameboy_core::memory_bus::{BOOT_ROM_SIZE, ROM_BANK_0_SIZE};
use gameboy_core::registers::{Reg16Kind, Reg8Kind, Registers};

fn cpu(registers: Registers) -> Cpu {
    Cpu::new(vec![0; BOOT_ROM_SIZE], vec![0; ROM_BANK_0_SIZE], Some(registers))
}

#[test]
fn adds_add_increments_pc() {
    let mut registers = Registers::new();
    registers.a = 0x00;
    let mut cpu = cpu(registers);
    assert_eq!(cpu.pc.get(), 0);
    add(&mut cpu, Reg8Kind::B);
    assert_eq!(cpu.pc.get(), 1);
}

#[test]
fn adds_add_adds_value_from_target() {
    let mut registers = Registers::new();
    registers.a = 0x01;
    registers.c = 0x02;
    let mut cpu = cpu(registers);
    add(&mut cpu, Reg8Kind::C);
    assert_eq!(cpu.registers.a, 0x03);
    assert!(!cpu.registers.f.zero);
    assert!(!cpu.registers.f.carry);
    assert!(!cpu.registers.f.half_carry);
    assert!(!cpu.registers.f.subtract);
}

#[test]
fn adds_add_adds_value_from_a() {
    let mut registers = Registers::new();
    registers.a = 0x02;
    let mut cpu = cpu(registers);
    add(&mut cpu, Reg8Kind::A);
    assert_eq!(cpu.registers.a, 0x04);
}

#[test]
fn adds_add_adds_with_carry() {
    let mut registers = Registers::new();
    registers.a = 0b1111_1111;
    registers.d = 0b1;
    let mut cpu = cpu(registers);
    add(&mut cpu, Reg8Kind::D);
    assert_eq!(cpu.registers.a, 0);
    assert!(cpu.registers.f.carry);
    assert!(cpu.registers.f.zero);
}

#[test]
fn adds_add_adds_with_half_carry() {
    let mut registers = Registers::new();
    registers.a = 0b0000_1111;
    registers.e = 0b1;
    let mut cpu = cpu(registers);
    add(&mut cpu, Reg8Kind::E);
    assert_eq!(cpu.registers.a, 0b0001_0000);
    assert!(cpu.registers.f.half_carry);
}

#[test]
fn adds_adc_increments_pc() {
    let mut registers = Registers::new();
    registers.a = 0x00;
    registers.b = 0x00;
    let mut cpu = cpu(registers);
    assert_eq!(cpu.pc.get(), 0);
    adc(&mut cpu, Reg8Kind::B);
    assert_eq!(cpu.pc.get(), 1);
}

#[test]
fn adds_adc_without_carry_adds_value() {
    let mut registers = Registers::new();
    registers.a = 0x01;
    registers.b = 0x02;
    let mut cpu = cpu(registers);
    adc(&mut cpu, Reg8Kind::B);
    assert_eq!(cpu.registers.a, 0x03);
    assert!(!cpu.registers.f.zero);
    assert!(!cpu.registers.f.carry);
    assert!(!cpu.registers.f.half_carry);
    assert!(!cpu.registers.f.subtract);
}

#[test]
fn adds_adc_adds_with_half_carry() {
    let mut registers = Registers::new();
    registers.a = 0b0000_1111;
    registers.e = 0b1;
    let mut cpu = cpu(registers);
    adc(&mut cpu, Reg8Kind::E);
    assert_eq!(cpu.registers.a, 0b0001_0000);
    assert!(cpu.registers.f.half_carry);
}

#[test]
fn adds_adc_adds_with_carry() {
    let mut registers = Registers::new();
    registers.a = 0b1111_1111;
    registers.d = 0b1;
    let mut cpu = cpu(registers);
    adc(&mut cpu, Reg8Kind::D);
    assert_eq!(cpu.registers.a, 0);
    assert!(cpu.registers.f.carry);
    assert!(cpu.registers.f.zero);
}

#[test]
fn adds_adc_adds_with_value_of_carry() {
    let mut registers = Registers::new();
    registers.a = 0b1111_1111;
    // overflows to 0
    registers.d = 0b1;
    // 0 + 1
    registers.f.carry = true;
    let mut cpu = cpu(registers);
    adc(&mut cpu, Reg8Kind::D);
    assert_eq!(cpu.registers.a, 1);
    assert!(cpu.registers.f.carry);
}

#[test]
fn adds_add_hl_increments_pc() {
    let mut registers = Registers::new();
    registers.set_hl(0x00);
    registers.set_bc(0x00);
    let mut cpu = cpu(registers);
    assert_eq!(cpu.pc.get(), 0);
    add_hl(&mut cpu, Reg16Kind::BC);
    assert_eq!(cpu.pc.get(), 1);
}

#[test]
fn adds_add_hl_adds_value_from_target() {
    let mut registers = Registers::new();
    registers.set_hl(0x00_0A);
    registers.set_de(0x00_0B);
    let mut cpu = cpu(registers);
    add_hl(&mut cpu, Reg16Kind::DE);
    assert_eq!(cpu.registers.get_hl(), 0x15);
    assert!(!cpu.registers.f.zero);
    assert!(!cpu.registers.f.carry);
    assert!(!cpu.registers.f.half_carry);
    assert!(!cpu.registers.f.subtract);
}

#[test]
fn adds_add_hl_adds_with_carry() {
    let mut registers = Registers::new();
    registers.set_hl(0xFF_FF);
    registers.set_bc(0x00_01);
    let mut cpu = cpu(registers);
    add_hl(&mut cpu, Reg16Kind::BC);
    assert_eq!(cpu.registers.get_hl(), 0);
    assert!(cpu.registers.f.carry);
}

// Half-carry of a 16-bit add is the carry out of bit 11: 0x00FF + 1 does not
// produce one.
#[test]
fn adds_add_hl_adds_with_half_carry() {
    let mut registers = Registers::new();
    registers.set_hl(0x00_FF);
    registers.set_bc(0x00_01);
    let mut cpu = cpu(registers);
    add_hl(&mut cpu, Reg16Kind::BC);
    assert_eq!(cpu.registers.get_hl(), 0b0000_0001_0000_0000);
    assert!(!cpu.registers.f.half_carry);
}

#[test]
fn add_hl_half_carry_out_of_bit_eleven() {
    let mut registers = Registers::new();
    registers.set_hl(0x0FFF);
    registers.set_bc(0x0001);
    registers.f.zero = true;
    let mut cpu = cpu(registers);
    add_hl(&mut cpu, Reg16Kind::BC);
    assert_eq!(cpu.registers.get_hl(), 0x1000);
    assert!(cpu.registers.f.half_carry);
    assert!(!cpu.registers.f.carry);
    assert!(cpu.registers.f.zero);
}

#[test]
fn add_hl_with_stack_pointer() {
    let mut cpu = cpu(Registers::new());
    cpu.registers.set_hl(0x1000);
    cpu.sp = 0x0234;
    add_hl(&mut cpu, Reg16Kind::SP);
    assert_eq!(cpu.registers.get_hl(), 0x1234);
}

#[test]
fn add_half_carry_and_carry_scenarios() {
    let mut registers = Registers::new();
    registers.a = 0x0F;
    registers.b = 0x01;
    let mut cpu = cpu(registers);
    add(&mut cpu, Reg8Kind::B);
    assert_eq!(cpu.registers.a, 0x10);
    assert!(cpu.registers.f.half_carry);
    assert!(!cpu.registers.f.carry);

    let mut registers = Registers::new();
    registers.a = 0xFF;
    registers.b = 0x01;
    let mut cpu2 = Cpu::new(vec![0; BOOT_ROM_SIZE], vec![0; ROM_BANK_0_SIZE], Some(registers));
    add(&mut cpu2, Reg8Kind::B);
    assert_eq!(cpu2.registers.a, 0x00);
    assert!(cpu2.registers.f.zero);
    assert!(cpu2.registers.f.carry);
}

#[test]
fn add_counts_cycles() {
    let mut cpu = cpu(Registers::new());
    let res = add(&mut cpu, Reg8Kind::B).unwrap();
    assert_eq!(res.ticks, 4);
    assert_eq!(res.length, 1);
    assert_eq!(cpu.clock.0, 4);
}
