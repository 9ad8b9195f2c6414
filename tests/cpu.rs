use gameboy_core::cpu::{Cpu, State};
use gameboy_core::executors::{bit, call, halt, jp, jp_hl, jr, ld, nop, pop, push, ret};
use gameboy_core::gpu::{Gpu, Mode};
use gameboy_core::instruction::{decode, decode_extended, CondKind, Instr, InstrKind, Operand, PostOp};
use gameboy_core::memory_bus::{MemoryBus, BOOT_ROM_SIZE, ROM_BANK_0_SIZE};
use gameboy_core::microcode::ExecError;
use gameboy_core::registers::{Reg16Kind, Reg8Kind, Registers};

fn cpu_with_program(program: &[u8]) -> Cpu {
    let mut boot = vec![0; BOOT_ROM_SIZE];
    boot[..program.len()].copy_from_slice(program);
    Cpu::new(boot, vec![0; ROM_BANK_0_SIZE], None)
}

fn cpu(registers: Registers) -> Cpu {
    Cpu::new(vec![0; BOOT_ROM_SIZE], vec![0; ROM_BANK_0_SIZE], Some(registers))
}

#[test]
fn program_loads_adds_and_halts() {
    let mut cpu = cpu_with_program(&[0x3E, 0x05, 0xC6, 0x03, 0x76]);
    let first = cpu.step().unwrap().unwrap();
    assert_eq!(first.ticks, 8);
    assert_eq!(cpu.registers.a, 0x05);
    cpu.step().unwrap().unwrap();
    assert_eq!(cpu.registers.a, 0x08);
    assert!(!cpu.registers.f.zero);
    cpu.step().unwrap().unwrap();
    assert_eq!(cpu.state, State::Halted);
    assert!(cpu.is_halted());

    let pc = cpu.pc.get();
    let clock = cpu.clock.0;
    let registers = cpu.registers;
    let gpu = cpu.gpu;
    assert!(cpu.step().unwrap().is_none());
    assert_eq!(cpu.pc.get(), pc);
    assert_eq!(cpu.clock.0, clock);
    assert_eq!(cpu.registers, registers);
    assert_eq!(cpu.gpu, gpu);
}

#[test]
fn step_counts_cycles_and_feeds_timing() {
    let mut cpu = cpu_with_program(&[0x00, 0x00]);
    cpu.step().unwrap().unwrap();
    cpu.step().unwrap().unwrap();
    assert_eq!(cpu.clock.0, 8);
    assert_eq!(cpu.gpu.modeclock, 8);
    assert_eq!(cpu.pc.get(), 2);
}

#[test]
fn push_then_pop_keeps_word_and_byte_order() {
    let mut registers = Registers::new();
    registers.set_bc(0x1234);
    let mut cpu = cpu(registers);
    cpu.sp = 0xFFFE;
    push(&mut cpu, Reg16Kind::BC).unwrap();
    assert_eq!(cpu.sp, 0xFFFC);
    assert_eq!(cpu.bus.read_byte(0xFFFD), 0x12);
    assert_eq!(cpu.bus.read_byte(0xFFFC), 0x34);
    pop(&mut cpu, Reg16Kind::HL).unwrap();
    assert_eq!(cpu.registers.get_hl(), 0x1234);
    assert_eq!(cpu.sp, 0xFFFE);
}

#[test]
fn push_into_rom_is_an_error_and_changes_nothing() {
    let mut registers = Registers::new();
    registers.set_bc(0x1234);
    let mut cpu = cpu(registers);
    cpu.sp = 0x6000;
    assert_eq!(push(&mut cpu, Reg16Kind::BC).unwrap_err(), ExecError::UnmappedAddress(0x5FFF));
    assert_eq!(cpu.sp, 0x6000);
    assert_eq!(cpu.pc.get(), 0);
}

#[test]
fn jr_false_condition_moves_past_instruction() {
    let mut cpu = cpu_with_program(&[0x20, 0x05]);
    cpu.registers.f.zero = true;
    let res = jr(&mut cpu, CondKind::NotZero).unwrap().unwrap();
    assert_eq!(cpu.pc.get(), 2);
    assert_eq!(res.length, 2);
    assert_eq!(res.ticks, 8);
}

#[test]
fn jr_true_condition_adds_signed_offset() {
    let mut cpu = cpu_with_program(&[0x00, 0x00, 0x00, 0x00, 0x18, 0xFC]);
    cpu.pc.set(4);
    let res = jr(&mut cpu, CondKind::Always).unwrap().unwrap();
    assert_eq!(cpu.pc.get(), 2);
    assert_eq!(res.ticks, 12);

    let mut cpu = cpu_with_program(&[0x28, 0x10]);
    cpu.registers.f.zero = true;
    jr(&mut cpu, CondKind::Zero).unwrap();
    assert_eq!(cpu.pc.get(), 0x12);
}

#[test]
fn inc_and_dec_keep_carry() {
    let mut cpu = cpu_with_program(&[0x04, 0x05, 0x0C, 0x0D]);
    cpu.registers.f.carry = true;
    cpu.registers.b = 0xFF;
    cpu.step().unwrap();
    assert_eq!(cpu.registers.b, 0x00);
    assert!(cpu.registers.f.zero);
    assert!(cpu.registers.f.half_carry);
    assert!(cpu.registers.f.carry);
    cpu.step().unwrap();
    assert_eq!(cpu.registers.b, 0xFF);
    assert!(cpu.registers.f.subtract);
    assert!(cpu.registers.f.half_carry);
    assert!(cpu.registers.f.carry);
    cpu.registers.f.carry = false;
    cpu.step().unwrap();
    assert_eq!(cpu.registers.c, 1);
    assert!(!cpu.registers.f.carry);
    cpu.step().unwrap();
    assert_eq!(cpu.registers.c, 0);
    assert!(cpu.registers.f.zero);
    assert!(!cpu.registers.f.carry);
}

#[test]
fn inc_of_register_pair_sets_no_flags() {
    let mut cpu = cpu_with_program(&[0x03, 0x3B]);
    cpu.registers.set_bc(0xFFFF);
    cpu.step().unwrap();
    assert_eq!(cpu.registers.get_bc(), 0);
    assert!(!cpu.registers.f.zero);
    cpu.sp = 0;
    cpu.step().unwrap();
    assert_eq!(cpu.sp, 0xFFFF);
}

#[test]
fn gpu_oam_scan_then_vram_scan() {
    let mut gpu = Gpu { mode: Mode::ScanlineOam, modeclock: 0, line: 0 };
    gpu.step(80);
    assert_eq!(gpu, Gpu { mode: Mode::ScanlineVram, modeclock: 0, line: 0 });
}

#[test]
fn gpu_reaches_vblank_after_visible_lines() {
    let mut gpu = Gpu { mode: Mode::ScanlineOam, modeclock: 0, line: 0 };
    let mut frames = 0;
    for _ in 0..144 {
        for ticks in [80u8, 172, 204] {
            if gpu.step(ticks) {
                frames += 1;
            }
        }
    }
    assert_eq!(gpu, Gpu { mode: Mode::Vblank, modeclock: 0, line: 144 });
    assert_eq!(frames, 1);
}

#[test]
fn gpu_vblank_wraps_to_line_zero() {
    let mut gpu = Gpu { mode: Mode::Vblank, modeclock: 400, line: 153 };
    gpu.step(56);
    assert_eq!(gpu, Gpu { mode: Mode::ScanlineOam, modeclock: 0, line: 0 });
    let mut gpu = Gpu::new();
    assert_eq!(gpu.mode, Mode::Hblank);
    gpu.step(10);
    assert_eq!(gpu.modeclock, 10);
}

#[test]
fn decode_reads_bit_fields() {
    let i = decode(0x41);
    assert_eq!(i.id, InstrKind::Ld);
    assert_eq!(i.lhs, Some(Operand::Reg8(Reg8Kind::B)));
    assert_eq!(i.rhs, Some(Operand::Reg8(Reg8Kind::C)));
    assert_eq!(i.tag, "LD B, C");
    let i = decode(0x86);
    assert_eq!(i.id, InstrKind::Add);
    assert_eq!(i.rhs, Some(Operand::Reg16Indir(Reg16Kind::HL)));
    let i = decode(0x22);
    assert_eq!(i.post_op, Some(PostOp::Inc(Reg16Kind::HL)));
    let i = decode(0xFE);
    assert_eq!(i.id, InstrKind::Cp);
    assert_eq!(i.rhs, Some(Operand::U8));
    assert_eq!(decode(0xD3).id, InstrKind::Unimpl);
    let i = decode_extended(0x7C);
    assert_eq!(i.id, InstrKind::Bit);
    assert_eq!(i.lhs, Some(Operand::BitPos(7)));
    assert_eq!(i.rhs, Some(Operand::Reg8(Reg8Kind::H)));
    assert_eq!(i.pos, 0xCB7C);
    assert_eq!(decode_extended(0x11).post_op, Some(PostOp::CarryToB0));
    assert_eq!(decode_extended(0xFF).id, InstrKind::Unimpl);
}

#[test]
fn unknown_opcode_is_an_error() {
    let mut cpu = cpu_with_program(&[0xD3]);
    assert_eq!(cpu.step().unwrap_err(), ExecError::UnknownOpcode(0xD3));
    assert_eq!(cpu.pc.get(), 0);
    assert_eq!(cpu.clock.0, 0);
}

#[test]
fn operand_mismatch_is_an_error() {
    let mut cpu = cpu(Registers::new());
    let instr = Instr::new(0x80, "ADD").id(InstrKind::Add).rhs(Operand::Cond(CondKind::Zero));
    assert_eq!(cpu.execute(instr).unwrap_err(), ExecError::OperandMismatch(0x80));
}

#[test]
fn rom_is_read_only_and_ram_is_writable() {
    let mut boot = vec![0; BOOT_ROM_SIZE];
    boot[0x10] = 0xAA;
    let mut game = vec![0; ROM_BANK_0_SIZE];
    game[0x10] = 0x55;
    game[0x200] = 0x66;
    let mut bus = MemoryBus::new(boot, game);
    assert_eq!(bus.read_byte(0x0010), 0xAA);
    assert_eq!(bus.read_byte(0x0200), 0x66);
    bus.write_byte(0x0200, 0x01);
    assert_eq!(bus.read_byte(0x0200), 0x66);
    bus.write_byte(0xC123, 0x77);
    assert_eq!(bus.read_byte(0xC123), 0x77);
    bus.write_byte(0x8000, 0x11);
    assert_eq!(bus.read_byte(0x8000), 0x11);
    bus.write_byte(0xFF80, 0x22);
    assert_eq!(bus.read_byte(0xFF80), 0x22);
    bus.write_byte(0xFF10, 0x33);
    assert_eq!(bus.read_byte(0xFF10), 0);
}

#[test]
fn fetch_from_unmapped_memory_is_an_error() {
    let mut cpu = cpu(Registers::new());
    cpu.pc.set(0x4000);
    assert_eq!(cpu.step().unwrap_err(), ExecError::UnmappedAddress(0x4000));
}

#[test]
fn call_and_ret_round_trip() {
    let mut cpu = cpu_with_program(&[0xCD, 0x34, 0x12]);
    cpu.sp = 0xFFFE;
    let res = call(&mut cpu, CondKind::Always).unwrap().unwrap();
    assert_eq!(res.ticks, 24);
    assert_eq!(cpu.pc.get(), 0x1234);
    assert_eq!(cpu.sp, 0xFFFC);
    assert_eq!(cpu.bus.read_byte(0xFFFD), 0x00);
    assert_eq!(cpu.bus.read_byte(0xFFFC), 0x03);
    ret(&mut cpu, CondKind::Always).unwrap();
    assert_eq!(cpu.pc.get(), 0x0003);
    assert_eq!(cpu.sp, 0xFFFE);
}

#[test]
fn conditional_call_and_ret_fall_through() {
    let mut cpu = cpu_with_program(&[0xC4, 0x34, 0x12]);
    cpu.registers.f.zero = true;
    cpu.sp = 0xFFFE;
    call(&mut cpu, CondKind::NotZero).unwrap();
    assert_eq!(cpu.pc.get(), 3);
    assert_eq!(cpu.sp, 0xFFFE);
    ret(&mut cpu, CondKind::NotZero).unwrap();
    assert_eq!(cpu.pc.get(), 4);
}

#[test]
fn jumps_absolute_and_through_hl() {
    let mut cpu = cpu_with_program(&[0xC3, 0x50, 0x01]);
    jp(&mut cpu, CondKind::Always).unwrap();
    assert_eq!(cpu.pc.get(), 0x0150);
    cpu.registers.set_hl(0x2000);
    jp_hl(&mut cpu);
    assert_eq!(cpu.pc.get(), 0x2000);
    let mut cpu = cpu_with_program(&[0xCA, 0x50, 0x01]);
    jp(&mut cpu, CondKind::Zero).unwrap();
    assert_eq!(cpu.pc.get(), 3);
}

#[test]
fn loads_with_post_increment_and_high_page() {
    let mut cpu = cpu_with_program(&[0x22, 0xE0, 0x80, 0x32]);
    cpu.registers.a = 0x99;
    cpu.registers.set_hl(0xC000);
    let res = cpu.step().unwrap().unwrap();
    assert_eq!(res.ticks, 8);
    assert_eq!(cpu.bus.read_byte(0xC000), 0x99);
    assert_eq!(cpu.registers.get_hl(), 0xC001);
    let res = cpu.step().unwrap().unwrap();
    assert_eq!(res.ticks, 12);
    assert_eq!(res.length, 2);
    assert_eq!(cpu.bus.read_byte(0xFF80), 0x99);
    cpu.step().unwrap();
    assert_eq!(cpu.bus.read_byte(0xC001), 0x99);
    assert_eq!(cpu.registers.get_hl(), 0xC000);
}

#[test]
fn register_load_and_ld_word() {
    let mut cpu = cpu_with_program(&[0x21, 0x00, 0xC0, 0x31, 0xFE, 0xFF]);
    cpu.step().unwrap();
    assert_eq!(cpu.registers.get_hl(), 0xC000);
    cpu.step().unwrap();
    assert_eq!(cpu.sp, 0xFFFE);
    cpu.registers.c = 0x5A;
    let res = ld(&mut cpu, Reg8Kind::E, Reg8Kind::C).unwrap();
    assert_eq!(res.ticks, 4);
    assert_eq!(cpu.registers.e, 0x5A);
}

#[test]
fn bit_test_sets_zero_and_keeps_carry() {
    let mut cpu = cpu(Registers::new());
    cpu.registers.h = 0b1000_0000;
    cpu.registers.f.carry = true;
    bit(&mut cpu, 7, Reg8Kind::H);
    assert!(!cpu.registers.f.zero);
    assert!(cpu.registers.f.carry);
    assert_eq!(cpu.pc.get(), 2);
    bit(&mut cpu, 6, Reg8Kind::H);
    assert!(cpu.registers.f.zero);
    assert!(!cpu.registers.f.half_carry);
}

#[test]
fn rotates_left_through_and_with_carry() {
    let mut cpu = cpu_with_program(&[0x17, 0x07, 0xCB, 0x11]);
    cpu.registers.a = 0b1000_0001;
    cpu.registers.f.carry = false;
    cpu.step().unwrap();
    assert_eq!(cpu.registers.a, 0b0000_0010);
    assert!(cpu.registers.f.carry);
    cpu.registers.a = 0b1000_0001;
    cpu.step().unwrap();
    assert_eq!(cpu.registers.a, 0b0000_0011);
    assert!(cpu.registers.f.carry);
    assert!(!cpu.registers.f.zero);
    cpu.registers.c = 0b0100_0000;
    cpu.registers.f.carry = true;
    let res = cpu.step().unwrap().unwrap();
    assert_eq!(res.length, 2);
    assert_eq!(cpu.registers.c, 0b1000_0001);
    assert!(!cpu.registers.f.carry);
}

#[test]
fn nop_and_halt() {
    let mut cpu = cpu(Registers::new());
    nop(&mut cpu);
    assert_eq!(cpu.pc.get(), 1);
    halt(&mut cpu);
    assert_eq!(cpu.state, State::Halted);
    assert!(nop(&mut cpu).is_none());
    assert_eq!(cpu.pc.get(), 2);
}
