use vstd::prelude::*;
use crate::cpu::{executed, wrap16, Cpu, CpuModel, State};
use crate::instruction::{base_tag, extended_tag, CondKind, Decoded, Instr, InstrKind, Operand};
use crate::microcode::{alu, effect, ExecError, ExecRes};
use crate::registers::{FlagsRegister, Reg16Kind, Reg8Kind, Registers};

verus! {

/// The 3-bit field that names an 8-bit register in an opcode.
pub open spec fn reg_code(reg: Reg8Kind) -> u8 {
    match reg {
        Reg8Kind::B => 0,
        Reg8Kind::C => 1,
        Reg8Kind::D => 2,
        Reg8Kind::E => 3,
        Reg8Kind::H => 4,
        Reg8Kind::L => 5,
        Reg8Kind::A => 7,
    }
}

/// The 2-bit field that names a 16-bit register in an opcode.
pub open spec fn pair_code(reg: Reg16Kind) -> u8 {
    match reg {
        Reg16Kind::BC => 0,
        Reg16Kind::DE => 1,
        Reg16Kind::HL => 2,
        Reg16Kind::SP => 3,
    }
}

pub open spec fn cond_code(c: CondKind) -> u8 {
    match c {
        CondKind::NotZero => 0,
        CondKind::Zero => 1,
        CondKind::NotCarry => 2,
        _ => 3,
    }
}

fn reg_code_exec(reg: Reg8Kind) -> (r: u8)
    ensures
        r == reg_code(reg),
{
    match reg {
        Reg8Kind::B => 0,
        Reg8Kind::C => 1,
        Reg8Kind::D => 2,
        Reg8Kind::E => 3,
        Reg8Kind::H => 4,
        Reg8Kind::L => 5,
        Reg8Kind::A => 7,
    }
}

fn pair_code_exec(reg: Reg16Kind) -> (r: u8)
    ensures
        r == pair_code(reg),
{
    match reg {
        Reg16Kind::BC => 0,
        Reg16Kind::DE => 1,
        Reg16Kind::HL => 2,
        Reg16Kind::SP => 3,
    }
}

fn cond_code_exec(c: CondKind) -> (r: u8)
    ensures
        r == cond_code(c),
{
    match c {
        CondKind::NotZero => 0,
        CondKind::Zero => 1,
        CondKind::NotCarry => 2,
        _ => 3,
    }
}

/// The accumulator operation `kind` with register `reg`, as the opcode
/// `0x80 + 8 * op + reg` runs it: on a running CPU, A gets the result (but
/// for `cp`), the flags are replaced, the program counter moves one byte on,
/// and 4 cycles are counted; a halted CPU does nothing.
pub open spec fn alu_done(pre: Cpu, post: Cpu, kind: InstrKind, reg: Reg8Kind, r: Option<ExecRes>) -> bool {
    if pre.state == State::Halted {
        r is None && post == pre
    } else {
        let (res, flags) = alu(kind, pre.registers.a, pre.registers.value(reg), pre.registers.f.carry);
        &&& r matches Some(x) && x.ticks == 4 && x.length == 1
        &&& post.model() == (CpuModel {
            registers: Registers {
                a: if kind == InstrKind::Cp {
                    pre.registers.a
                } else {
                    res
                },
                f: flags,
                ..pre.registers
            },
            pc: wrap16(pre.pc.0 + 1),
            ..pre.model()
        })
        &&& post.clock.0 == (pre.clock.0 + 4) % 0x1_0000_0000_0000_0000
        &&& post.gpu == pre.gpu.advanced(4)
        &&& post.wf()
    }
}

fn alu_reg(cpu: &mut Cpu, kind: InstrKind, op: u8, reg: Reg8Kind) -> (r: Option<ExecRes>)
    requires
        old(cpu).wf(),
        op < 8,
        kind == crate::instruction::alu_field(op as int),
    ensures
        alu_done(*old(cpu), *final(cpu), kind, reg, r),
{
    let opcode = 0x80 + 8 * op + reg_code_exec(reg);
    let instr = Instr::new(opcode as u16, base_tag(opcode)).id(kind).rhs(Operand::Reg8(reg));
    let r = cpu.execute(instr);
    proof {
        reveal(effect);
    }
    match r {
        Ok(x) => x,
        Err(_) => None,
    }
}

/// `add A, reg`.
pub fn add(cpu: &mut Cpu, reg: Reg8Kind) -> (r: Option<ExecRes>)
    requires
        old(cpu).wf(),
    ensures
        alu_done(*old(cpu), *final(cpu), InstrKind::Add, reg, r),
{
    alu_reg(cpu, InstrKind::Add, 0, reg)
}

/// `adc A, reg`.
pub fn adc(cpu: &mut Cpu, reg: Reg8Kind) -> (r: Option<ExecRes>)
    requires
        old(cpu).wf(),
    ensures
        alu_done(*old(cpu), *final(cpu), InstrKind::Adc, reg, r),
{
    alu_reg(cpu, InstrKind::Adc, 1, reg)
}

/// `sub A, reg`.
pub fn sub(cpu: &mut Cpu, reg: Reg8Kind) -> (r: Option<ExecRes>)
    requires
        old(cpu).wf(),
    ensures
        alu_done(*old(cpu), *final(cpu), InstrKind::Sub, reg, r),
{
    alu_reg(cpu, InstrKind::Sub, 2, reg)
}

/// `sbc A, reg`.
pub fn sbc(cpu: &mut Cpu, reg: Reg8Kind) -> (r: Option<ExecRes>)
    requires
        old(cpu).wf(),
    ensures
        alu_done(*old(cpu), *final(cpu), InstrKind::Sbc, reg, r),
{
    alu_reg(cpu, InstrKind::Sbc, 3, reg)
}

/// `and A, reg`.
pub fn and(cpu: &mut Cpu, reg: Reg8Kind) -> (r: Option<ExecRes>)
    requires
        old(cpu).wf(),
    ensures
        alu_done(*old(cpu), *final(cpu), InstrKind::And, reg, r),
{
    alu_reg(cpu, InstrKind::And, 4, reg)
}

/// `xor A, reg`.
pub fn xor(cpu: &mut Cpu, reg: Reg8Kind) -> (r: Option<ExecRes>)
    requires
        old(cpu).wf(),
    ensures
        alu_done(*old(cpu), *final(cpu), InstrKind::Xor, reg, r),
{
    alu_reg(cpu, InstrKind::Xor, 5, reg)
}

/// `or A, reg`.
pub fn or(cpu: &mut Cpu, reg: Reg8Kind) -> (r: Option<ExecRes>)
    requires
        old(cpu).wf(),
    ensures
        alu_done(*old(cpu), *final(cpu), InstrKind::Or, reg, r),
{
    alu_reg(cpu, InstrKind::Or, 6, reg)
}

/// `cp A, reg`.
pub fn cp(cpu: &mut Cpu, reg: Reg8Kind) -> (r: Option<ExecRes>)
    requires
        old(cpu).wf(),
    ensures
        alu_done(*old(cpu), *final(cpu), InstrKind::Cp, reg, r),
{
    alu_reg(cpu, InstrKind::Cp, 7, reg)
}

pub open spec fn simple(pos: int, id: InstrKind, lhs: Option<Operand>, rhs: Option<Operand>) -> Decoded {
    Decoded { pos: pos as u16, id, lhs, rhs, post_op: None }
}

/// `add HL, reg`: on a running CPU, HL gets the wrapped sum, subtract is
/// cleared, half-carry and carry come from bits 11 and 15, zero is kept.
pub fn add_hl(cpu: &mut Cpu, reg: Reg16Kind) -> (r: Option<ExecRes>)
    requires
        old(cpu).wf(),
    ensures
        executed(
            *old(cpu),
            *final(cpu),
            simple(0x09 + 16 * pair_code(reg), InstrKind::AddHl, None, Some(Operand::Reg16(reg))),
            match r {
                Some(x) => Ok(Some(x)),
                None => Ok(None),
            },
        ),
        old(cpu).state == State::Running ==> {
            let hl = old(cpu).registers.hl();
            let v = if reg == Reg16Kind::SP {
                old(cpu).sp
            } else {
                old(cpu).registers.pair(reg)
            };
            &&& final(cpu).registers.hl() == wrap16(hl + v)
            &&& final(cpu).registers.f == (FlagsRegister {
                zero: old(cpu).registers.f.zero,
                subtract: false,
                half_carry: hl % 4096 + v % 4096 > 4095,
                carry: hl + v > 65535,
            })
            &&& final(cpu).pc.0 == wrap16(old(cpu).pc.0 + 1)
        },
{
    let opcode = 0x09 + 16 * pair_code_exec(reg);
    let instr = Instr::new(opcode as u16, base_tag(opcode)).id(InstrKind::AddHl).rhs(Operand::Reg16(reg));
    let r = cpu.execute(instr);
    proof {
        reveal(effect);
    }
    match r {
        Ok(x) => x,
        Err(_) => None,
    }
}

/// `ld dst, src` between 8-bit registers: on a running CPU, `dst` gets the
/// value of `src` and the program counter moves one byte on.
pub fn ld(cpu: &mut Cpu, dst: Reg8Kind, src: Reg8Kind) -> (r: Option<ExecRes>)
    requires
        old(cpu).wf(),
    ensures
        executed(
            *old(cpu),
            *final(cpu),
            simple(0x40 + 8 * reg_code(dst) + reg_code(src), InstrKind::Ld, Some(Operand::Reg8(dst)), Some(Operand::Reg8(src))),
            match r {
                Some(x) => Ok(Some(x)),
                None => Ok(None),
            },
        ),
        old(cpu).state == State::Running ==> final(cpu).registers == old(cpu).registers.with_value(
            dst,
            old(cpu).registers.value(src),
        ) && final(cpu).pc.0 == wrap16(old(cpu).pc.0 + 1),
{
    let opcode = 0x40 + 8 * reg_code_exec(dst) + reg_code_exec(src);
    let instr = Instr::new(opcode as u16, base_tag(opcode)).id(InstrKind::Ld).lhs(Operand::Reg8(dst)).rhs(Operand::Reg8(src));
    let r = cpu.execute(instr);
    proof {
        reveal(effect);
    }
    match r {
        Ok(x) => x,
        Err(_) => None,
    }
}

/// `bit pos, reg`: on a running CPU, zero is set when bit `pos` of `reg` is
/// clear; subtract and half-carry are cleared and carry kept.
pub fn bit(cpu: &mut Cpu, pos: u8, reg: Reg8Kind) -> (r: Option<ExecRes>)
    requires
        old(cpu).wf(),
        pos < 8,
    ensures
        executed(
            *old(cpu),
            *final(cpu),
            simple(0xCB40 + 8 * pos + reg_code(reg), InstrKind::Bit, Some(Operand::BitPos(pos)), Some(Operand::Reg8(reg))),
            match r {
                Some(x) => Ok(Some(x)),
                None => Ok(None),
            },
        ),
        old(cpu).state == State::Running ==> final(cpu).registers.f == (FlagsRegister {
            zero: (old(cpu).registers.value(reg) >> pos) & 1u8 == 0,
            subtract: false,
            half_carry: false,
            carry: old(cpu).registers.f.carry,
        }) && final(cpu).pc.0 == wrap16(old(cpu).pc.0 + 2),
{
    let code = 0x40 + 8 * pos + reg_code_exec(reg);
    let instr = Instr::new(0xCB00 + code as u16, extended_tag(code)).id(InstrKind::Bit).lhs(Operand::BitPos(pos)).rhs(Operand::Reg8(reg));
    let r = cpu.execute(instr);
    proof {
        reveal(effect);
    }
    match r {
        Ok(x) => x,
        Err(_) => None,
    }
}

/// `push reg`, a register pair.
pub fn push(cpu: &mut Cpu, reg: Reg16Kind) -> (r: Result<Option<ExecRes>, ExecError>)
    requires
        old(cpu).wf(),
        reg != Reg16Kind::SP,
    ensures
        executed(
            *old(cpu),
            *final(cpu),
            simple(0xC5 + 16 * pair_code(reg), InstrKind::Push, None, Some(Operand::Reg16(reg))),
            r,
        ),
{
    let opcode = 0xC5 + 16 * pair_code_exec(reg);
    let instr = Instr::new(opcode as u16, base_tag(opcode)).id(InstrKind::Push).rhs(Operand::Reg16(reg));
    cpu.execute(instr)
}

/// `pop reg`, a register pair.
pub fn pop(cpu: &mut Cpu, reg: Reg16Kind) -> (r: Result<Option<ExecRes>, ExecError>)
    requires
        old(cpu).wf(),
        reg != Reg16Kind::SP,
    ensures
        executed(
            *old(cpu),
            *final(cpu),
            simple(0xC1 + 16 * pair_code(reg), InstrKind::Pop, None, Some(Operand::Reg16(reg))),
            r,
        ),
{
    let opcode = 0xC1 + 16 * pair_code_exec(reg);
    let instr = Instr::new(opcode as u16, base_tag(opcode)).id(InstrKind::Pop).rhs(Operand::Reg16(reg));
    cpu.execute(instr)
}

/// The opcode of a conditional control transfer: `base` for the NZ form,
/// `always` for the unconditional one.
pub open spec fn control_opcode(c: CondKind, base: int, always: int) -> int {
    if c == CondKind::Always {
        always
    } else {
        base + 8 * cond_code(c)
    }
}

fn control_opcode_exec(c: CondKind, base: u8, always: u8) -> (r: u8)
    requires
        base <= 0xC4,
    ensures
        r == control_opcode(c, base as int, always as int),
{
    match c {
        CondKind::Always => always,
        _ => base + 8 * cond_code_exec(c),
    }
}

/// `jp c, u16`.
pub fn jp(cpu: &mut Cpu, c: CondKind) -> (r: Result<Option<ExecRes>, ExecError>)
    requires
        old(cpu).wf(),
    ensures
        executed(
            *old(cpu),
            *final(cpu),
            simple(control_opcode(c, 0xC2, 0xC3), InstrKind::Jp, Some(Operand::Cond(c)), Some(Operand::U16)),
            r,
        ),
{
    let opcode = control_opcode_exec(c, 0xC2, 0xC3);
    let instr = Instr::new(opcode as u16, base_tag(opcode)).id(InstrKind::Jp).lhs(Operand::Cond(c)).rhs(Operand::U16);
    cpu.execute(instr)
}

/// `jp HL`: on a running CPU, the program counter becomes HL.
pub fn jp_hl(cpu: &mut Cpu) -> (r: Option<ExecRes>)
    requires
        old(cpu).wf(),
    ensures
        executed(
            *old(cpu),
            *final(cpu),
            simple(0xE9, InstrKind::Jp, Some(Operand::Cond(CondKind::Always)), Some(Operand::Reg16(Reg16Kind::HL))),
            match r {
                Some(x) => Ok(Some(x)),
                None => Ok(None),
            },
        ),
        old(cpu).state == State::Running ==> final(cpu).pc.0 == old(cpu).registers.hl(),
{
    let instr = Instr::new(0xE9, base_tag(0xE9)).id(InstrKind::Jp).lhs(Operand::Cond(CondKind::Always)).rhs(Operand::Reg16(Reg16Kind::HL));
    let r = cpu.execute(instr);
    proof {
        reveal(effect);
    }
    match r {
        Ok(x) => x,
        Err(_) => None,
    }
}

/// `jr c, i8`.
pub fn jr(cpu: &mut Cpu, c: CondKind) -> (r: Result<Option<ExecRes>, ExecError>)
    requires
        old(cpu).wf(),
    ensures
        executed(
            *old(cpu),
            *final(cpu),
            simple(control_opcode(c, 0x20, 0x18), InstrKind::Jr, Some(Operand::Cond(c)), None),
            r,
        ),
{
    let opcode = control_opcode_exec(c, 0x20, 0x18);
    let instr = Instr::new(opcode as u16, base_tag(opcode)).id(InstrKind::Jr).lhs(Operand::Cond(c));
    cpu.execute(instr)
}

/// `call c, u16`.
pub fn call(cpu: &mut Cpu, c: CondKind) -> (r: Result<Option<ExecRes>, ExecError>)
    requires
        old(cpu).wf(),
    ensures
        executed(
            *old(cpu),
            *final(cpu),
            simple(control_opcode(c, 0xC4, 0xCD), InstrKind::Call, Some(Operand::Cond(c)), Some(Operand::U16)),
            r,
        ),
{
    let opcode = control_opcode_exec(c, 0xC4, 0xCD);
    let instr = Instr::new(opcode as u16, base_tag(opcode)).id(InstrKind::Call).lhs(Operand::Cond(c)).rhs(Operand::U16);
    cpu.execute(instr)
}

/// `ret c`.
pub fn ret(cpu: &mut Cpu, c: CondKind) -> (r: Result<Option<ExecRes>, ExecError>)
    requires
        old(cpu).wf(),
    ensures
        executed(
            *old(cpu),
            *final(cpu),
            simple(control_opcode(c, 0xC0, 0xC9), InstrKind::Ret, Some(Operand::Cond(c)), None),
            r,
        ),
{
    let opcode = control_opcode_exec(c, 0xC0, 0xC9);
    let instr = Instr::new(opcode as u16, base_tag(opcode)).id(InstrKind::Ret).lhs(Operand::Cond(c));
    cpu.execute(instr)
}

/// `nop`: on a running CPU, only the program counter moves, one byte on.
pub fn nop(cpu: &mut Cpu) -> (r: Option<ExecRes>)
    requires
        old(cpu).wf(),
    ensures
        executed(
            *old(cpu),
            *final(cpu),
            simple(0x00, InstrKind::Nop, None, None),
            match r {
                Some(x) => Ok(Some(x)),
                None => Ok(None),
            },
        ),
        old(cpu).state == State::Running ==> final(cpu).model() == (CpuModel {
            pc: wrap16(old(cpu).pc.0 + 1),
            ..old(cpu).model()
        }),
{
    let instr = Instr::new(0x00, base_tag(0x00)).id(InstrKind::Nop);
    let r = cpu.execute(instr);
    proof {
        reveal(effect);
    }
    match r {
        Ok(x) => x,
        Err(_) => None,
    }
}

/// `halt`: the CPU stops running.
pub fn halt(cpu: &mut Cpu) -> (r: Option<ExecRes>)
    requires
        old(cpu).wf(),
    ensures
        executed(
            *old(cpu),
            *final(cpu),
            simple(0x76, InstrKind::Halt, None, None),
            match r {
                Some(x) => Ok(Some(x)),
                None => Ok(None),
            },
        ),
        final(cpu).state == State::Halted,
{
    let instr = Instr::new(0x76, base_tag(0x76)).id(InstrKind::Halt);
    let r = cpu.execute(instr);
    proof {
        reveal(effect);
    }
    match r {
        Ok(x) => x,
        Err(_) => None,
    }
}

/// The value of an 8-bit register operand.
pub fn op_to_u8_reg(op: &Operand, registers: &Registers) -> (r: u8)
    requires
        op is Reg8,
    ensures
        r == registers.value(op->Reg8_0),
{
    match op {
        Operand::Reg8(reg) => registers.get(*reg),
        _ => 0,
    }
}

/// The value of a register-pair operand.
pub fn op_to_u16_reg(op: &Operand, registers: &Registers) -> (r: u16)
    requires
        op is Reg16,
        op->Reg16_0 != Reg16Kind::SP,
    ensures
        r == registers.pair(op->Reg16_0),
{
    match op {
        Operand::Reg16(reg) => registers.get_word(*reg),
        _ => 0,
    }
}

/// Writes a register-pair operand.
pub fn op_to_u16_reg_w(op: &Operand, registers: &mut Registers, val: u16)
    requires
        op is Reg16,
        op->Reg16_0 != Reg16Kind::SP,
    ensures
        *final(registers) == old(registers).with_pair(op->Reg16_0, val),
{
    match op {
        Operand::Reg16(reg) => registers.set_word(*reg, val),
        _ => {},
    }
}

} // verus!
