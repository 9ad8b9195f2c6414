use vstd::prelude::*;
use crate::cpu::{wrap16, Cpu, CpuModel};
use crate::instruction::{CondKind, Decoded, Instr, InstrKind, Operand, PostOp};
use crate::memory_bus::{mapped, stored};
use crate::registers::{bit_of, high_byte, low_byte, word, FlagsRegister, Reg16Kind, Registers};

verus! {

/// What an executed instruction reports: cycles spent, its length in bytes,
/// its descriptor, and an optional pair of values for tracing.
#[derive(Debug, Clone, Copy)]
pub struct ExecRes {
    pub ticks: u8,
    pub length: u16,
    pub instr: Instr,
    pub trace: Option<(u16, u16)>,
}

/// Why an instruction could not be executed. Each one is fatal to the
/// emulation: the CPU is left as it was before the instruction.
#[derive(Debug, Clone, Copy, PartialEq, Eq, Structural)]
pub enum ExecError {
    /// The opcode at this position has no implementation.
    UnknownOpcode(u16),
    /// The instruction at this position has operands that its kind cannot take.
    OperandMismatch(u16),
    /// The instruction touched an address that no memory region answers.
    UnmappedAddress(u16),
}

/// The state after an instruction and what it reports.
pub struct Outcome {
    pub next: CpuModel,
    pub ticks: u8,
    pub length: u16,
    pub trace: Option<(u16, u16)>,
}

/// The executable CPU state `post` and the result `r` agree with the outcome
/// `eff` that the instruction has on `pre`; on an error nothing changed.
pub open spec fn applied(
    pre: Cpu,
    post: Cpu,
    instr: Instr,
    eff: Result<Outcome, ExecError>,
    r: Result<ExecRes, ExecError>,
) -> bool {
    match eff {
        Ok(o) => {
            &&& r == Ok::<ExecRes, ExecError>(
                ExecRes { ticks: o.ticks, length: o.length, instr, trace: o.trace },
            )
            &&& post.model() == o.next
            &&& post.wf()
            &&& post.clock == pre.clock
            &&& post.gpu == pre.gpu
        },
        Err(e) => r == Err::<ExecRes, ExecError>(e) && post == pre,
    }
}

pub open spec fn finish(next: CpuModel, length: int, ticks: int, trace: Option<(u16, u16)>) -> Result<
    Outcome,
    ExecError,
> {
    Ok(Outcome { next, ticks: ticks as u8, length: length as u16, trace })
}

/// The state with new registers and the program counter moved past an
/// instruction of `length` bytes.
pub open spec fn past(m: CpuModel, registers: Registers, length: int) -> CpuModel {
    CpuModel { registers, pc: wrap16(m.pc + length), ..m }
}

pub open spec fn read_res(m: CpuModel, addr: u16) -> Result<u8, ExecError> {
    if mapped(addr) {
        Ok(m.mem[addr as int])
    } else {
        Err(ExecError::UnmappedAddress(addr))
    }
}

/// The byte after the opcode.
pub open spec fn imm8_res(m: CpuModel) -> Result<u8, ExecError> {
    read_res(m, wrap16(m.pc + 1))
}

/// The little-endian word after the opcode.
pub open spec fn imm16_res(m: CpuModel) -> Result<u16, ExecError> {
    match read_res(m, wrap16(m.pc + 1)) {
        Err(e) => Err(e),
        Ok(lo) => match read_res(m, wrap16(m.pc + 2)) {
            Err(e) => Err(e),
            Ok(hi) => Ok(word(hi, lo)),
        },
    }
}

/// How many bytes of an instruction an operand takes after the opcode.
pub open spec fn imm_len(op: Operand) -> int {
    match op {
        Operand::U8 | Operand::U8Indir(_) => 1,
        Operand::U16 | Operand::U16Indir => 2,
        _ => 0,
    }
}

pub open spec fn is_mem(op: Operand) -> bool {
    match op {
        Operand::Reg16Indir(k) => k != Reg16Kind::SP,
        Operand::U8Indir(_) | Operand::Reg8Indir(_, _) | Operand::U16Indir => true,
        _ => false,
    }
}

/// The address that a memory operand names.
pub open spec fn mem_addr_res(m: CpuModel, op: Operand, pos: u16) -> Result<u16, ExecError> {
    match op {
        Operand::Reg16Indir(k) => if k == Reg16Kind::SP {
            Err(ExecError::OperandMismatch(pos))
        } else {
            Ok(m.registers.pair(k))
        },
        Operand::U8Indir(base) => match imm8_res(m) {
            Err(e) => Err(e),
            Ok(n) => Ok(wrap16(base + n)),
        },
        Operand::Reg8Indir(r, base) => Ok(wrap16(base + m.registers.value(r))),
        Operand::U16Indir => imm16_res(m),
        _ => Err(ExecError::OperandMismatch(pos)),
    }
}

/// The byte that an 8-bit source operand reads: a register, the byte after
/// the opcode, or memory.
pub open spec fn source8(m: CpuModel, op: Option<Operand>, pos: u16) -> Result<u8, ExecError> {
    match op {
        Some(Operand::Reg8(r)) => Ok(m.registers.value(r)),
        Some(Operand::U8) => imm8_res(m),
        Some(o) => if is_mem(o) {
            match mem_addr_res(m, o, pos) {
                Err(e) => Err(e),
                Ok(addr) => read_res(m, addr),
            }
        } else {
            Err(ExecError::OperandMismatch(pos))
        },
        None => Err(ExecError::OperandMismatch(pos)),
    }
}

pub open spec fn mem_count(op: Operand) -> int {
    if is_mem(op) {
        1
    } else {
        0
    }
}

/// `a + v + carry_in`: zero when the wrapped sum is zero, half-carry out of
/// bit 3, carry out of bit 7.
pub open spec fn add8(a: u8, v: u8, carry_in: int) -> (u8, FlagsRegister) {
    let sum = a + v + carry_in;
    let res = (sum % 256) as u8;
    (
        res,
        FlagsRegister {
            zero: res == 0,
            subtract: false,
            half_carry: a % 16 + v % 16 + carry_in > 15,
            carry: sum > 255,
        },
    )
}

/// `a - v - borrow_in`: zero when the wrapped difference is zero, half-carry
/// on a borrow into bit 4, carry on a borrow out of bit 7.
pub open spec fn sub8(a: u8, v: u8, borrow_in: int) -> (u8, FlagsRegister) {
    let res = ((a - v - borrow_in) % 256) as u8;
    (
        res,
        FlagsRegister {
            zero: res == 0,
            subtract: true,
            half_carry: a % 16 < v % 16 + borrow_in,
            carry: a < v + borrow_in,
        },
    )
}

pub open spec fn logic_flags(res: u8, half_carry: bool) -> FlagsRegister {
    FlagsRegister { zero: res == 0, subtract: false, half_carry, carry: false }
}

pub open spec fn is_alu(kind: InstrKind) -> bool {
    match kind {
        InstrKind::Add | InstrKind::Adc | InstrKind::Sub | InstrKind::Sbc | InstrKind::And
        | InstrKind::Or | InstrKind::Xor | InstrKind::Cp => true,
        _ => false,
    }
}

/// The result and flags of an accumulator operation on `a` and `v`.
pub open spec fn alu(kind: InstrKind, a: u8, v: u8, carry: bool) -> (u8, FlagsRegister) {
    match kind {
        InstrKind::Add => add8(a, v, 0),
        InstrKind::Adc => add8(a, v, bit_of(carry)),
        InstrKind::Sbc => sub8(a, v, bit_of(carry)),
        InstrKind::And => (a & v, logic_flags(a & v, true)),
        InstrKind::Or => (a | v, logic_flags(a | v, false)),
        InstrKind::Xor => (a ^ v, logic_flags(a ^ v, false)),
        _ => sub8(a, v, 0),
    }
}

/// An accumulator operation: the result goes to A (but for `cp`, which only
/// sets the flags), and the flags are replaced.
pub open spec fn alu_effect(m: CpuModel, instr: Decoded) -> Result<Outcome, ExecError> {
    match source8(m, instr.rhs, instr.pos) {
        Err(e) => Err(e),
        Ok(v) => {
            let op = instr.rhs.unwrap();
            let (res, flags) = alu(instr.id, m.registers.a, v, m.registers.f.carry);
            let a = if instr.id == InstrKind::Cp {
                m.registers.a
            } else {
                res
            };
            let length = 1 + imm_len(op);
            finish(
                past(m, Registers { a, f: flags, ..m.registers }, length),
                length,
                4 * (length + mem_count(op)),
                None,
            )
        },
    }
}

/// What an instruction does to the CPU, or why it cannot be executed.
#[verifier::opaque]
pub open spec fn effect(m: CpuModel, instr: Decoded) -> Result<Outcome, ExecError> {
    match instr.id {
        InstrKind::Nop => finish(past(m, m.registers, 1), 1, 4, None),
        InstrKind::Halt => finish(CpuModel { halted: true, ..past(m, m.registers, 1) }, 1, 4, None),
        InstrKind::Add | InstrKind::Adc | InstrKind::Sub | InstrKind::Sbc | InstrKind::And
        | InstrKind::Or | InstrKind::Xor | InstrKind::Cp => alu_effect(m, instr),
        InstrKind::AddHl => add_hl_effect(m, instr),
        InstrKind::Inc => inc_dec_effect(m, instr, true),
        InstrKind::Dec => inc_dec_effect(m, instr, false),
        InstrKind::Bit => bit_effect(m, instr),
        InstrKind::Rot => rot_effect(m, instr),
        InstrKind::RotA => rot_a_effect(m, instr),
        InstrKind::Jp => jp_effect(m, instr),
        InstrKind::Jr => jr_effect(m, instr),
        InstrKind::Call => call_effect(m, instr),
        InstrKind::Ret => ret_effect(m, instr),
        InstrKind::Push => push_effect(m, instr),
        InstrKind::Pop => pop_effect(m, instr),
        InstrKind::Ld => ld_effect(m, instr),
        InstrKind::LdWord => ld_word_effect(m, instr),
        InstrKind::Unimpl => Err(ExecError::UnknownOpcode(instr.pos)),
    }
}

/// A 16-bit register, the stack pointer included.
pub open spec fn reg16(m: CpuModel, k: Reg16Kind) -> u16 {
    if k == Reg16Kind::SP {
        m.sp
    } else {
        m.registers.pair(k)
    }
}

pub open spec fn set16(m: CpuModel, k: Reg16Kind, v: u16) -> CpuModel {
    if k == Reg16Kind::SP {
        CpuModel { sp: v, ..m }
    } else {
        CpuModel { registers: m.registers.with_pair(k, v), ..m }
    }
}

/// `add HL, rr`: carry out of bit 15, half-carry out of bit 11, zero kept.
pub open spec fn add_hl_effect(m: CpuModel, instr: Decoded) -> Result<Outcome, ExecError> {
    match instr.rhs {
        Some(Operand::Reg16(k)) => {
            let hl = m.registers.hl();
            let v = reg16(m, k);
            let flags = FlagsRegister {
                zero: m.registers.f.zero,
                subtract: false,
                half_carry: hl % 4096 + v % 4096 > 4095,
                carry: hl + v > 65535,
            };
            let regs = Registers { f: flags, ..m.registers.with_pair(Reg16Kind::HL, wrap16(hl + v)) };
            finish(past(m, regs, 1), 1, 8, None)
        },
        _ => Err(ExecError::OperandMismatch(instr.pos)),
    }
}

/// Increment or decrement of a byte: zero, subtract on decrement, half-carry
/// when the low nibble wraps; carry is kept.
pub open spec fn step8(old: u8, up: bool, f: FlagsRegister) -> (u8, FlagsRegister) {
    let res = if up {
        ((old + 1) % 256) as u8
    } else {
        ((old - 1) % 256) as u8
    };
    (
        res,
        FlagsRegister {
            zero: res == 0,
            subtract: !up,
            half_carry: if up {
                old % 16 == 15
            } else {
                old % 16 == 0
            },
            carry: f.carry,
        },
    )
}

/// `inc` (when `up`) or `dec` of an 8-bit register, a 16-bit register (no
/// flags), or the byte at the address in a register pair.
pub open spec fn inc_dec_effect(m: CpuModel, instr: Decoded, up: bool) -> Result<Outcome, ExecError> {
    match instr.rhs {
        Some(Operand::Reg8(r)) => {
            let (res, flags) = step8(m.registers.value(r), up, m.registers.f);
            finish(past(m, Registers { f: flags, ..m.registers.with_value(r, res) }, 1), 1, 4, None)
        },
        Some(Operand::Reg16(k)) => {
            let v = reg16(m, k);
            let res = if up {
                wrap16(v + 1)
            } else {
                wrap16(v - 1)
            };
            finish(set16(past(m, m.registers, 1), k, res), 1, 8, None)
        },
        Some(Operand::Reg16Indir(k)) => if k == Reg16Kind::SP {
            Err(ExecError::OperandMismatch(instr.pos))
        } else {
            let addr = m.registers.pair(k);
            match read_res(m, addr) {
                Err(e) => Err(e),
                Ok(old) => {
                    let (res, flags) = step8(old, up, m.registers.f);
                    finish(
                        CpuModel {
                            mem: stored(m.mem, addr, res),
                            ..past(m, Registers { f: flags, ..m.registers }, 1)
                        },
                        1,
                        12,
                        None,
                    )
                },
            }
        },
        _ => Err(ExecError::OperandMismatch(instr.pos)),
    }
}

pub open spec fn reg_or_pair_mem(op: Option<Operand>) -> bool {
    match op {
        Some(Operand::Reg8(_)) => true,
        Some(Operand::Reg16Indir(k)) => k != Reg16Kind::SP,
        _ => false,
    }
}

/// `bit n, r`: zero when bit `n` of the operand is clear; subtract and
/// half-carry cleared; carry kept.
pub open spec fn bit_effect(m: CpuModel, instr: Decoded) -> Result<Outcome, ExecError> {
    match instr.lhs {
        Some(Operand::BitPos(n)) => if n < 8 && reg_or_pair_mem(instr.rhs) {
            match source8(m, instr.rhs, instr.pos) {
                Err(e) => Err(e),
                Ok(v) => {
                    let bit = (v >> n) & 1u8;
                    let flags = FlagsRegister {
                        zero: bit == 0,
                        subtract: false,
                        half_carry: false,
                        carry: m.registers.f.carry,
                    };
                    finish(
                        past(m, Registers { f: flags, ..m.registers }, 2),
                        2,
                        8 + 4 * mem_count(instr.rhs.unwrap()),
                        Some((bit as u16, v as u16)),
                    )
                },
            }
        } else {
            Err(ExecError::OperandMismatch(instr.pos))
        },
        _ => Err(ExecError::OperandMismatch(instr.pos)),
    }
}

/// Rotate left by one: bit 7 goes out to carry; bit 0 receives bit 7 again
/// when `wrap`, else the previous carry. Returns the result and the new carry.
pub open spec fn rotl(old: u8, wrap: bool, carry: bool) -> (u8, bool) {
    let out = old >= 128;
    let b0 = if wrap {
        out
    } else {
        carry
    };
    ((((old * 2) % 256) + bit_of(b0)) as u8, out)
}

/// Whether a post-effect selects rotate-and-wrap (`Some(true)`) or rotate
/// through carry (`Some(false)`).
pub open spec fn rot_variant(post: Option<PostOp>) -> Option<bool> {
    match post {
        Some(PostOp::B7ToCarryAndB0) => Some(true),
        Some(PostOp::CarryToB0) => Some(false),
        _ => None,
    }
}

/// `rlc r` / `rl r`: zero from the result, subtract and half-carry cleared.
pub open spec fn rot_effect(m: CpuModel, instr: Decoded) -> Result<Outcome, ExecError> {
    match (instr.lhs, instr.rhs, rot_variant(instr.post_op)) {
        (Some(Operand::Reg8(r)), Some(Operand::RotLeft), Some(wrap)) => {
            let (res, out) = rotl(m.registers.value(r), wrap, m.registers.f.carry);
            let flags = FlagsRegister { zero: res == 0, subtract: false, half_carry: false, carry: out };
            finish(past(m, Registers { f: flags, ..m.registers.with_value(r, res) }, 2), 2, 8, None)
        },
        _ => Err(ExecError::OperandMismatch(instr.pos)),
    }
}

/// `rlca` / `rla`: like the register rotates, but zero is always cleared.
pub open spec fn rot_a_effect(m: CpuModel, instr: Decoded) -> Result<Outcome, ExecError> {
    match (instr.rhs, rot_variant(instr.post_op)) {
        (Some(Operand::RotLeft), Some(wrap)) => {
            let (res, out) = rotl(m.registers.a, wrap, m.registers.f.carry);
            let flags = FlagsRegister { zero: false, subtract: false, half_carry: false, carry: out };
            finish(past(m, Registers { a: res, f: flags, ..m.registers }, 1), 1, 4, None)
        },
        _ => Err(ExecError::OperandMismatch(instr.pos)),
    }
}

pub open spec fn cond_holds(f: FlagsRegister, c: CondKind) -> bool {
    match c {
        CondKind::Always => true,
        CondKind::NotZero => !f.zero,
        CondKind::Zero => f.zero,
        CondKind::NotCarry => !f.carry,
        CondKind::Carry => f.carry,
    }
}

/// `jp cc, u16` jumps to the word after the opcode when the condition holds;
/// `jp HL` jumps to HL.
pub open spec fn jp_effect(m: CpuModel, instr: Decoded) -> Result<Outcome, ExecError> {
    match (instr.lhs, instr.rhs) {
        (Some(Operand::Cond(c)), Some(Operand::U16)) => if cond_holds(m.registers.f, c) {
            match imm16_res(m) {
                Err(e) => Err(e),
                Ok(target) => finish(CpuModel { pc: target, ..m }, 3, 16, None),
            }
        } else {
            finish(past(m, m.registers, 3), 3, 12, None)
        },
        (Some(Operand::Cond(CondKind::Always)), Some(Operand::Reg16(Reg16Kind::HL))) => finish(
            CpuModel { pc: m.registers.hl(), ..m },
            1,
            4,
            None,
        ),
        _ => Err(ExecError::OperandMismatch(instr.pos)),
    }
}

/// The byte read as a two's complement offset.
pub open spec fn signed8(b: u8) -> int {
    if b < 128 {
        b as int
    } else {
        b - 256
    }
}

/// `jr cc, i8`: when the condition holds, the program counter past the
/// instruction plus the signed offset; else just past the instruction,
/// without reading the offset.
pub open spec fn jr_effect(m: CpuModel, instr: Decoded) -> Result<Outcome, ExecError> {
    match instr.lhs {
        Some(Operand::Cond(c)) => if cond_holds(m.registers.f, c) {
            match imm8_res(m) {
                Err(e) => Err(e),
                Ok(offset) => finish(
                    CpuModel { pc: wrap16(m.pc + 2 + signed8(offset)), ..m },
                    2,
                    12,
                    None,
                ),
            }
        } else {
            finish(past(m, m.registers, 2), 2, 8, None)
        },
        _ => Err(ExecError::OperandMismatch(instr.pos)),
    }
}

/// Pushing a word: the high byte goes to SP-1, then the low byte to SP-2,
/// and SP becomes SP-2. Returns the new memory.
pub open spec fn push_res(m: CpuModel, v: u16) -> Result<Seq<u8>, ExecError> {
    let s1 = wrap16(m.sp - 1);
    let s2 = wrap16(m.sp - 2);
    if !mapped(s1) {
        Err(ExecError::UnmappedAddress(s1))
    } else if !mapped(s2) {
        Err(ExecError::UnmappedAddress(s2))
    } else {
        Ok(stored(stored(m.mem, s1, high_byte(v)), s2, low_byte(v)))
    }
}

/// Popping a word: the low byte from SP, the high byte from SP+1.
pub open spec fn pop_res(m: CpuModel) -> Result<u16, ExecError> {
    match read_res(m, m.sp) {
        Err(e) => Err(e),
        Ok(lo) => match read_res(m, wrap16(m.sp + 1)) {
            Err(e) => Err(e),
            Ok(hi) => Ok(word(hi, lo)),
        },
    }
}

/// `call cc, u16`: when the condition holds, pushes the address past the
/// instruction and jumps to the word after the opcode.
pub open spec fn call_effect(m: CpuModel, instr: Decoded) -> Result<Outcome, ExecError> {
    let ret = wrap16(m.pc + 3);
    match (instr.lhs, instr.rhs) {
        (Some(Operand::Cond(c)), Some(Operand::U16)) => if cond_holds(m.registers.f, c) {
            match imm16_res(m) {
                Err(e) => Err(e),
                Ok(target) => match push_res(m, ret) {
                    Err(e) => Err(e),
                    Ok(mem) => finish(
                        CpuModel { pc: target, sp: wrap16(m.sp - 2), mem, ..m },
                        3,
                        24,
                        Some((1, target)),
                    ),
                },
            }
        } else {
            finish(past(m, m.registers, 3), 3, 12, Some((0, ret)))
        },
        _ => Err(ExecError::OperandMismatch(instr.pos)),
    }
}

/// `ret cc`: when the condition holds, pops the return address and jumps to
/// it; else moves past the one-byte instruction.
pub open spec fn ret_effect(m: CpuModel, instr: Decoded) -> Result<Outcome, ExecError> {
    match instr.lhs {
        Some(Operand::Cond(c)) => if cond_holds(m.registers.f, c) {
            match pop_res(m) {
                Err(e) => Err(e),
                Ok(target) => finish(
                    CpuModel { pc: target, sp: wrap16(m.sp + 2), ..m },
                    1,
                    if c == CondKind::Always {
                        16
                    } else {
                        20
                    },
                    None,
                ),
            }
        } else {
            finish(past(m, m.registers, 1), 1, 8, None)
        },
        _ => Err(ExecError::OperandMismatch(instr.pos)),
    }
}

pub open spec fn stack_pair(op: Option<Operand>) -> Option<Reg16Kind> {
    match op {
        Some(Operand::Reg16(k)) => if k == Reg16Kind::SP {
            None
        } else {
            Some(k)
        },
        _ => None,
    }
}

/// `push rr`.
pub open spec fn push_effect(m: CpuModel, instr: Decoded) -> Result<Outcome, ExecError> {
    match stack_pair(instr.rhs) {
        Some(k) => match push_res(m, m.registers.pair(k)) {
            Err(e) => Err(e),
            Ok(mem) => finish(CpuModel { sp: wrap16(m.sp - 2), mem, ..past(m, m.registers, 1) }, 1, 16, None),
        },
        None => Err(ExecError::OperandMismatch(instr.pos)),
    }
}

/// `pop rr`.
pub open spec fn pop_effect(m: CpuModel, instr: Decoded) -> Result<Outcome, ExecError> {
    match stack_pair(instr.rhs) {
        Some(k) => match pop_res(m) {
            Err(e) => Err(e),
            Ok(v) => finish(
                CpuModel { sp: wrap16(m.sp + 2), ..past(m, m.registers.with_pair(k, v), 1) },
                1,
                12,
                None,
            ),
        },
        None => Err(ExecError::OperandMismatch(instr.pos)),
    }
}

/// The register pair that a load's post-effect steps, and in which direction.
pub open spec fn ld_post(post: Option<PostOp>) -> Option<Option<(Reg16Kind, bool)>> {
    match post {
        None => Some(None),
        Some(PostOp::Inc(k)) => if k == Reg16Kind::SP {
            None
        } else {
            Some(Some((k, true)))
        },
        Some(PostOp::Dec(k)) => if k == Reg16Kind::SP {
            None
        } else {
            Some(Some((k, false)))
        },
        _ => None,
    }
}

/// The state after a load's post-effect.
pub open spec fn apply_post(m: CpuModel, step: Option<(Reg16Kind, bool)>) -> CpuModel {
    match step {
        None => m,
        Some((k, up)) => {
            let v = m.registers.pair(k);
            CpuModel {
                registers: m.registers.with_pair(
                    k,
                    if up {
                        wrap16(v + 1)
                    } else {
                        wrap16(v - 1)
                    },
                ),
                ..m
            }
        },
    }
}

/// The byte load itself, before its post-effect: into a register from any
/// source, into memory from a register, or an immediate byte into the memory
/// that a register pair points at.
pub open spec fn ld_main(m: CpuModel, instr: Decoded) -> Result<Outcome, ExecError> {
    match (instr.lhs, instr.rhs) {
        (Some(Operand::Reg8(d)), Some(src)) => match source8(m, instr.rhs, instr.pos) {
            Err(e) => Err(e),
            Ok(v) => {
                let length = 1 + imm_len(src);
                finish(
                    past(m, m.registers.with_value(d, v), length),
                    length,
                    4 * (length + mem_count(src)),
                    Some((v as u16, v as u16)),
                )
            },
        },
        (Some(dst), Some(Operand::Reg8(s))) => if is_mem(dst) {
            match mem_addr_res(m, dst, instr.pos) {
                Err(e) => Err(e),
                Ok(addr) => if !mapped(addr) {
                    Err(ExecError::UnmappedAddress(addr))
                } else {
                    let v = m.registers.value(s);
                    let length = 1 + imm_len(dst);
                    finish(
                        CpuModel { mem: stored(m.mem, addr, v), ..past(m, m.registers, length) },
                        length,
                        4 * (length + 1),
                        Some((addr, v as u16)),
                    )
                },
            }
        } else {
            Err(ExecError::OperandMismatch(instr.pos))
        },
        (Some(Operand::Reg16Indir(k)), Some(Operand::U8)) => if k == Reg16Kind::SP {
            Err(ExecError::OperandMismatch(instr.pos))
        } else {
            match imm8_res(m) {
                Err(e) => Err(e),
                Ok(v) => {
                    let addr = m.registers.pair(k);
                    if !mapped(addr) {
                        Err(ExecError::UnmappedAddress(addr))
                    } else {
                        finish(
                            CpuModel { mem: stored(m.mem, addr, v), ..past(m, m.registers, 2) },
                            2,
                            12,
                            Some((addr, v as u16)),
                        )
                    }
                },
            }
        },
        _ => Err(ExecError::OperandMismatch(instr.pos)),
    }
}

/// `ld` of a byte, followed by its post-effect on a register pair.
pub open spec fn ld_effect(m: CpuModel, instr: Decoded) -> Result<Outcome, ExecError> {
    match ld_post(instr.post_op) {
        None => Err(ExecError::OperandMismatch(instr.pos)),
        Some(step) => match ld_main(m, instr) {
            Err(e) => Err(e),
            Ok(o) => Ok(Outcome { next: apply_post(o.next, step), ..o }),
        },
    }
}

/// `ld rr, u16` and `ld SP, HL`.
pub open spec fn ld_word_effect(m: CpuModel, instr: Decoded) -> Result<Outcome, ExecError> {
    match (instr.lhs, instr.rhs) {
        (Some(Operand::Reg16(k)), Some(Operand::U16)) => match imm16_res(m) {
            Err(e) => Err(e),
            Ok(v) => finish(set16(past(m, m.registers, 3), k, v), 3, 12, None),
        },
        (Some(Operand::Reg16(Reg16Kind::SP)), Some(Operand::Reg16(Reg16Kind::HL))) => finish(
            CpuModel { sp: m.registers.hl(), ..past(m, m.registers, 1) },
            1,
            8,
            None,
        ),
        _ => Err(ExecError::OperandMismatch(instr.pos)),
    }
}

fn read_checked(cpu: &Cpu, addr: u16) -> (r: Result<u8, ExecError>)
    requires
        cpu.wf(),
    ensures
        r == read_res(cpu.model(), addr),
{
    if is_mapped(addr) {
        Ok(cpu.bus.read_byte(addr))
    } else {
        Err(ExecError::UnmappedAddress(addr))
    }
}

pub fn is_mapped(addr: u16) -> (r: bool)
    ensures
        r == mapped(addr),
{
    addr <= 0x3FFF || (0x8000 <= addr && addr <= 0xDFFF) || (0xFF00 <= addr && addr <= 0xFFFE)
}

fn imm8(cpu: &Cpu) -> (r: Result<u8, ExecError>)
    requires
        cpu.wf(),
    ensures
        r == imm8_res(cpu.model()),
{
    read_checked(cpu, cpu.pc.peek())
}

fn imm16(cpu: &Cpu) -> (r: Result<u16, ExecError>)
    requires
        cpu.wf(),
    ensures
        r == imm16_res(cpu.model()),
{
    let lo = match read_checked(cpu, cpu.pc.peek()) {
        Ok(v) => v,
        Err(e) => return Err(e),
    };
    let hi = match read_checked(cpu, ((cpu.pc.0 as u32 + 2) % 0x10000) as u16) {
        Ok(v) => v,
        Err(e) => return Err(e),
    };
    Ok(Registers::merge(hi, lo))
}

fn imm_len_exec(op: Operand) -> (r: u16)
    ensures
        r == imm_len(op),
{
    match op {
        Operand::U8 | Operand::U8Indir(_) => 1,
        Operand::U16 | Operand::U16Indir => 2,
        _ => 0,
    }
}

fn is_mem_exec(op: Operand) -> (r: bool)
    ensures
        r == is_mem(op),
{
    match op {
        Operand::Reg16Indir(Reg16Kind::SP) => false,
        Operand::Reg16Indir(_) | Operand::U8Indir(_) | Operand::Reg8Indir(_, _)
        | Operand::U16Indir => true,
        _ => false,
    }
}

fn mem_addr(cpu: &Cpu, op: Operand, pos: u16) -> (r: Result<u16, ExecError>)
    requires
        cpu.wf(),
    ensures
        r == mem_addr_res(cpu.model(), op, pos),
{
    match op {
        Operand::Reg16Indir(Reg16Kind::SP) => Err(ExecError::OperandMismatch(pos)),
        Operand::Reg16Indir(k) => Ok(cpu.registers.get_word(k)),
        Operand::U8Indir(base) => match imm8(cpu) {
            Err(e) => Err(e),
            Ok(n) => Ok(((base as u32 + n as u32) % 0x10000) as u16),
        },
        Operand::Reg8Indir(r, base) => Ok(
            ((base as u32 + cpu.registers.get(r) as u32) % 0x10000) as u16,
        ),
        Operand::U16Indir => imm16(cpu),
        _ => Err(ExecError::OperandMismatch(pos)),
    }
}

fn read_source8(cpu: &Cpu, op: Option<Operand>, pos: u16) -> (r: Result<u8, ExecError>)
    requires
        cpu.wf(),
    ensures
        r == source8(cpu.model(), op, pos),
{
    match op {
        Some(Operand::Reg8(r)) => Ok(cpu.registers.get(r)),
        Some(Operand::U8) => imm8(cpu),
        Some(o) => if is_mem_exec(o) {
            match mem_addr(cpu, o, pos) {
                Err(e) => Err(e),
                Ok(addr) => read_checked(cpu, addr),
            }
        } else {
            Err(ExecError::OperandMismatch(pos))
        },
        None => Err(ExecError::OperandMismatch(pos)),
    }
}

/// `a + v + carry_in` with its flags.
pub fn add_u8(a: u8, v: u8, carry_in: bool) -> (r: (u8, FlagsRegister))
    ensures
        r == add8(a, v, bit_of(carry_in)),
{
    let c: u8 = if carry_in { 1 } else { 0 };
    let sum: u16 = a as u16 + v as u16 + c as u16;
    let res = (sum % 256) as u8;
    (
        res,
        FlagsRegister {
            zero: res == 0,
            subtract: false,
            half_carry: a % 16 + v % 16 + c > 15,
            carry: sum > 255,
        },
    )
}

/// `a - v - borrow_in` with its flags.
pub fn sub_u8(a: u8, v: u8, borrow_in: bool) -> (r: (u8, FlagsRegister))
    ensures
        r == sub8(a, v, bit_of(borrow_in)),
{
    let c: u8 = if borrow_in { 1 } else { 0 };
    let taken: u16 = v as u16 + c as u16;
    let res: u8 = if (a as u16) < taken {
        (a as u16 + 256 - taken) as u8
    } else {
        (a as u16 - taken) as u8
    };
    (
        res,
        FlagsRegister {
            zero: res == 0,
            subtract: true,
            half_carry: a % 16 < v % 16 + c,
            carry: (a as u16) < taken,
        },
    )
}

/// The result and flags of the accumulator operation `kind` on `a` and `v`.
pub fn alu_u8(kind: InstrKind, a: u8, v: u8, carry: bool) -> (r: (u8, FlagsRegister))
    ensures
        r == alu(kind, a, v, carry),
{
    match kind {
        InstrKind::Add => add_u8(a, v, false),
        InstrKind::Adc => add_u8(a, v, carry),
        InstrKind::Sbc => sub_u8(a, v, carry),
        InstrKind::And => (a & v, FlagsRegister { zero: a & v == 0, subtract: false, half_carry: true, carry: false }),
        InstrKind::Or => (a | v, FlagsRegister { zero: a | v == 0, subtract: false, half_carry: false, carry: false }),
        InstrKind::Xor => (a ^ v, FlagsRegister { zero: a ^ v == 0, subtract: false, half_carry: false, carry: false }),
        _ => sub_u8(a, v, false),
    }
}

/// Executes an accumulator operation: add, adc, sub, sbc, and, or, xor, cp.
pub fn alu_op(cpu: &mut Cpu, instr: &Instr) -> (r: Result<ExecRes, ExecError>)
    requires
        old(cpu).wf(),
        is_alu(instr.id),
    ensures
        applied(*old(cpu), *final(cpu), *instr, alu_effect(old(cpu).model(), instr.decoded()), r),
{
    let v = match read_source8(cpu, instr.rhs, instr.pos) {
        Ok(v) => v,
        Err(e) => return Err(e),
    };
    let op = instr.rhs.unwrap();
    let (res, flags) = alu_u8(instr.id, cpu.registers.a, v, cpu.registers.f.carry);
    match instr.id {
        InstrKind::Cp => {},
        _ => cpu.registers.a = res,
    }
    cpu.registers.f = flags;
    let length = 1 + imm_len_exec(op);
    let accesses: u16 = if is_mem_exec(op) { 1 } else { 0 };
    cpu.pc.add(length);
    Ok(ExecRes { ticks: (4 * (length + accesses)) as u8, length, instr: *instr, trace: None })
}

fn reg16_get(cpu: &Cpu, k: Reg16Kind) -> (r: u16)
    ensures
        r == reg16(cpu.model(), k),
{
    match k {
        Reg16Kind::SP => cpu.sp,
        _ => cpu.registers.get_word(k),
    }
}

fn reg16_set(cpu: &mut Cpu, k: Reg16Kind, v: u16)
    requires
        old(cpu).wf(),
    ensures
        final(cpu).model() == set16(old(cpu).model(), k, v),
        final(cpu).wf(),
        final(cpu).clock == old(cpu).clock,
        final(cpu).gpu == old(cpu).gpu,
{
    match k {
        Reg16Kind::SP => cpu.sp = v,
        _ => cpu.registers.set_word(k, v),
    }
}

/// `x + 1` or `x - 1` on 16 bits, wrapping.
fn step16(x: u16, up: bool) -> (r: u16)
    ensures
        r == (if up {
            wrap16(x + 1)
        } else {
            wrap16(x - 1)
        }),
{
    if up {
        ((x as u32 + 1) % 0x10000) as u16
    } else {
        ((x as u32 + 0xFFFF) % 0x10000) as u16
    }
}

/// Executes `add HL, rr`.
pub fn add_hl_op(cpu: &mut Cpu, instr: &Instr) -> (r: Result<ExecRes, ExecError>)
    requires
        old(cpu).wf(),
    ensures
        applied(*old(cpu), *final(cpu), *instr, add_hl_effect(old(cpu).model(), instr.decoded()), r),
{
    match instr.rhs {
        Some(Operand::Reg16(k)) => {
            let hl = cpu.registers.get_hl();
            let v = reg16_get(cpu, k);
            let sum: u32 = hl as u32 + v as u32;
            let flags = FlagsRegister {
                zero: cpu.registers.f.zero,
                subtract: false,
                half_carry: hl % 4096 + v % 4096 > 4095,
                carry: sum > 65535,
            };
            cpu.registers.set_hl((sum % 0x10000) as u16);
            cpu.registers.f = flags;
            cpu.pc.add(1);
            Ok(ExecRes { ticks: 8, length: 1, instr: *instr, trace: None })
        },
        _ => Err(ExecError::OperandMismatch(instr.pos)),
    }
}

/// Increment or decrement of a byte with its flags.
pub fn step_u8(old: u8, up: bool, f: FlagsRegister) -> (r: (u8, FlagsRegister))
    ensures
        r == step8(old, up, f),
{
    let res = if up {
        if old == 255 { 0 } else { old + 1 }
    } else {
        if old == 0 { 255 } else { old - 1 }
    };
    (
        res,
        FlagsRegister {
            zero: res == 0,
            subtract: !up,
            half_carry: if up { old % 16 == 15 } else { old % 16 == 0 },
            carry: f.carry,
        },
    )
}

/// Executes `inc` (when `up`) or `dec`.
pub fn inc_dec_op(cpu: &mut Cpu, instr: &Instr, up: bool) -> (r: Result<ExecRes, ExecError>)
    requires
        old(cpu).wf(),
    ensures
        applied(*old(cpu), *final(cpu), *instr, inc_dec_effect(old(cpu).model(), instr.decoded(), up), r),
{
    match instr.rhs {
        Some(Operand::Reg8(reg)) => {
            let (res, flags) = step_u8(cpu.registers.get(reg), up, cpu.registers.f);
            cpu.registers.set(reg, res);
            cpu.registers.f = flags;
            cpu.pc.add(1);
            Ok(ExecRes { ticks: 4, length: 1, instr: *instr, trace: None })
        },
        Some(Operand::Reg16(k)) => {
            let v = step16(reg16_get(cpu, k), up);
            cpu.pc.add(1);
            reg16_set(cpu, k, v);
            Ok(ExecRes { ticks: 8, length: 1, instr: *instr, trace: None })
        },
        Some(Operand::Reg16Indir(Reg16Kind::SP)) => Err(ExecError::OperandMismatch(instr.pos)),
        Some(Operand::Reg16Indir(k)) => {
            let addr = cpu.registers.get_word(k);
            let old = match read_checked(cpu, addr) {
                Ok(v) => v,
                Err(e) => return Err(e),
            };
            let (res, flags) = step_u8(old, up, cpu.registers.f);
            cpu.bus.write_byte(addr, res);
            cpu.registers.f = flags;
            cpu.pc.add(1);
            Ok(ExecRes { ticks: 12, length: 1, instr: *instr, trace: None })
        },
        _ => Err(ExecError::OperandMismatch(instr.pos)),
    }
}

fn reg_or_pair_mem_exec(op: Option<Operand>) -> (r: bool)
    ensures
        r == reg_or_pair_mem(op),
{
    match op {
        Some(Operand::Reg8(_)) => true,
        Some(Operand::Reg16Indir(Reg16Kind::SP)) => false,
        Some(Operand::Reg16Indir(_)) => true,
        _ => false,
    }
}

/// Executes `bit n, r`.
pub fn bit_op(cpu: &mut Cpu, instr: &Instr) -> (r: Result<ExecRes, ExecError>)
    requires
        old(cpu).wf(),
    ensures
        applied(*old(cpu), *final(cpu), *instr, bit_effect(old(cpu).model(), instr.decoded()), r),
{
    match instr.lhs {
        Some(Operand::BitPos(n)) => {
            if n >= 8 || !reg_or_pair_mem_exec(instr.rhs) {
                return Err(ExecError::OperandMismatch(instr.pos));
            }
            let v = match read_source8(cpu, instr.rhs, instr.pos) {
                Ok(v) => v,
                Err(e) => return Err(e),
            };
            let bit = (v >> n) & 1u8;
            let ticks: u8 = if is_mem_exec(instr.rhs.unwrap()) { 12 } else { 8 };
            cpu.registers.f = FlagsRegister {
                zero: bit == 0,
                subtract: false,
                half_carry: false,
                carry: cpu.registers.f.carry,
            };
            cpu.pc.add(2);
            Ok(ExecRes { ticks, length: 2, instr: *instr, trace: Some((bit as u16, v as u16)) })
        },
        _ => Err(ExecError::OperandMismatch(instr.pos)),
    }
}

/// Rotate left by one, with the bit for bit 0 chosen by `wrap`.
pub fn rotl_u8(old: u8, wrap: bool, carry: bool) -> (r: (u8, bool))
    ensures
        r == rotl(old, wrap, carry),
{
    let out = old >= 128;
    let b0 = if wrap { out } else { carry };
    let shifted: u8 = ((old as u16 * 2) % 256) as u8;
    (if b0 { shifted + 1 } else { shifted }, out)
}

fn rot_variant_exec(post: Option<PostOp>) -> (r: Option<bool>)
    ensures
        r == rot_variant(post),
{
    match post {
        Some(PostOp::B7ToCarryAndB0) => Some(true),
        Some(PostOp::CarryToB0) => Some(false),
        _ => None,
    }
}

/// Executes `rlc r` or `rl r`.
pub fn rot_op(cpu: &mut Cpu, instr: &Instr) -> (r: Result<ExecRes, ExecError>)
    requires
        old(cpu).wf(),
    ensures
        applied(*old(cpu), *final(cpu), *instr, rot_effect(old(cpu).model(), instr.decoded()), r),
{
    match (instr.lhs, instr.rhs, rot_variant_exec(instr.post_op)) {
        (Some(Operand::Reg8(reg)), Some(Operand::RotLeft), Some(wrap)) => {
            let (res, out) = rotl_u8(cpu.registers.get(reg), wrap, cpu.registers.f.carry);
            cpu.registers.set(reg, res);
            cpu.registers.f = FlagsRegister { zero: res == 0, subtract: false, half_carry: false, carry: out };
            cpu.pc.add(2);
            Ok(ExecRes { ticks: 8, length: 2, instr: *instr, trace: None })
        },
        _ => Err(ExecError::OperandMismatch(instr.pos)),
    }
}

/// Executes `rlca` or `rla`.
pub fn rot_a_op(cpu: &mut Cpu, instr: &Instr) -> (r: Result<ExecRes, ExecError>)
    requires
        old(cpu).wf(),
    ensures
        applied(*old(cpu), *final(cpu), *instr, rot_a_effect(old(cpu).model(), instr.decoded()), r),
{
    match (instr.rhs, rot_variant_exec(instr.post_op)) {
        (Some(Operand::RotLeft), Some(wrap)) => {
            let (res, out) = rotl_u8(cpu.registers.a, wrap, cpu.registers.f.carry);
            cpu.registers.a = res;
            cpu.registers.f = FlagsRegister { zero: false, subtract: false, half_carry: false, carry: out };
            cpu.pc.add(1);
            Ok(ExecRes { ticks: 4, length: 1, instr: *instr, trace: None })
        },
        _ => Err(ExecError::OperandMismatch(instr.pos)),
    }
}

/// Whether a condition holds on the flags.
pub fn should_jump(f: &FlagsRegister, c: CondKind) -> (r: bool)
    ensures
        r == cond_holds(*f, c),
{
    match c {
        CondKind::Always => true,
        CondKind::NotZero => !f.zero,
        CondKind::Zero => f.zero,
        CondKind::NotCarry => !f.carry,
        CondKind::Carry => f.carry,
    }
}

/// Executes `jp cc, u16` or `jp HL`.
pub fn jp_op(cpu: &mut Cpu, instr: &Instr) -> (r: Result<ExecRes, ExecError>)
    requires
        old(cpu).wf(),
    ensures
        applied(*old(cpu), *final(cpu), *instr, jp_effect(old(cpu).model(), instr.decoded()), r),
{
    match (instr.lhs, instr.rhs) {
        (Some(Operand::Cond(c)), Some(Operand::U16)) => {
            if should_jump(&cpu.registers.f, c) {
                let target = match imm16(cpu) {
                    Ok(t) => t,
                    Err(e) => return Err(e),
                };
                cpu.pc.set(target);
                Ok(ExecRes { ticks: 16, length: 3, instr: *instr, trace: None })
            } else {
                cpu.pc.add(3);
                Ok(ExecRes { ticks: 12, length: 3, instr: *instr, trace: None })
            }
        },
        (Some(Operand::Cond(CondKind::Always)), Some(Operand::Reg16(Reg16Kind::HL))) => {
            let target = cpu.registers.get_hl();
            cpu.pc.set(target);
            Ok(ExecRes { ticks: 4, length: 1, instr: *instr, trace: None })
        },
        _ => Err(ExecError::OperandMismatch(instr.pos)),
    }
}

/// The address `pc + 2 + offset`, the offset read as two's complement.
pub fn relative_target(pc: u16, offset: u8) -> (r: u16)
    ensures
        r == wrap16(pc + 2 + signed8(offset)),
{
    let back: u32 = if offset >= 128 { 0xFF00 } else { 0 };
    ((pc as u32 + 2 + offset as u32 + back) % 0x10000) as u16
}

/// Executes `jr cc, i8`.
pub fn jr_op(cpu: &mut Cpu, instr: &Instr) -> (r: Result<ExecRes, ExecError>)
    requires
        old(cpu).wf(),
    ensures
        applied(*old(cpu), *final(cpu), *instr, jr_effect(old(cpu).model(), instr.decoded()), r),
{
    match instr.lhs {
        Some(Operand::Cond(c)) => {
            if should_jump(&cpu.registers.f, c) {
                let offset = match imm8(cpu) {
                    Ok(o) => o,
                    Err(e) => return Err(e),
                };
                let target = relative_target(cpu.pc.0, offset);
                cpu.pc.set(target);
                Ok(ExecRes { ticks: 12, length: 2, instr: *instr, trace: None })
            } else {
                cpu.pc.add(2);
                Ok(ExecRes { ticks: 8, length: 2, instr: *instr, trace: None })
            }
        },
        _ => Err(ExecError::OperandMismatch(instr.pos)),
    }
}

/// Pushes a word: high byte to SP-1, low byte to SP-2, SP down by two.
fn push_word(cpu: &mut Cpu, v: u16) -> (r: Result<(), ExecError>)
    requires
        old(cpu).wf(),
    ensures
        match push_res(old(cpu).model(), v) {
            Ok(mem) => r is Ok && final(cpu).model() == (CpuModel {
                sp: wrap16(old(cpu).sp - 2),
                mem,
                ..old(cpu).model()
            }) && final(cpu).wf() && final(cpu).clock == old(cpu).clock && final(cpu).gpu == old(cpu).gpu,
            Err(e) => r == Err::<(), ExecError>(e) && *final(cpu) == *old(cpu),
        },
{
    let s1 = step16(cpu.sp, false);
    let s2 = step16(s1, false);
    if !is_mapped(s1) {
        return Err(ExecError::UnmappedAddress(s1));
    }
    if !is_mapped(s2) {
        return Err(ExecError::UnmappedAddress(s2));
    }
    let (hi, lo) = Registers::split(v);
    cpu.bus.write_byte(s1, hi);
    cpu.bus.write_byte(s2, lo);
    cpu.sp = s2;
    Ok(())
}

/// Pops a word: low byte from SP, high byte from SP+1.
fn pop_word(cpu: &Cpu) -> (r: Result<u16, ExecError>)
    requires
        cpu.wf(),
    ensures
        r == pop_res(cpu.model()),
{
    let lo = match read_checked(cpu, cpu.sp) {
        Ok(v) => v,
        Err(e) => return Err(e),
    };
    let hi = match read_checked(cpu, step16(cpu.sp, true)) {
        Ok(v) => v,
        Err(e) => return Err(e),
    };
    Ok(Registers::merge(hi, lo))
}

/// Executes `call cc, u16`.
pub fn call_op(cpu: &mut Cpu, instr: &Instr) -> (r: Result<ExecRes, ExecError>)
    requires
        old(cpu).wf(),
    ensures
        applied(*old(cpu), *final(cpu), *instr, call_effect(old(cpu).model(), instr.decoded()), r),
{
    let ret = ((cpu.pc.0 as u32 + 3) % 0x10000) as u16;
    match (instr.lhs, instr.rhs) {
        (Some(Operand::Cond(c)), Some(Operand::U16)) => {
            if should_jump(&cpu.registers.f, c) {
                let target = match imm16(cpu) {
                    Ok(t) => t,
                    Err(e) => return Err(e),
                };
                match push_word(cpu, ret) {
                    Ok(()) => {},
                    Err(e) => return Err(e),
                }
                cpu.pc.set(target);
                Ok(ExecRes { ticks: 24, length: 3, instr: *instr, trace: Some((1, target)) })
            } else {
                cpu.pc.set(ret);
                Ok(ExecRes { ticks: 12, length: 3, instr: *instr, trace: Some((0, ret)) })
            }
        },
        _ => Err(ExecError::OperandMismatch(instr.pos)),
    }
}

/// Executes `ret cc`.
pub fn ret_op(cpu: &mut Cpu, instr: &Instr) -> (r: Result<ExecRes, ExecError>)
    requires
        old(cpu).wf(),
    ensures
        applied(*old(cpu), *final(cpu), *instr, ret_effect(old(cpu).model(), instr.decoded()), r),
{
    match instr.lhs {
        Some(Operand::Cond(c)) => {
            if should_jump(&cpu.registers.f, c) {
                let target = match pop_word(cpu) {
                    Ok(t) => t,
                    Err(e) => return Err(e),
                };
                cpu.sp = step16(step16(cpu.sp, true), true);
                cpu.pc.set(target);
                let ticks: u8 = match c {
                    CondKind::Always => 16,
                    _ => 20,
                };
                Ok(ExecRes { ticks, length: 1, instr: *instr, trace: None })
            } else {
                cpu.pc.add(1);
                Ok(ExecRes { ticks: 8, length: 1, instr: *instr, trace: None })
            }
        },
        _ => Err(ExecError::OperandMismatch(instr.pos)),
    }
}

fn stack_pair_exec(op: Option<Operand>) -> (r: Option<Reg16Kind>)
    ensures
        r == stack_pair(op),
{
    match op {
        Some(Operand::Reg16(Reg16Kind::SP)) => None,
        Some(Operand::Reg16(k)) => Some(k),
        _ => None,
    }
}

/// Executes `push rr`.
pub fn push_op(cpu: &mut Cpu, instr: &Instr) -> (r: Result<ExecRes, ExecError>)
    requires
        old(cpu).wf(),
    ensures
        applied(*old(cpu), *final(cpu), *instr, push_effect(old(cpu).model(), instr.decoded()), r),
{
    match stack_pair_exec(instr.rhs) {
        Some(k) => {
            let v = cpu.registers.get_word(k);
            match push_word(cpu, v) {
                Ok(()) => {},
                Err(e) => return Err(e),
            }
            cpu.pc.add(1);
            Ok(ExecRes { ticks: 16, length: 1, instr: *instr, trace: None })
        },
        None => Err(ExecError::OperandMismatch(instr.pos)),
    }
}

/// Executes `pop rr`.
pub fn pop_op(cpu: &mut Cpu, instr: &Instr) -> (r: Result<ExecRes, ExecError>)
    requires
        old(cpu).wf(),
    ensures
        applied(*old(cpu), *final(cpu), *instr, pop_effect(old(cpu).model(), instr.decoded()), r),
{
    match stack_pair_exec(instr.rhs) {
        Some(k) => {
            let v = match pop_word(cpu) {
                Ok(v) => v,
                Err(e) => return Err(e),
            };
            cpu.sp = step16(step16(cpu.sp, true), true);
            cpu.registers.set_word(k, v);
            cpu.pc.add(1);
            Ok(ExecRes { ticks: 12, length: 1, instr: *instr, trace: None })
        },
        None => Err(ExecError::OperandMismatch(instr.pos)),
    }
}

fn ld_post_exec(post: Option<PostOp>) -> (r: Option<Option<(Reg16Kind, bool)>>)
    ensures
        r == ld_post(post),
{
    match post {
        None => Some(None),
        Some(PostOp::Inc(Reg16Kind::SP)) => None,
        Some(PostOp::Dec(Reg16Kind::SP)) => None,
        Some(PostOp::Inc(k)) => Some(Some((k, true))),
        Some(PostOp::Dec(k)) => Some(Some((k, false))),
        _ => None,
    }
}

fn ld_main_op(cpu: &mut Cpu, instr: &Instr) -> (r: Result<ExecRes, ExecError>)
    requires
        old(cpu).wf(),
    ensures
        applied(*old(cpu), *final(cpu), *instr, ld_main(old(cpu).model(), instr.decoded()), r),
{
    match (instr.lhs, instr.rhs) {
        (Some(Operand::Reg8(d)), Some(src)) => {
            let v = match read_source8(cpu, instr.rhs, instr.pos) {
                Ok(v) => v,
                Err(e) => return Err(e),
            };
            let length = 1 + imm_len_exec(src);
            let accesses: u16 = if is_mem_exec(src) { 1 } else { 0 };
            cpu.registers.set(d, v);
            cpu.pc.add(length);
            Ok(ExecRes {
                ticks: (4 * (length + accesses)) as u8,
                length,
                instr: *instr,
                trace: Some((v as u16, v as u16)),
            })
        },
        (Some(dst), Some(Operand::Reg8(s))) => {
            if !is_mem_exec(dst) {
                return Err(ExecError::OperandMismatch(instr.pos));
            }
            let addr = match mem_addr(cpu, dst, instr.pos) {
                Ok(a) => a,
                Err(e) => return Err(e),
            };
            if !is_mapped(addr) {
                return Err(ExecError::UnmappedAddress(addr));
            }
            let v = cpu.registers.get(s);
            let length = 1 + imm_len_exec(dst);
            cpu.bus.write_byte(addr, v);
            cpu.pc.add(length);
            Ok(ExecRes {
                ticks: (4 * (length + 1)) as u8,
                length,
                instr: *instr,
                trace: Some((addr, v as u16)),
            })
        },
        (Some(Operand::Reg16Indir(Reg16Kind::SP)), Some(Operand::U8)) => Err(
            ExecError::OperandMismatch(instr.pos),
        ),
        (Some(Operand::Reg16Indir(k)), Some(Operand::U8)) => {
            let v = match imm8(cpu) {
                Ok(v) => v,
                Err(e) => return Err(e),
            };
            let addr = cpu.registers.get_word(k);
            if !is_mapped(addr) {
                return Err(ExecError::UnmappedAddress(addr));
            }
            cpu.bus.write_byte(addr, v);
            cpu.pc.add(2);
            Ok(ExecRes { ticks: 12, length: 2, instr: *instr, trace: Some((addr, v as u16)) })
        },
        _ => Err(ExecError::OperandMismatch(instr.pos)),
    }
}

/// Executes `ld` of a byte, then its post-effect.
pub fn ld_op(cpu: &mut Cpu, instr: &Instr) -> (r: Result<ExecRes, ExecError>)
    requires
        old(cpu).wf(),
    ensures
        applied(*old(cpu), *final(cpu), *instr, ld_effect(old(cpu).model(), instr.decoded()), r),
{
    let step = match ld_post_exec(instr.post_op) {
        Some(step) => step,
        None => return Err(ExecError::OperandMismatch(instr.pos)),
    };
    let res = ld_main_op(cpu, instr);
    match res {
        Ok(_) => {
            match step {
                Some((k, up)) => {
                    let v = step16(cpu.registers.get_word(k), up);
                    cpu.registers.set_word(k, v);
                },
                None => {},
            }
        },
        Err(_) => {},
    }
    res
}

/// Executes `ld rr, u16` or `ld SP, HL`.
pub fn ld_word_op(cpu: &mut Cpu, instr: &Instr) -> (r: Result<ExecRes, ExecError>)
    requires
        old(cpu).wf(),
    ensures
        applied(*old(cpu), *final(cpu), *instr, ld_word_effect(old(cpu).model(), instr.decoded()), r),
{
    match (instr.lhs, instr.rhs) {
        (Some(Operand::Reg16(k)), Some(Operand::U16)) => {
            let v = match imm16(cpu) {
                Ok(v) => v,
                Err(e) => return Err(e),
            };
            cpu.pc.add(3);
            reg16_set(cpu, k, v);
            Ok(ExecRes { ticks: 12, length: 3, instr: *instr, trace: None })
        },
        (Some(Operand::Reg16(Reg16Kind::SP)), Some(Operand::Reg16(Reg16Kind::HL))) => {
            cpu.sp = cpu.registers.get_hl();
            cpu.pc.add(1);
            Ok(ExecRes { ticks: 8, length: 1, instr: *instr, trace: None })
        },
        _ => Err(ExecError::OperandMismatch(instr.pos)),
    }
}

/// Executes one instruction on a running CPU, without counting its cycles.
pub fn run(cpu: &mut Cpu, instr: &Instr) -> (r: Result<ExecRes, ExecError>)
    requires
        old(cpu).wf(),
    ensures
        applied(*old(cpu), *final(cpu), *instr, effect(old(cpu).model(), instr.decoded()), r),
{
    reveal(effect);
    match instr.id {
        InstrKind::Nop => {
            cpu.pc.add(1);
            Ok(ExecRes { ticks: 4, length: 1, instr: *instr, trace: None })
        },
        InstrKind::Halt => {
            cpu.pc.add(1);
            cpu.state = crate::cpu::State::Halted;
            Ok(ExecRes { ticks: 4, length: 1, instr: *instr, trace: None })
        },
        InstrKind::Add | InstrKind::Adc | InstrKind::Sub | InstrKind::Sbc | InstrKind::And
        | InstrKind::Or | InstrKind::Xor | InstrKind::Cp => alu_op(cpu, instr),
        InstrKind::AddHl => add_hl_op(cpu, instr),
        InstrKind::Inc => inc_dec_op(cpu, instr, true),
        InstrKind::Dec => inc_dec_op(cpu, instr, false),
        InstrKind::Bit => bit_op(cpu, instr),
        InstrKind::Rot => rot_op(cpu, instr),
        InstrKind::RotA => rot_a_op(cpu, instr),
        InstrKind::Jp => jp_op(cpu, instr),
        InstrKind::Jr => jr_op(cpu, instr),
        InstrKind::Call => call_op(cpu, instr),
        InstrKind::Ret => ret_op(cpu, instr),
        InstrKind::Push => push_op(cpu, instr),
        InstrKind::Pop => pop_op(cpu, instr),
        InstrKind::Ld => ld_op(cpu, instr),
        InstrKind::LdWord => ld_word_op(cpu, instr),
        InstrKind::Unimpl => Err(ExecError::UnknownOpcode(instr.pos)),
    }
}


/// `inc` and `dec` never touch the carry flag, whatever their operand and
/// whatever the arithmetic gives.
pub proof fn lemma_inc_dec_keep_carry(m: CpuModel, instr: Decoded)
    requires
        instr.id == InstrKind::Inc || instr.id == InstrKind::Dec,
    ensures
        match effect(m, instr) {
            Ok(o) => o.next.registers.f.carry == m.registers.f.carry,
            Err(_) => true,
        },
{
    reveal(effect);
}

/// A `push` of one register pair followed at once by a `pop` into another
/// gives the second pair the first one's value and leaves SP where it was;
/// the push stores the high byte at SP-1 and then the low byte at SP-2.
proof fn lemma_push_outcome(m: CpuModel, push: Decoded, from: Reg16Kind)
    requires
        push.id == InstrKind::Push,
        push.rhs == Some(Operand::Reg16(from)),
        from != Reg16Kind::SP,
        mapped(wrap16(m.sp - 1)),
        mapped(wrap16(m.sp - 2)),
    ensures
        effect(m, push) == finish(
            CpuModel {
                sp: wrap16(m.sp - 2),
                mem: stored(
                    stored(m.mem, wrap16(m.sp - 1), high_byte(m.registers.pair(from))),
                    wrap16(m.sp - 2),
                    low_byte(m.registers.pair(from)),
                ),
                ..past(m, m.registers, 1)
            },
            1,
            16,
            None,
        ),
{
    reveal(effect);
    assert(stack_pair(push.rhs) == Some(from));
}

proof fn lemma_pop_outcome(m: CpuModel, pop: Decoded, to: Reg16Kind)
    requires
        pop.id == InstrKind::Pop,
        pop.rhs == Some(Operand::Reg16(to)),
        to != Reg16Kind::SP,
        mapped(m.sp),
        mapped(wrap16(m.sp + 1)),
    ensures
        effect(m, pop) == finish(
            CpuModel {
                sp: wrap16(m.sp + 2),
                ..past(
                    m,
                    m.registers.with_pair(to, word(m.mem[wrap16(m.sp + 1) as int], m.mem[m.sp as int])),
                    1,
                )
            },
            1,
            12,
            None,
        ),
{
    reveal(effect);
    assert(stack_pair(pop.rhs) == Some(to));
}

/// A `push` of one register pair followed at once by a `pop` into another
/// gives the second pair the first one's value and leaves SP where it was;
/// the push stores the high byte at SP-1 and then the low byte at SP-2.
pub proof fn lemma_push_then_pop(m: CpuModel, push: Decoded, pop: Decoded, from: Reg16Kind, to: Reg16Kind)
    requires
        m.mem.len() == 0x10000,
        push.id == InstrKind::Push,
        push.rhs == Some(Operand::Reg16(from)),
        pop.id == InstrKind::Pop,
        pop.rhs == Some(Operand::Reg16(to)),
        from != Reg16Kind::SP,
        to != Reg16Kind::SP,
        crate::memory_bus::writable(wrap16(m.sp - 1)),
        crate::memory_bus::writable(wrap16(m.sp - 2)),
    ensures
        effect(m, push) is Ok,
        ({
            let pushed = effect(m, push)->Ok_0.next;
            &&& pushed.sp == wrap16(m.sp - 2)
            &&& pushed.mem[wrap16(m.sp - 1) as int] == high_byte(m.registers.pair(from))
            &&& pushed.mem[wrap16(m.sp - 2) as int] == low_byte(m.registers.pair(from))
            &&& effect(pushed, pop) is Ok
            &&& effect(pushed, pop)->Ok_0.next.registers.pair(to) == m.registers.pair(from)
            &&& effect(pushed, pop)->Ok_0.next.sp == m.sp
        }),
{
    let v = m.registers.pair(from);
    let s1 = wrap16(m.sp - 1);
    let s2 = wrap16(m.sp - 2);
    lemma_push_outcome(m, push, from);
    let mem1 = stored(stored(m.mem, s1, high_byte(v)), s2, low_byte(v));
    let pushed = CpuModel { sp: s2, mem: mem1, ..past(m, m.registers, 1) };
    assert(effect(m, push)->Ok_0.next == pushed);
    assert(s1 != s2);
    assert(mem1[s1 as int] == high_byte(v));
    assert(mem1[s2 as int] == low_byte(v));
    assert(wrap16(s2 + 1) == s1);
    assert(wrap16(s2 + 2) == m.sp);
    lemma_pop_outcome(pushed, pop, to);
    assert(word(high_byte(v), low_byte(v)) == v);
}

/// `jr` with a false condition moves the program counter past its two bytes
/// and nothing else; with a true one, to the address past the instruction
/// plus the signed offset byte.
pub proof fn lemma_jr_target(m: CpuModel, instr: Decoded, c: CondKind)
    requires
        instr.id == InstrKind::Jr,
        instr.lhs == Some(Operand::Cond(c)),
        mapped(wrap16(m.pc + 1)),
    ensures
        effect(m, instr) is Ok,
        !cond_holds(m.registers.f, c) ==> effect(m, instr)->Ok_0.next == (CpuModel {
            pc: wrap16(m.pc + 2),
            ..m
        }),
        cond_holds(m.registers.f, c) ==> effect(m, instr)->Ok_0.next == (CpuModel {
            pc: wrap16(m.pc + 2 + signed8(m.mem[wrap16(m.pc + 1) as int])),
            ..m
        }),
        effect(m, instr)->Ok_0.length == 2,
{
    reveal(effect);
}

} // verus!
