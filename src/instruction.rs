use vstd::prelude::*;
use crate::registers::{Reg16Kind, Reg8Kind};

verus! {

/// What an instruction reads or writes.
#[derive(Debug, Clone, Copy, PartialEq, Eq, Structural)]
pub enum Operand {
    /// An 8-bit register.
    Reg8(Reg8Kind),
    /// A register pair or the stack pointer.
    Reg16(Reg16Kind),
    /// The byte after the opcode.
    U8,
    /// Memory at the given base plus the byte after the opcode.
    U8Indir(u16),
    /// The little-endian word after the opcode.
    U16,
    /// Memory at the little-endian word after the opcode.
    U16Indir,
    /// Memory at the given base plus an 8-bit register.
    Reg8Indir(Reg8Kind, u16),
    /// Memory at the address held in a register pair.
    Reg16Indir(Reg16Kind),
    /// A condition on the flags.
    Cond(CondKind),
    RotLeft,
    RotRight,
    /// A bit position, 0 to 7.
    BitPos(u8),
}

#[derive(Debug, Clone, Copy, PartialEq, Eq, Structural)]
pub enum CondKind {
    NotZero,
    NotCarry,
    Zero,
    Carry,
    Always,
}

/// A side effect that follows the main operation of an instruction.
#[derive(Debug, Clone, Copy, PartialEq, Eq, Structural)]
pub enum PostOp {
    /// Decrement a register pair after the memory access.
    Dec(Reg16Kind),
    /// Increment a register pair after the memory access.
    Inc(Reg16Kind),
    CarryToB7,
    /// Rotate and wrap: the bit shifted out goes to carry and to bit 0.
    B7ToCarryAndB0,
    /// Rotate through carry: the previous carry enters bit 0.
    CarryToB0,
    B0ToCarryAndB7,
}

#[derive(Debug, Clone, Copy, PartialEq, Eq, Structural)]
pub enum InstrKind {
    Unimpl,
    Nop,
    Halt,
    Add,
    Adc,
    AddHl,
    Sub,
    Sbc,
    And,
    Or,
    Xor,
    Cp,
    Pop,
    Push,
    Jp,
    Call,
    Ret,
    Ld,
    LdWord,
    Jr,
    Inc,
    Dec,
    Rot,
    RotA,
    Bit,
}

/// A decoded instruction: where it came from, its mnemonic, its kind, its
/// operands, its post-effect and, once executed, a trace of two values.
#[derive(Debug, Clone, Copy)]
pub struct Instr {
    pub tag: &'static str,
    pub pos: u16,
    pub id: InstrKind,
    pub lhs: Option<Operand>,
    pub rhs: Option<Operand>,
    pub post_op: Option<PostOp>,
    pub trace: Option<(u16, u16)>,
}

impl Instr {
    pub fn new(pos: u16, tag: &'static str) -> (r: Self)
        ensures
            r.pos == pos,
            r.tag == tag,
            r.id == InstrKind::Unimpl,
            r.lhs.is_none(),
            r.rhs.is_none(),
            r.post_op.is_none(),
            r.trace.is_none(),
    {
        Self { pos, tag, id: InstrKind::Unimpl, lhs: None, rhs: None, post_op: None, trace: None }
    }

    pub fn id(self, kind: InstrKind) -> (r: Self)
        ensures
            r == (Instr { id: kind, ..self }),
    {
        Instr { id: kind, ..self }
    }

    pub fn lhs(self, operand: Operand) -> (r: Self)
        ensures
            r == (Instr { lhs: Some(operand), ..self }),
    {
        Instr { lhs: Some(operand), ..self }
    }

    pub fn rhs(self, operand: Operand) -> (r: Self)
        ensures
            r == (Instr { rhs: Some(operand), ..self }),
    {
        Instr { rhs: Some(operand), ..self }
    }

    pub fn post_op(self, op: PostOp) -> (r: Self)
        ensures
            r == (Instr { post_op: Some(op), ..self }),
    {
        Instr { post_op: Some(op), ..self }
    }

    pub fn trace(&mut self, data: (u16, u16))
        ensures
            *final(self) == (Instr { trace: Some(data), ..*old(self) }),
    {
        self.trace = Some(data);
    }
}

/// What execution reads of a descriptor: position, kind, operands and
/// post-effect.
pub struct Decoded {
    pub pos: u16,
    pub id: InstrKind,
    pub lhs: Option<Operand>,
    pub rhs: Option<Operand>,
    pub post_op: Option<PostOp>,
}

impl Instr {
    pub open spec fn decoded(self) -> Decoded {
        Decoded { pos: self.pos, id: self.id, lhs: self.lhs, rhs: self.rhs, post_op: self.post_op }
    }
}

pub open spec fn decoded_of(pos: u16, shape: Shape) -> Decoded {
    Decoded { pos, id: shape.0, lhs: shape.1, rhs: shape.2, post_op: shape.3 }
}

/// The shape of a decoded instruction: kind, operands and post-effect.
pub type Shape = (InstrKind, Option<Operand>, Option<Operand>, Option<PostOp>);

pub open spec fn reg8_of(code: int) -> Reg8Kind {
    if code == 0 {
        Reg8Kind::B
    } else if code == 1 {
        Reg8Kind::C
    } else if code == 2 {
        Reg8Kind::D
    } else if code == 3 {
        Reg8Kind::E
    } else if code == 4 {
        Reg8Kind::H
    } else if code == 5 {
        Reg8Kind::L
    } else {
        Reg8Kind::A
    }
}

/// The operand that a 3-bit register field names: B, C, D, E, H, L, (HL), A.
pub open spec fn reg_field(code: int) -> Operand {
    if code == 6 {
        Operand::Reg16Indir(Reg16Kind::HL)
    } else {
        Operand::Reg8(reg8_of(code))
    }
}

/// The 16-bit register that a 2-bit field names: BC, DE, HL, SP.
pub open spec fn pair_field(code: int) -> Reg16Kind {
    if code == 0 {
        Reg16Kind::BC
    } else if code == 1 {
        Reg16Kind::DE
    } else if code == 2 {
        Reg16Kind::HL
    } else {
        Reg16Kind::SP
    }
}

/// The condition that a 2-bit field names: NZ, Z, NC, C.
pub open spec fn cond_field(code: int) -> CondKind {
    if code == 0 {
        CondKind::NotZero
    } else if code == 1 {
        CondKind::Zero
    } else if code == 2 {
        CondKind::NotCarry
    } else {
        CondKind::Carry
    }
}

/// The accumulator operation that a 3-bit field names:
/// ADD, ADC, SUB, SBC, AND, XOR, OR, CP.
pub open spec fn alu_field(code: int) -> InstrKind {
    if code == 0 {
        InstrKind::Add
    } else if code == 1 {
        InstrKind::Adc
    } else if code == 2 {
        InstrKind::Sub
    } else if code == 3 {
        InstrKind::Sbc
    } else if code == 4 {
        InstrKind::And
    } else if code == 5 {
        InstrKind::Xor
    } else if code == 6 {
        InstrKind::Or
    } else {
        InstrKind::Cp
    }
}

pub open spec fn unknown_shape() -> Shape {
    (InstrKind::Unimpl, None, None, None)
}

pub open spec fn a_reg() -> Option<Operand> {
    Some(Operand::Reg8(Reg8Kind::A))
}

pub open spec fn high_page() -> u16 {
    0xFF00
}

/// The shape of each opcode of the base table, by its bit fields.
pub open spec fn base_shape(b: u8) -> Shape {
    let x = b as int / 64;
    let y = (b as int / 8) % 8;
    let z = b as int % 8;
    let p = y / 2;
    if b == 0x76 {
        (InstrKind::Halt, None, None, None)
    } else if x == 1 {
        (InstrKind::Ld, Some(reg_field(y)), Some(reg_field(z)), None)
    } else if x == 2 {
        (alu_field(y), None, Some(reg_field(z)), None)
    } else if x == 0 {
        if b == 0x00 {
            (InstrKind::Nop, None, None, None)
        } else if b == 0x07 {
            (InstrKind::RotA, a_reg(), Some(Operand::RotLeft), Some(PostOp::B7ToCarryAndB0))
        } else if b == 0x17 {
            (InstrKind::RotA, a_reg(), Some(Operand::RotLeft), Some(PostOp::CarryToB0))
        } else if b == 0x18 {
            (InstrKind::Jr, Some(Operand::Cond(CondKind::Always)), None, None)
        } else if z == 0 && y >= 4 {
            (InstrKind::Jr, Some(Operand::Cond(cond_field(y - 4))), None, None)
        } else if z == 1 && y % 2 == 0 {
            (InstrKind::LdWord, Some(Operand::Reg16(pair_field(p))), Some(Operand::U16), None)
        } else if z == 1 {
            (InstrKind::AddHl, None, Some(Operand::Reg16(pair_field(p))), None)
        } else if z == 2 {
            let mem = if p == 0 {
                Operand::Reg16Indir(Reg16Kind::BC)
            } else if p == 1 {
                Operand::Reg16Indir(Reg16Kind::DE)
            } else {
                Operand::Reg16Indir(Reg16Kind::HL)
            };
            let post = if p == 2 {
                Some(PostOp::Inc(Reg16Kind::HL))
            } else if p == 3 {
                Some(PostOp::Dec(Reg16Kind::HL))
            } else {
                None
            };
            if y % 2 == 0 {
                (InstrKind::Ld, Some(mem), a_reg(), post)
            } else {
                (InstrKind::Ld, a_reg(), Some(mem), post)
            }
        } else if z == 3 && y % 2 == 0 {
            (InstrKind::Inc, None, Some(Operand::Reg16(pair_field(p))), None)
        } else if z == 3 {
            (InstrKind::Dec, None, Some(Operand::Reg16(pair_field(p))), None)
        } else if z == 4 {
            (InstrKind::Inc, None, Some(reg_field(y)), None)
        } else if z == 5 {
            (InstrKind::Dec, None, Some(reg_field(y)), None)
        } else if z == 6 {
            (InstrKind::Ld, Some(reg_field(y)), Some(Operand::U8), None)
        } else {
            unknown_shape()
        }
    } else {
        if z == 6 {
            (alu_field(y), None, Some(Operand::U8), None)
        } else if b == 0xC9 {
            (InstrKind::Ret, Some(Operand::Cond(CondKind::Always)), None, None)
        } else if z == 0 && y < 4 {
            (InstrKind::Ret, Some(Operand::Cond(cond_field(y))), None, None)
        } else if b == 0xC3 {
            (InstrKind::Jp, Some(Operand::Cond(CondKind::Always)), Some(Operand::U16), None)
        } else if z == 2 && y < 4 {
            (InstrKind::Jp, Some(Operand::Cond(cond_field(y))), Some(Operand::U16), None)
        } else if b == 0xCD {
            (InstrKind::Call, Some(Operand::Cond(CondKind::Always)), Some(Operand::U16), None)
        } else if z == 4 && y < 4 {
            (InstrKind::Call, Some(Operand::Cond(cond_field(y))), Some(Operand::U16), None)
        } else if z == 1 && y % 2 == 0 && p < 3 {
            (InstrKind::Pop, None, Some(Operand::Reg16(pair_field(p))), None)
        } else if z == 5 && y % 2 == 0 && p < 3 {
            (InstrKind::Push, None, Some(Operand::Reg16(pair_field(p))), None)
        } else if b == 0xE9 {
            (InstrKind::Jp, Some(Operand::Cond(CondKind::Always)), Some(Operand::Reg16(Reg16Kind::HL)), None)
        } else if b == 0xF9 {
            (InstrKind::LdWord, Some(Operand::Reg16(Reg16Kind::SP)), Some(Operand::Reg16(Reg16Kind::HL)), None)
        } else if b == 0xE0 {
            (InstrKind::Ld, Some(Operand::U8Indir(high_page())), a_reg(), None)
        } else if b == 0xF0 {
            (InstrKind::Ld, a_reg(), Some(Operand::U8Indir(high_page())), None)
        } else if b == 0xE2 {
            (InstrKind::Ld, Some(Operand::Reg8Indir(Reg8Kind::C, high_page())), a_reg(), None)
        } else if b == 0xF2 {
            (InstrKind::Ld, a_reg(), Some(Operand::Reg8Indir(Reg8Kind::C, high_page())), None)
        } else if b == 0xEA {
            (InstrKind::Ld, Some(Operand::U16Indir), a_reg(), None)
        } else if b == 0xFA {
            (InstrKind::Ld, a_reg(), Some(Operand::U16Indir), None)
        } else {
            unknown_shape()
        }
    }
}

/// The shape of each opcode of the table behind the 0xCB prefix: rotates
/// left of a register and bit tests.
pub open spec fn extended_shape(b: u8) -> Shape {
    let y = (b as int / 8) % 8;
    let z = b as int % 8;
    if b < 0x08 && z != 6 {
        (InstrKind::Rot, Some(reg_field(z)), Some(Operand::RotLeft), Some(PostOp::B7ToCarryAndB0))
    } else if 0x10 <= b < 0x18 && z != 6 {
        (InstrKind::Rot, Some(reg_field(z)), Some(Operand::RotLeft), Some(PostOp::CarryToB0))
    } else if 0x40 <= b < 0x80 {
        (InstrKind::Bit, Some(Operand::BitPos(y as u8)), Some(reg_field(z)), None)
    } else {
        unknown_shape()
    }
}

fn reg_field_exec(code: u8) -> (r: Operand)
    ensures
        r == reg_field(code as int),
{
    match code {
        0 => Operand::Reg8(Reg8Kind::B),
        1 => Operand::Reg8(Reg8Kind::C),
        2 => Operand::Reg8(Reg8Kind::D),
        3 => Operand::Reg8(Reg8Kind::E),
        4 => Operand::Reg8(Reg8Kind::H),
        5 => Operand::Reg8(Reg8Kind::L),
        6 => Operand::Reg16Indir(Reg16Kind::HL),
        _ => Operand::Reg8(Reg8Kind::A),
    }
}

fn pair_field_exec(code: u8) -> (r: Reg16Kind)
    ensures
        r == pair_field(code as int),
{
    match code {
        0 => Reg16Kind::BC,
        1 => Reg16Kind::DE,
        2 => Reg16Kind::HL,
        _ => Reg16Kind::SP,
    }
}

fn cond_field_exec(code: u8) -> (r: CondKind)
    ensures
        r == cond_field(code as int),
{
    match code {
        0 => CondKind::NotZero,
        1 => CondKind::Zero,
        2 => CondKind::NotCarry,
        _ => CondKind::Carry,
    }
}

fn alu_field_exec(code: u8) -> (r: InstrKind)
    ensures
        r == alu_field(code as int),
{
    match code {
        0 => InstrKind::Add,
        1 => InstrKind::Adc,
        2 => InstrKind::Sub,
        3 => InstrKind::Sbc,
        4 => InstrKind::And,
        5 => InstrKind::Xor,
        6 => InstrKind::Or,
        _ => InstrKind::Cp,
    }
}

fn base_row_zero(b: u8) -> (r: Shape)
    requires
        b < 0x40,
        b != 0x76,
    ensures
        r == base_shape(b),
{
    let y = (b / 8) % 8;
    let z = b % 8;
    let p = y / 2;
    let a = Some(Operand::Reg8(Reg8Kind::A));
    if b == 0x00 {
        (InstrKind::Nop, None, None, None)
    } else if b == 0x07 {
        (InstrKind::RotA, a, Some(Operand::RotLeft), Some(PostOp::B7ToCarryAndB0))
    } else if b == 0x17 {
        (InstrKind::RotA, a, Some(Operand::RotLeft), Some(PostOp::CarryToB0))
    } else if b == 0x18 {
        (InstrKind::Jr, Some(Operand::Cond(CondKind::Always)), None, None)
    } else if z == 0 && y >= 4 {
        (InstrKind::Jr, Some(Operand::Cond(cond_field_exec(y - 4))), None, None)
    } else if z == 1 && y % 2 == 0 {
        (InstrKind::LdWord, Some(Operand::Reg16(pair_field_exec(p))), Some(Operand::U16), None)
    } else if z == 1 {
        (InstrKind::AddHl, None, Some(Operand::Reg16(pair_field_exec(p))), None)
    } else if z == 2 {
        let mem = if p == 0 {
            Operand::Reg16Indir(Reg16Kind::BC)
        } else if p == 1 {
            Operand::Reg16Indir(Reg16Kind::DE)
        } else {
            Operand::Reg16Indir(Reg16Kind::HL)
        };
        let post = if p == 2 {
            Some(PostOp::Inc(Reg16Kind::HL))
        } else if p == 3 {
            Some(PostOp::Dec(Reg16Kind::HL))
        } else {
            None
        };
        if y % 2 == 0 {
            (InstrKind::Ld, Some(mem), a, post)
        } else {
            (InstrKind::Ld, a, Some(mem), post)
        }
    } else if z == 3 && y % 2 == 0 {
        (InstrKind::Inc, None, Some(Operand::Reg16(pair_field_exec(p))), None)
    } else if z == 3 {
        (InstrKind::Dec, None, Some(Operand::Reg16(pair_field_exec(p))), None)
    } else if z == 4 {
        (InstrKind::Inc, None, Some(reg_field_exec(y)), None)
    } else if z == 5 {
        (InstrKind::Dec, None, Some(reg_field_exec(y)), None)
    } else if z == 6 {
        (InstrKind::Ld, Some(reg_field_exec(y)), Some(Operand::U8), None)
    } else {
        (InstrKind::Unimpl, None, None, None)
    }
}

fn base_row_three(b: u8) -> (r: Shape)
    requires
        b >= 0xC0,
    ensures
        r == base_shape(b),
{
    let y = (b / 8) % 8;
    let z = b % 8;
    let p = y / 2;
    let a = Some(Operand::Reg8(Reg8Kind::A));
    let always = Some(Operand::Cond(CondKind::Always));
    if z == 6 {
        (alu_field_exec(y), None, Some(Operand::U8), None)
    } else if b == 0xC9 {
        (InstrKind::Ret, always, None, None)
    } else if z == 0 && y < 4 {
        (InstrKind::Ret, Some(Operand::Cond(cond_field_exec(y))), None, None)
    } else if b == 0xC3 {
        (InstrKind::Jp, always, Some(Operand::U16), None)
    } else if z == 2 && y < 4 {
        (InstrKind::Jp, Some(Operand::Cond(cond_field_exec(y))), Some(Operand::U16), None)
    } else if b == 0xCD {
        (InstrKind::Call, always, Some(Operand::U16), None)
    } else if z == 4 && y < 4 {
        (InstrKind::Call, Some(Operand::Cond(cond_field_exec(y))), Some(Operand::U16), None)
    } else if z == 1 && y % 2 == 0 && p < 3 {
        (InstrKind::Pop, None, Some(Operand::Reg16(pair_field_exec(p))), None)
    } else if z == 5 && y % 2 == 0 && p < 3 {
        (InstrKind::Push, None, Some(Operand::Reg16(pair_field_exec(p))), None)
    } else if b == 0xE9 {
        (InstrKind::Jp, always, Some(Operand::Reg16(Reg16Kind::HL)), None)
    } else if b == 0xF9 {
        (InstrKind::LdWord, Some(Operand::Reg16(Reg16Kind::SP)), Some(Operand::Reg16(Reg16Kind::HL)), None)
    } else if b == 0xE0 {
        (InstrKind::Ld, Some(Operand::U8Indir(0xFF00)), a, None)
    } else if b == 0xF0 {
        (InstrKind::Ld, a, Some(Operand::U8Indir(0xFF00)), None)
    } else if b == 0xE2 {
        (InstrKind::Ld, Some(Operand::Reg8Indir(Reg8Kind::C, 0xFF00)), a, None)
    } else if b == 0xF2 {
        (InstrKind::Ld, a, Some(Operand::Reg8Indir(Reg8Kind::C, 0xFF00)), None)
    } else if b == 0xEA {
        (InstrKind::Ld, Some(Operand::U16Indir), a, None)
    } else if b == 0xFA {
        (InstrKind::Ld, a, Some(Operand::U16Indir), None)
    } else {
        (InstrKind::Unimpl, None, None, None)
    }
}

/// The instruction descriptor of an opcode of the base table, its position
/// being the opcode itself.
pub fn decode(byte: u8) -> (r: Instr)
    ensures
        r.decoded() == decoded_of(byte as u16, base_shape(byte)),
        r.trace.is_none(),
{
    let (id, lhs, rhs, post_op) = if byte == 0x76 {
        (InstrKind::Halt, None, None, None)
    } else if byte < 0x40 {
        base_row_zero(byte)
    } else if byte < 0x80 {
        (InstrKind::Ld, Some(reg_field_exec((byte / 8) % 8)), Some(reg_field_exec(byte % 8)), None)
    } else if byte < 0xC0 {
        (alu_field_exec((byte / 8) % 8), None, Some(reg_field_exec(byte % 8)), None)
    } else {
        base_row_three(byte)
    };
    Instr { tag: base_tag(byte), pos: byte as u16, id, lhs, rhs, post_op, trace: None }
}

/// The instruction descriptor of an opcode behind the 0xCB prefix, its
/// position being `0xCB00` plus the opcode.
pub fn decode_extended(byte: u8) -> (r: Instr)
    ensures
        r.decoded() == decoded_of((0xCB00 + byte) as u16, extended_shape(byte)),
        r.trace.is_none(),
{
    let z = byte % 8;
    let (id, lhs, rhs, post_op) = if byte < 0x08 && z != 6 {
        (InstrKind::Rot, Some(reg_field_exec(z)), Some(Operand::RotLeft), Some(PostOp::B7ToCarryAndB0))
    } else if 0x10 <= byte && byte < 0x18 && z != 6 {
        (InstrKind::Rot, Some(reg_field_exec(z)), Some(Operand::RotLeft), Some(PostOp::CarryToB0))
    } else if 0x40 <= byte && byte < 0x80 {
        (InstrKind::Bit, Some(Operand::BitPos((byte / 8) % 8)), Some(reg_field_exec(z)), None)
    } else {
        (InstrKind::Unimpl, None, None, None)
    };
    Instr { tag: extended_tag(byte), pos: 0xCB00 + byte as u16, id, lhs, rhs, post_op, trace: None }
}

/// The mnemonic of each opcode of the base table.
pub fn base_tag(byte: u8) -> &'static str {
    match byte {
        0x00 => "NOP",
        0x01 => "LD BC, u16",
        0x02 => "LD (BC), A",
        0x03 => "INC BC",
        0x04 => "INC B",
        0x05 => "DEC B",
        0x06 => "LD B, u8",
        0x07 => "RLCA",
        0x08 => "LD (u16), SP",
        0x09 => "ADD HL, BC",
        0x0A => "LD A, (BC)",
        0x0B => "DEC BC",
        0x0C => "INC C",
        0x0D => "DEC C",
        0x0E => "LD C, u8",
        0x0F => "RRCA",
        0x10 => "STOP 0",
        0x11 => "LD DE, u16",
        0x12 => "LD (DE), A",
        0x13 => "INC DE",
        0x14 => "INC D",
        0x15 => "DEC D",
        0x16 => "LD D, u8",
        0x17 => "RLA",
        0x18 => "JR i8",
        0x19 => "ADD HL, DE",
        0x1A => "LD A, (DE)",
        0x1B => "DEC DE",
        0x1C => "INC E",
        0x1D => "DEC E",
        0x1E => "LD E, u8",
        0x1F => "RRA",
        0x20 => "JR NZ, i8",
        0x21 => "LD HL, u16",
        0x22 => "LD (HL+), A",
        0x23 => "INC HL",
        0x24 => "INC H",
        0x25 => "DEC H",
        0x26 => "LD H, u8",
        0x27 => "DAA",
        0x28 => "JR Z, i8",
        0x29 => "ADD HL, HL",
        0x2A => "LD A, (HL+)",
        0x2B => "DEC HL",
        0x2C => "INC L",
        0x2D => "DEC L",
        0x2E => "LD L, u8",
        0x2F => "CPL",
        0x30 => "JR NC, i8",
        0x31 => "LD SP, u16",
        0x32 => "LD (HL-), A",
        0x33 => "INC SP",
        0x34 => "INC (HL)",
        0x35 => "DEC (HL)",
        0x36 => "LD (HL), u8",
        0x37 => "SCF",
        0x38 => "JR C, i8",
        0x39 => "ADD HL, SP",
        0x3A => "LD A, (HL-)",
        0x3B => "DEC SP",
        0x3C => "INC A",
        0x3D => "DEC A",
        0x3E => "LD A, u8",
        0x3F => "CCF",
        0x40 => "LD B, B",
        0x41 => "LD B, C",
        0x42 => "LD B, D",
        0x43 => "LD B, E",
        0x44 => "LD B, H",
        0x45 => "LD B, L",
        0x46 => "LD B, (HL)",
        0x47 => "LD B, A",
        0x48 => "LD C, B",
        0x49 => "LD C, C",
        0x4A => "LD C, D",
        0x4B => "LD C, E",
        0x4C => "LD C, H",
        0x4D => "LD C, L",
        0x4E => "LD C, (HL)",
        0x4F => "LD C, A",
        0x50 => "LD D, B",
        0x51 => "LD D, C",
        0x52 => "LD D, D",
        0x53 => "LD D, E",
        0x54 => "LD D, H",
        0x55 => "LD D, L",
        0x56 => "LD D, (HL)",
        0x57 => "LD D, A",
        0x58 => "LD E, B",
        0x59 => "LD E, C",
        0x5A => "LD E, D",
        0x5B => "LD E, E",
        0x5C => "LD E, H",
        0x5D => "LD E, L",
        0x5E => "LD E, (HL)",
        0x5F => "LD E, A",
        0x60 => "LD H, B",
        0x61 => "LD H, C",
        0x62 => "LD H, D",
        0x63 => "LD H, E",
        0x64 => "LD H, H",
        0x65 => "LD H, L",
        0x66 => "LD H, (HL)",
        0x67 => "LD H, A",
        0x68 => "LD L, B",
        0x69 => "LD L, C",
        0x6A => "LD L, D",
        0x6B => "LD L, E",
        0x6C => "LD L, H",
        0x6D => "LD L, L",
        0x6E => "LD L, (HL)",
        0x6F => "LD L, A",
        0x70 => "LD (HL), B",
        0x71 => "LD (HL), C",
        0x72 => "LD (HL), D",
        0x73 => "LD (HL), E",
        0x74 => "LD (HL), H",
        0x75 => "LD (HL), L",
        0x76 => "HALT",
        0x77 => "LD (HL), A",
        0x78 => "LD A, B",
        0x79 => "LD A, C",
        0x7A => "LD A, D",
        0x7B => "LD A, E",
        0x7C => "LD A, H",
        0x7D => "LD A, L",
        0x7E => "LD A, (HL)",
        0x7F => "LD A, A",
        0x80 => "ADD A, B",
        0x81 => "ADD A, C",
        0x82 => "ADD A, D",
        0x83 => "ADD A, E",
        0x84 => "ADD A, H",
        0x85 => "ADD A, L",
        0x86 => "ADD A, (HL)",
        0x87 => "ADD A, A",
        0x88 => "ADC A, B",
        0x89 => "ADC A, C",
        0x8A => "ADC A, D",
        0x8B => "ADC A, E",
        0x8C => "ADC A, H",
        0x8D => "ADC A, L",
        0x8E => "ADC A, (HL)",
        0x8F => "ADC A, A",
        0x90 => "SUB A, B",
        0x91 => "SUB A, C",
        0x92 => "SUB A, D",
        0x93 => "SUB A, E",
        0x94 => "SUB A, H",
        0x95 => "SUB A, L",
        0x96 => "SUB A, (HL)",
        0x97 => "SUB A, A",
        0x98 => "SBC A, B",
        0x99 => "SBC A, C",
        0x9A => "SBC A, D",
        0x9B => "SBC A, E",
        0x9C => "SBC A, H",
        0x9D => "SBC A, L",
        0x9E => "SBC A, (HL)",
        0x9F => "SBC A, A",
        0xA0 => "AND A, B",
        0xA1 => "AND A, C",
        0xA2 => "AND A, D",
        0xA3 => "AND A, E",
        0xA4 => "AND A, H",
        0xA5 => "AND A, L",
        0xA6 => "AND A, (HL)",
        0xA7 => "AND A, A",
        0xA8 => "XOR A, B",
        0xA9 => "XOR A, C",
        0xAA => "XOR A, D",
        0xAB => "XOR A, E",
        0xAC => "XOR A, H",
        0xAD => "XOR A, L",
        0xAE => "XOR A, (HL)",
        0xAF => "XOR A, A",
        0xB0 => "OR A, B",
        0xB1 => "OR A, C",
        0xB2 => "OR A, D",
        0xB3 => "OR A, E",
        0xB4 => "OR A, H",
        0xB5 => "OR A, L",
        0xB6 => "OR A, (HL)",
        0xB7 => "OR A, A",
        0xB8 => "CP A, B",
        0xB9 => "CP A, C",
        0xBA => "CP A, D",
        0xBB => "CP A, E",
        0xBC => "CP A, H",
        0xBD => "CP A, L",
        0xBE => "CP A, (HL)",
        0xBF => "CP A, A",
        0xC0 => "RET NZ",
        0xC1 => "POP BC",
        0xC2 => "JP NZ, u16",
        0xC3 => "JP u16",
        0xC4 => "CALL NZ, u16",
        0xC5 => "PUSH BC",
        0xC6 => "ADD A, u8",
        0xC7 => "RST 00h",
        0xC8 => "RET Z",
        0xC9 => "RET",
        0xCA => "JP Z, u16",
        0xCB => "PREFIX CB",
        0xCC => "CALL Z, u16",
        0xCD => "CALL u16",
        0xCE => "ADC A, u8",
        0xCF => "RST 08h",
        0xD0 => "RET NC",
        0xD1 => "POP DE",
        0xD2 => "JP NC, u16",
        0xD3 => "UNKNOWN",
        0xD4 => "CALL NC, u16",
        0xD5 => "PUSH DE",
        0xD6 => "SUB A, u8",
        0xD7 => "RST 10h",
        0xD8 => "RET C",
        0xD9 => "RETI",
        0xDA => "JP C, u16",
        0xDB => "UNKNOWN",
        0xDC => "CALL C, u16",
        0xDD => "UNKNOWN",
        0xDE => "SBC A, u8",
        0xDF => "RST 18h",
        0xE0 => "LD (FF00+u8), A",
        0xE1 => "POP HL",
        0xE2 => "LD (FF00+C), A",
        0xE3 => "UNKNOWN",
        0xE4 => "UNKNOWN",
        0xE5 => "PUSH HL",
        0xE6 => "AND A, u8",
        0xE7 => "RST 20h",
        0xE8 => "ADD SP, i8",
        0xE9 => "JP HL",
        0xEA => "LD (u16), A",
        0xEB => "UNKNOWN",
        0xEC => "UNKNOWN",
        0xED => "UNKNOWN",
        0xEE => "XOR A, u8",
        0xEF => "RST 28h",
        0xF0 => "LD A, (FF00+u8)",
        0xF1 => "POP AF",
        0xF2 => "LD A, (FF00+C)",
        0xF3 => "DI",
        0xF4 => "UNKNOWN",
        0xF5 => "PUSH AF",
        0xF6 => "OR A, u8",
        0xF7 => "RST 30h",
        0xF8 => "LD HL, SP+i8",
        0xF9 => "LD SP, HL",
        0xFA => "LD A, (u16)",
        0xFB => "EI",
        0xFC => "UNKNOWN",
        0xFD => "UNKNOWN",
        0xFE => "CP A, u8",
        0xFF => "RST 38h",
    }
}

pub fn extended_tag(byte: u8) -> &'static str {
    match byte {
        0x00 => "RLC B",
        0x01 => "RLC C",
        0x02 => "RLC D",
        0x03 => "RLC E",
        0x04 => "RLC H",
        0x05 => "RLC L",
        0x06 => "RLC (HL)",
        0x07 => "RLC A",
        0x08 => "RRC B",
        0x09 => "RRC C",
        0x0A => "RRC D",
        0x0B => "RRC E",
        0x0C => "RRC H",
        0x0D => "RRC L",
        0x0E => "RRC (HL)",
        0x0F => "RRC A",
        0x10 => "RL B",
        0x11 => "RL C",
        0x12 => "RL D",
        0x13 => "RL E",
        0x14 => "RL H",
        0x15 => "RL L",
        0x16 => "RL (HL)",
        0x17 => "RL A",
        0x18 => "RR B",
        0x19 => "RR C",
        0x1A => "RR D",
        0x1B => "RR E",
        0x1C => "RR H",
        0x1D => "RR L",
        0x1E => "RR (HL)",
        0x1F => "RR A",
        0x20 => "SLA B",
        0x21 => "SLA C",
        0x22 => "SLA D",
        0x23 => "SLA E",
        0x24 => "SLA H",
        0x25 => "SLA L",
        0x26 => "SLA (HL)",
        0x27 => "SLA A",
        0x28 => "SRA B",
        0x29 => "SRA C",
        0x2A => "SRA D",
        0x2B => "SRA E",
        0x2C => "SRA H",
        0x2D => "SRA L",
        0x2E => "SRA (HL)",
        0x2F => "SRA A",
        0x30 => "SWAP B",
        0x31 => "SWAP C",
        0x32 => "SWAP D",
        0x33 => "SWAP E",
        0x34 => "SWAP H",
        0x35 => "SWAP L",
        0x36 => "SWAP (HL)",
        0x37 => "SWAP A",
        0x38 => "SRL B",
        0x39 => "SRL C",
        0x3A => "SRL D",
        0x3B => "SRL E",
        0x3C => "SRL H",
        0x3D => "SRL L",
        0x3E => "SRL (HL)",
        0x3F => "SRL A",
        0x40 => "BIT 0, B",
        0x41 => "BIT 0, C",
        0x42 => "BIT 0, D",
        0x43 => "BIT 0, E",
        0x44 => "BIT 0, H",
        0x45 => "BIT 0, L",
        0x46 => "BIT 0, (HL)",
        0x47 => "BIT 0, A",
        0x48 => "BIT 1, B",
        0x49 => "BIT 1, C",
        0x4A => "BIT 1, D",
        0x4B => "BIT 1, E",
        0x4C => "BIT 1, H",
        0x4D => "BIT 1, L",
        0x4E => "BIT 1, (HL)",
        0x4F => "BIT 1, A",
        0x50 => "BIT 2, B",
        0x51 => "BIT 2, C",
        0x52 => "BIT 2, D",
        0x53 => "BIT 2, E",
        0x54 => "BIT 2, H",
        0x55 => "BIT 2, L",
        0x56 => "BIT 2, (HL)",
        0x57 => "BIT 2, A",
        0x58 => "BIT 3, B",
        0x59 => "BIT 3, C",
        0x5A => "BIT 3, D",
        0x5B => "BIT 3, E",
        0x5C => "BIT 3, H",
        0x5D => "BIT 3, L",
        0x5E => "BIT 3, (HL)",
        0x5F => "BIT 3, A",
        0x60 => "BIT 4, B",
        0x61 => "BIT 4, C",
        0x62 => "BIT 4, D",
        0x63 => "BIT 4, E",
        0x64 => "BIT 4, H",
        0x65 => "BIT 4, L",
        0x66 => "BIT 4, (HL)",
        0x67 => "BIT 4, A",
        0x68 => "BIT 5, B",
        0x69 => "BIT 5, C",
        0x6A => "BIT 5, D",
        0x6B => "BIT 5, E",
        0x6C => "BIT 5, H",
        0x6D => "BIT 5, L",
        0x6E => "BIT 5, (HL)",
        0x6F => "BIT 5, A",
        0x70 => "BIT 6, B",
        0x71 => "BIT 6, C",
        0x72 => "BIT 6, D",
        0x73 => "BIT 6, E",
        0x74 => "BIT 6, H",
        0x75 => "BIT 6, L",
        0x76 => "BIT 6, (HL)",
        0x77 => "BIT 6, A",
        0x78 => "BIT 7, B",
        0x79 => "BIT 7, C",
        0x7A => "BIT 7, D",
        0x7B => "BIT 7, E",
        0x7C => "BIT 7, H",
        0x7D => "BIT 7, L",
        0x7E => "BIT 7, (HL)",
        0x7F => "BIT 7, A",
        0x80 => "RES 0, B",
        0x81 => "RES 0, C",
        0x82 => "RES 0, D",
        0x83 => "RES 0, E",
        0x84 => "RES 0, H",
        0x85 => "RES 0, L",
        0x86 => "RES 0, (HL)",
        0x87 => "RES 0, A",
        0x88 => "RES 1, B",
        0x89 => "RES 1, C",
        0x8A => "RES 1, D",
        0x8B => "RES 1, E",
        0x8C => "RES 1, H",
        0x8D => "RES 1, L",
        0x8E => "RES 1, (HL)",
        0x8F => "RES 1, A",
        0x90 => "RES 2, B",
        0x91 => "RES 2, C",
        0x92 => "RES 2, D",
        0x93 => "RES 2, E",
        0x94 => "RES 2, H",
        0x95 => "RES 2, L",
        0x96 => "RES 2, (HL)",
        0x97 => "RES 2, A",
        0x98 => "RES 3, B",
        0x99 => "RES 3, C",
        0x9A => "RES 3, D",
        0x9B => "RES 3, E",
        0x9C => "RES 3, H",
        0x9D => "RES 3, L",
        0x9E => "RES 3, (HL)",
        0x9F => "RES 3, A",
        0xA0 => "RES 4, B",
        0xA1 => "RES 4, C",
        0xA2 => "RES 4, D",
        0xA3 => "RES 4, E",
        0xA4 => "RES 4, H",
        0xA5 => "RES 4, L",
        0xA6 => "RES 4, (HL)",
        0xA7 => "RES 4, A",
        0xA8 => "RES 5, B",
        0xA9 => "RES 5, C",
        0xAA => "RES 5, D",
        0xAB => "RES 5, E",
        0xAC => "RES 5, H",
        0xAD => "RES 5, L",
        0xAE => "RES 5, (HL)",
        0xAF => "RES 5, A",
        0xB0 => "RES 6, B",
        0xB1 => "RES 6, C",
        0xB2 => "RES 6, D",
        0xB3 => "RES 6, E",
        0xB4 => "RES 6, H",
        0xB5 => "RES 6, L",
        0xB6 => "RES 6, (HL)",
        0xB7 => "RES 6, A",
        0xB8 => "RES 7, B",
        0xB9 => "RES 7, C",
        0xBA => "RES 7, D",
        0xBB => "RES 7, E",
        0xBC => "RES 7, H",
        0xBD => "RES 7, L",
        0xBE => "RES 7, (HL)",
        0xBF => "RES 7, A",
        0xC0 => "SET 0, B",
        0xC1 => "SET 0, C",
        0xC2 => "SET 0, D",
        0xC3 => "SET 0, E",
        0xC4 => "SET 0, H",
        0xC5 => "SET 0, L",
        0xC6 => "SET 0, (HL)",
        0xC7 => "SET 0, A",
        0xC8 => "SET 1, B",
        0xC9 => "SET 1, C",
        0xCA => "SET 1, D",
        0xCB => "SET 1, E",
        0xCC => "SET 1, H",
        0xCD => "SET 1, L",
        0xCE => "SET 1, (HL)",
        0xCF => "SET 1, A",
        0xD0 => "SET 2, B",
        0xD1 => "SET 2, C",
        0xD2 => "SET 2, D",
        0xD3 => "SET 2, E",
        0xD4 => "SET 2, H",
        0xD5 => "SET 2, L",
        0xD6 => "SET 2, (HL)",
        0xD7 => "SET 2, A",
        0xD8 => "SET 3, B",
        0xD9 => "SET 3, C",
        0xDA => "SET 3, D",
        0xDB => "SET 3, E",
        0xDC => "SET 3, H",
        0xDD => "SET 3, L",
        0xDE => "SET 3, (HL)",
        0xDF => "SET 3, A",
        0xE0 => "SET 4, B",
        0xE1 => "SET 4, C",
        0xE2 => "SET 4, D",
        0xE3 => "SET 4, E",
        0xE4 => "SET 4, H",
        0xE5 => "SET 4, L",
        0xE6 => "SET 4, (HL)",
        0xE7 => "SET 4, A",
        0xE8 => "SET 5, B",
        0xE9 => "SET 5, C",
        0xEA => "SET 5, D",
        0xEB => "SET 5, E",
        0xEC => "SET 5, H",
        0xED => "SET 5, L",
        0xEE => "SET 5, (HL)",
        0xEF => "SET 5, A",
        0xF0 => "SET 6, B",
        0xF1 => "SET 6, C",
        0xF2 => "SET 6, D",
        0xF3 => "SET 6, E",
        0xF4 => "SET 6, H",
        0xF5 => "SET 6, L",
        0xF6 => "SET 6, (HL)",
        0xF7 => "SET 6, A",
        0xF8 => "SET 7, B",
        0xF9 => "SET 7, C",
        0xFA => "SET 7, D",
        0xFB => "SET 7, E",
        0xFC => "SET 7, H",
        0xFD => "SET 7, L",
        0xFE => "SET 7, (HL)",
        0xFF => "SET 7, A",
    }
}

} // verus!
