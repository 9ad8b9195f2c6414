use vstd::prelude::*;

verus! {

/// The four condition flags, each one bit of the packed flags byte.
#[derive(Debug, Clone, Copy, PartialEq, Eq, Structural)]
pub struct FlagsRegister {
    pub zero: bool,
    pub subtract: bool,
    pub half_carry: bool,
    pub carry: bool,
}

pub const ZERO_FLAG_BYTE_POSITION: u8 = 7;
pub const SUBTRACT_FLAG_BYTE_POSITION: u8 = 6;
pub const HALF_CARRY_FLAG_BYTE_POSITION: u8 = 5;
pub const CARRY_FLAG_BYTE_POSITION: u8 = 4;

pub open spec fn bit_of(b: bool) -> int {
    if b { 1 } else { 0 }
}

/// The packed form: zero in bit 7, subtract in bit 6, half-carry in bit 5,
/// carry in bit 4, bits 0 to 3 clear.
pub open spec fn flags_byte(f: FlagsRegister) -> u8 {
    (128 * bit_of(f.zero) + 64 * bit_of(f.subtract) + 32 * bit_of(f.half_carry) + 16 * bit_of(
        f.carry,
    )) as u8
}

/// Reads the four flags out of their bit positions; the low nibble is ignored.
pub open spec fn flags_of_byte(b: u8) -> FlagsRegister {
    FlagsRegister {
        zero: (b / 128) % 2 == 1,
        subtract: (b / 64) % 2 == 1,
        half_carry: (b / 32) % 2 == 1,
        carry: (b / 16) % 2 == 1,
    }
}

impl FlagsRegister {
    pub fn new() -> (r: Self)
        ensures
            r == (FlagsRegister { zero: false, subtract: false, half_carry: false, carry: false }),
    {
        Self { zero: false, subtract: false, half_carry: false, carry: false }
    }

    pub fn to_byte(&self) -> (r: u8)
        ensures
            r == flags_byte(*self),
    {
        let z: u8 = if self.zero { 1 } else { 0 };
        let n: u8 = if self.subtract { 1 } else { 0 };
        let h: u8 = if self.half_carry { 1 } else { 0 };
        let c: u8 = if self.carry { 1 } else { 0 };
        z * 128 + n * 64 + h * 32 + c * 16
    }

    pub fn from_byte(byte: u8) -> (r: Self)
        ensures
            r == flags_of_byte(byte),
    {
        FlagsRegister {
            zero: (byte / 128) % 2 == 1,
            subtract: (byte / 64) % 2 == 1,
            half_carry: (byte / 32) % 2 == 1,
            carry: (byte / 16) % 2 == 1,
        }
    }
}

impl From<FlagsRegister> for u8 {
    fn from(flag: FlagsRegister) -> (r: u8) {
        flag.to_byte()
    }
}

impl vstd::std_specs::convert::FromSpecImpl<FlagsRegister> for u8 {
    open spec fn obeys_from_spec() -> bool {
        true
    }

    open spec fn from_spec(flag: FlagsRegister) -> u8 {
        flags_byte(flag)
    }
}

impl From<u8> for FlagsRegister {
    fn from(byte: u8) -> (r: FlagsRegister) {
        FlagsRegister::from_byte(byte)
    }
}

impl vstd::std_specs::convert::FromSpecImpl<u8> for FlagsRegister {
    open spec fn obeys_from_spec() -> bool {
        true
    }

    open spec fn from_spec(byte: u8) -> FlagsRegister {
        flags_of_byte(byte)
    }
}

/// Packing the flags into a byte and reading them back gives the same flags,
/// and the packed byte always has its low nibble clear.
pub proof fn lemma_flags_round_trip(f: FlagsRegister)
    ensures
        flags_of_byte(flags_byte(f)) == f,
        flags_byte(f) % 16 == 0,
{
}

/// The seven 8-bit registers that instructions name.
#[derive(Debug, Clone, Copy, PartialEq, Eq, Structural)]
pub enum Reg8Kind {
    A,
    B,
    C,
    D,
    E,
    H,
    L,
}

/// The 16-bit registers: three pairs of 8-bit registers and the stack pointer.
#[derive(Debug, Clone, Copy, PartialEq, Eq, Structural)]
pub enum Reg16Kind {
    BC,
    DE,
    HL,
    SP,
}

/// The register file: seven 8-bit registers and the flags.
#[derive(Debug, Clone, Copy, PartialEq, Eq, Structural)]
pub struct Registers {
    pub a: u8,
    pub b: u8,
    pub c: u8,
    pub d: u8,
    pub e: u8,
    pub f: FlagsRegister,
    pub h: u8,
    pub l: u8,
}

/// `(high << 8) | low`.
pub open spec fn word(high: u8, low: u8) -> u16 {
    (high * 256 + low) as u16
}

pub open spec fn high_byte(w: u16) -> u8 {
    (w / 256) as u8
}

pub open spec fn low_byte(w: u16) -> u8 {
    (w % 256) as u8
}

impl Registers {
    pub open spec fn value(self, reg: Reg8Kind) -> u8 {
        match reg {
            Reg8Kind::A => self.a,
            Reg8Kind::B => self.b,
            Reg8Kind::C => self.c,
            Reg8Kind::D => self.d,
            Reg8Kind::E => self.e,
            Reg8Kind::H => self.h,
            Reg8Kind::L => self.l,
        }
    }

    pub open spec fn with_value(self, reg: Reg8Kind, val: u8) -> Registers {
        match reg {
            Reg8Kind::A => Registers { a: val, ..self },
            Reg8Kind::B => Registers { b: val, ..self },
            Reg8Kind::C => Registers { c: val, ..self },
            Reg8Kind::D => Registers { d: val, ..self },
            Reg8Kind::E => Registers { e: val, ..self },
            Reg8Kind::H => Registers { h: val, ..self },
            Reg8Kind::L => Registers { l: val, ..self },
        }
    }

    pub open spec fn bc(self) -> u16 {
        word(self.b, self.c)
    }

    pub open spec fn de(self) -> u16 {
        word(self.d, self.e)
    }

    pub open spec fn hl(self) -> u16 {
        word(self.h, self.l)
    }

    /// The value of a register pair; the stack pointer is not held here.
    pub open spec fn pair(self, reg: Reg16Kind) -> u16
        recommends
            reg != Reg16Kind::SP,
    {
        match reg {
            Reg16Kind::BC => self.bc(),
            Reg16Kind::DE => self.de(),
            _ => self.hl(),
        }
    }

    pub open spec fn with_pair(self, reg: Reg16Kind, val: u16) -> Registers
        recommends
            reg != Reg16Kind::SP,
    {
        match reg {
            Reg16Kind::BC => Registers { b: high_byte(val), c: low_byte(val), ..self },
            Reg16Kind::DE => Registers { d: high_byte(val), e: low_byte(val), ..self },
            _ => Registers { h: high_byte(val), l: low_byte(val), ..self },
        }
    }

    /// Every register zero and every flag clear.
    pub open spec fn spec_zeroed() -> Registers {
        Registers {
            a: 0,
            b: 0,
            c: 0,
            d: 0,
            e: 0,
            f: FlagsRegister { zero: false, subtract: false, half_carry: false, carry: false },
            h: 0,
            l: 0,
        }
    }

    pub fn new() -> (r: Self)
        ensures
            r == Registers::spec_zeroed(),
    {
        Self { a: 0, b: 0, c: 0, d: 0, e: 0, f: FlagsRegister::new(), h: 0, l: 0 }
    }

    pub fn get(&self, reg: Reg8Kind) -> (r: u8)
        ensures
            r == self.value(reg),
    {
        match reg {
            Reg8Kind::A => self.a,
            Reg8Kind::B => self.b,
            Reg8Kind::C => self.c,
            Reg8Kind::D => self.d,
            Reg8Kind::E => self.e,
            Reg8Kind::H => self.h,
            Reg8Kind::L => self.l,
        }
    }

    pub fn set(&mut self, reg: Reg8Kind, val: u8)
        ensures
            *final(self) == old(self).with_value(reg, val),
    {
        match reg {
            Reg8Kind::A => self.a = val,
            Reg8Kind::B => self.b = val,
            Reg8Kind::C => self.c = val,
            Reg8Kind::D => self.d = val,
            Reg8Kind::E => self.e = val,
            Reg8Kind::H => self.h = val,
            Reg8Kind::L => self.l = val,
        }
    }

    /// Adds `val` to a register without storing the sum: the wrapped sum and
    /// whether it overflowed.
    pub fn add(&self, reg: Reg8Kind, val: u8) -> (r: (u8, bool))
        ensures
            r.0 == (self.value(reg) + val) % 256,
            r.1 == (self.value(reg) + val > 255),
    {
        let reg_val = self.get(reg);
        let sum: u16 = reg_val as u16 + val as u16;
        ((sum % 256) as u8, sum > 255)
    }

    pub fn get_word(&self, reg: Reg16Kind) -> (r: u16)
        requires
            reg != Reg16Kind::SP,
        ensures
            r == self.pair(reg),
    {
        match reg {
            Reg16Kind::BC => self.get_bc(),
            Reg16Kind::DE => self.get_de(),
            _ => self.get_hl(),
        }
    }

    pub fn set_word(&mut self, reg: Reg16Kind, val: u16)
        requires
            reg != Reg16Kind::SP,
        ensures
            *final(self) == old(self).with_pair(reg, val),
            final(self).pair(reg) == val,
    {
        match reg {
            Reg16Kind::BC => self.set_bc(val),
            Reg16Kind::DE => self.set_de(val),
            _ => self.set_hl(val),
        }
    }

    pub fn get_bc(&self) -> (r: u16)
        ensures
            r == self.bc(),
    {
        Self::merge(self.b, self.c)
    }

    pub fn set_bc(&mut self, value: u16)
        ensures
            *final(self) == (Registers { b: high_byte(value), c: low_byte(value), ..*old(self) }),
            final(self).bc() == value,
    {
        let (h, l) = Self::split(value);
        self.b = h;
        self.c = l;
    }

    pub fn get_de(&self) -> (r: u16)
        ensures
            r == self.de(),
    {
        Self::merge(self.d, self.e)
    }

    pub fn set_de(&mut self, value: u16)
        ensures
            *final(self) == (Registers { d: high_byte(value), e: low_byte(value), ..*old(self) }),
            final(self).de() == value,
    {
        let (h, l) = Self::split(value);
        self.d = h;
        self.e = l;
    }

    pub fn get_hl(&self) -> (r: u16)
        ensures
            r == self.hl(),
    {
        Self::merge(self.h, self.l)
    }

    pub fn set_hl(&mut self, value: u16)
        ensures
            *final(self) == (Registers { h: high_byte(value), l: low_byte(value), ..*old(self) }),
            final(self).hl() == value,
    {
        let (h, l) = Self::split(value);
        self.h = h;
        self.l = l;
    }

    /// The high and the low byte of a word.
    pub fn split(value: u16) -> (r: (u8, u8))
        ensures
            r.0 == high_byte(value),
            r.1 == low_byte(value),
            word(r.0, r.1) == value,
    {
        ((value / 256) as u8, (value % 256) as u8)
    }

    /// The word whose high byte is `h` and low byte is `l`.
    pub fn merge(h: u8, l: u8) -> (r: u16)
        ensures
            r == word(h, l),
            high_byte(r) == h,
            low_byte(r) == l,
    {
        h as u16 * 256 + l as u16
    }
}

} // verus!
