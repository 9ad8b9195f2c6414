use gameboy_core::registers::{FlagsRegister, Reg16Kind, Reg8Kind, Registers};

const VAL: u16 = 0x12ab;

#[test]
fn it_sets_and_gets_bc() {
    let mut registers = Registers::new();
    registers.set_bc(VAL);
    assert_eq!(registers.get_bc(), VAL);
}

#[test]
fn it_sets_and_gets_de() {
    let mut registers = Registers::new();
    registers.set_de(VAL);
    assert_eq!(registers.get_de(), VAL);
}

#[test]
fn it_sets_and_gets_hl() {
    let mut registers = Registers::new();
    registers.set_hl(VAL);
    assert_eq!(registers.get_hl(), VAL);
}

#[test]
fn pair_is_high_then_low_register() {
    let mut registers = Registers::new();
    registers.set_bc(0x1234);
    assert_eq!(registers.b, 0x12);
    assert_eq!(registers.c, 0x34);
    assert_eq!(registers.get_word(Reg16Kind::BC), 0x1234);
    registers.set_word(Reg16Kind::DE, 0xBEEF);
    assert_eq!(registers.d, 0xBE);
    assert_eq!(registers.e, 0xEF);
}

#[test]
fn get_and_set_eight_bit_registers() {
    let mut registers = Registers::new();
    registers.set(Reg8Kind::L, 0x42);
    assert_eq!(registers.get(Reg8Kind::L), 0x42);
    assert_eq!(registers.l, 0x42);
    assert_eq!(registers.get(Reg8Kind::H), 0);
}

#[test]
fn register_add_reports_overflow() {
    let mut registers = Registers::new();
    registers.a = 0xFF;
    assert_eq!(registers.add(Reg8Kind::A, 1), (0, true));
    assert_eq!(registers.add(Reg8Kind::A, 0), (0xFF, false));
}

#[test]
fn split_and_merge_words() {
    assert_eq!(Registers::split(0xA1B2), (0xA1, 0xB2));
    assert_eq!(Registers::merge(0xA1, 0xB2), 0xA1B2);
}

#[test]
fn flags_round_trip_through_byte_for_every_combination() {
    for bits in 0..16u8 {
        let flags = FlagsRegister {
            zero: bits & 8 != 0,
            subtract: bits & 4 != 0,
            half_carry: bits & 2 != 0,
            carry: bits & 1 != 0,
        };
        let byte = flags.to_byte();
        assert_eq!(byte & 0x0F, 0);
        assert_eq!(FlagsRegister::from_byte(byte), flags);
    }
}

#[test]
fn flags_pack_into_top_nibble() {
    let flags = FlagsRegister { zero: true, subtract: false, half_carry: true, carry: false };
    assert_eq!(flags.to_byte(), 0b1010_0000);
    let read = FlagsRegister::from_byte(0b0101_1111);
    assert_eq!(read, FlagsRegister { zero: false, subtract: true, half_carry: false, carry: true });
}

#[test]
fn flags_convert_with_from() {
    let flags = FlagsRegister { zero: false, subtract: true, half_carry: false, carry: true };
    let byte = u8::from(flags);
    assert_eq!(byte, 0b0101_0000);
    assert_eq!(FlagsRegister::from(byte), flags);
    assert_eq!(FlagsRegister::from(0xFFu8), FlagsRegister { zero: true, subtract: true, half_carry: true, carry: true });
}
