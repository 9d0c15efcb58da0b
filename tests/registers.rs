use z80core::registers::{Flag, Reg16, Reg8, Registers};

#[test]
fn new_registers_are_cleared() {
    let r = Registers::new();
    for sel in [Reg8::A, Reg8::B, Reg8::C, Reg8::D, Reg8::E, Reg8::H, Reg8::L] {
        assert_eq!(r.get8(sel), 0);
    }
    assert_eq!(r.f, 0);
}

#[test]
fn set8_touches_one_register() {
    let mut r = Registers::new();
    r.set8(Reg8::D, 0x5A);
    assert_eq!(r.get8(Reg8::D), 0x5A);
    assert_eq!(r.get8(Reg8::E), 0);
    assert_eq!(r.get8(Reg8::A), 0);
    assert_eq!(r.f, 0);
}

#[test]
fn pair_high_byte_is_first_register() {
    let mut r = Registers::new();
    r.set16(Reg16::BC, 0x1234);
    assert_eq!(r.get8(Reg8::B), 0x12);
    assert_eq!(r.get8(Reg8::C), 0x34);
    assert_eq!(r.get16(Reg16::BC), 0x1234);
    r.set8(Reg8::H, 0xAB);
    r.set8(Reg8::L, 0xCD);
    assert_eq!(r.get16(Reg16::HL), 0xABCD);
    r.set16(Reg16::DE, 0xFFFF);
    assert_eq!(r.get16(Reg16::DE), 0xFFFF);
    assert_eq!(r.get16(Reg16::BC), 0x1234);
}

#[test]
fn flag_bits_are_independent() {
    let mut r = Registers::new();
    r.set_flag(Flag::S);
    assert_eq!(r.f, 0x80);
    r.set_flag(Flag::C);
    assert_eq!(r.f, 0x81);
    assert!(r.get_flag(Flag::S));
    assert!(r.get_flag(Flag::C));
    assert!(!r.get_flag(Flag::Z));
    r.clear_flag(Flag::S);
    assert_eq!(r.f, 0x01);
    r.put_flag(Flag::H, true);
    assert_eq!(r.f, 0x11);
    r.put_flag(Flag::H, false);
    assert_eq!(r.f, 0x01);
    r.put_flag(Flag::N, true);
    r.put_flag(Flag::P, true);
    r.put_flag(Flag::Z, true);
    assert_eq!(r.f, 0x47);
}

#[test]
fn sz53_update_copies_result_bits() {
    let mut r = Registers::new();
    r.f = 0xFF;
    r.update_sz53_flags(0x00);
    // S, 5, 3 cleared; Z set; H, P, N, C kept.
    assert_eq!(r.f, 0x57);
    r.update_sz53_flags(0xA8);
    assert_eq!(r.f, 0xBF);
    assert!(r.get_flag(Flag::S));
    assert!(!r.get_flag(Flag::Z));
    assert!(r.get_flag(Flag::F5));
    assert!(r.get_flag(Flag::F3));
    r.f = 0x00;
    r.update_sz53_flags(0x7F);
    assert_eq!(r.f, 0x28);
}

#[test]
fn register_texts() {
    assert_eq!(Reg8::A.text(), "A");
    assert_eq!(Reg8::L.text(), "L");
    assert_eq!(Reg16::DE.text(), "DE");
    assert_eq!(Reg16::HL.text(), "HL");
}
