use gb_core::cpu::registers::Registers;
use gb_core::cpu::{FLAG_C, FLAG_Z};

#[test]
fn pairs_round_trip() {
    let mut r = Registers::new();
    r.set_af(0x1234);
    assert_eq!(r.a, 0x12);
    assert_eq!(r.f, 0x30); // low nibble masked off
    assert_eq!(r.af(), 0x1230);

    r.set_bc(0xBEEF);
    assert_eq!(r.bc(), 0xBEEF);
    r.set_de(0xCAFE);
    assert_eq!(r.de(), 0xCAFE);
    r.set_hl(0xABCD);
    assert_eq!(r.hl(), 0xABCD);
}

#[test]
fn flags_set_and_read() {
    let mut r = Registers::new();
    r.set_flag(FLAG_Z, true);
    r.set_flag(FLAG_C, true);
    assert!(r.zero());
    assert!(r.carry());
    assert!(!r.subtract());
    assert!(!r.half_carry());
    r.set_flag(FLAG_Z, false);
    assert!(!r.zero());
}
