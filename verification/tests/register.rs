use gbemu_rust::register::Registres;

#[test]
fn test_readwrite_af() {
    let mut reg = Registres::default();
    reg.write_af(0xFF00);
    assert_eq!(0xFF00, reg.af());
}

#[test]
fn test_readwrite_bc() {
    let mut reg = Registres::default();
    reg.write_bc(0xAFFA);
    assert_eq!(0xAFFA, reg.bc());
}

#[test]
fn test_readwrite_zf() {
    let mut reg = Registres::default();
    reg.set_zf(true);
    assert!(reg.zf());
}

#[test]
fn registers_start_at_zero() {
    let reg = Registres::default();
    assert_eq!(0, reg.pc);
    assert_eq!(0, reg.sp);
    assert_eq!(0, reg.af());
    assert_eq!(0, reg.bc());
    assert_eq!(0, reg.de());
    assert_eq!(0, reg.hl());
}

#[test]
fn pairs_are_high_byte_then_low_byte() {
    let mut reg = Registres::default();
    reg.a = 0x12;
    reg.f = 0x30;
    reg.b = 0x34;
    reg.c = 0x56;
    reg.d = 0x78;
    reg.e = 0x9A;
    reg.h = 0xBC;
    reg.l = 0xDE;
    assert_eq!(0x1230, reg.af());
    assert_eq!(0x3456, reg.bc());
    assert_eq!(0x789A, reg.de());
    assert_eq!(0xBCDE, reg.hl());
}

#[test]
fn writing_a_pair_splits_it() {
    let mut reg = Registres::default();
    reg.write_de(0x1234);
    assert_eq!((0x12, 0x34), (reg.d, reg.e));
    assert_eq!(0x1234, reg.de());
    reg.write_hl(0xFFEE);
    assert_eq!((0xFF, 0xEE), (reg.h, reg.l));
    assert_eq!(0xFFEE, reg.hl());
    reg.write_bc(0x00FF);
    assert_eq!((0x00, 0xFF), (reg.b, reg.c));
}

#[test]
fn writing_af_drops_the_low_nibble() {
    let mut reg = Registres::default();
    reg.write_af(0x12FF);
    assert_eq!(0x12, reg.a);
    assert_eq!(0xF0, reg.f);
    assert_eq!(0x12F0, reg.af());
    reg.write_af(0xAB0F);
    assert_eq!(0xAB00, reg.af());
}

#[test]
fn each_flag_has_its_bit() {
    let mut reg = Registres::default();
    reg.set_zf(true);
    assert_eq!(0x80, reg.f);
    reg.set_nf(true);
    assert_eq!(0xC0, reg.f);
    reg.set_hf(true);
    assert_eq!(0xE0, reg.f);
    reg.set_cf(true);
    assert_eq!(0xF0, reg.f);
    assert!(reg.zf() && reg.nf() && reg.hf() && reg.cf());
    reg.set_zf(false);
    assert_eq!(0x70, reg.f);
    reg.set_nf(false);
    assert_eq!(0x30, reg.f);
    reg.set_hf(false);
    assert_eq!(0x10, reg.f);
    reg.set_cf(false);
    assert_eq!(0x00, reg.f);
    assert!(!reg.zf() && !reg.nf() && !reg.hf() && !reg.cf());
}

#[test]
fn setting_a_flag_leaves_the_others() {
    let mut reg = Registres::default();
    reg.set_hf(true);
    reg.set_zf(true);
    reg.set_zf(true);
    assert!(reg.hf());
    assert!(!reg.nf());
    assert!(!reg.cf());
    reg.set_hf(false);
    assert!(reg.zf());
    assert_eq!(0x80, reg.f);
}

#[test]
fn flag_operations_keep_the_low_nibble_clear() {
    let mut reg = Registres::default();
    for bits in 0..16u8 {
        reg.set_zf(bits & 8 != 0);
        reg.set_nf(bits & 4 != 0);
        reg.set_hf(bits & 2 != 0);
        reg.set_cf(bits & 1 != 0);
        assert_eq!(0, reg.f & 0x0F);
        assert_eq!(bits << 4, reg.f);
    }
}
