use gbemu_rust::alu::{decimal_adjust, displaced, shift, Alu, Modify, Shift};
use gbemu_rust::register::Registres;

fn flags(reg: &Registres) -> (bool, bool, bool, bool) {
    (reg.zf(), reg.nf(), reg.hf(), reg.cf())
}

fn with_a(a: u8) -> Registres {
    let mut reg = Registres::default();
    reg.a = a;
    reg
}

#[test]
fn add_sets_half_carry_and_carry() {
    let mut reg = with_a(0x3A);
    reg.apply_alu(Alu::Add, 0xC6);
    assert_eq!(0x00, reg.a);
    assert_eq!((true, false, true, true), flags(&reg));

    let mut reg = with_a(0x0F);
    reg.apply_alu(Alu::Add, 0x01);
    assert_eq!(0x10, reg.a);
    assert_eq!((false, false, true, false), flags(&reg));

    let mut reg = with_a(0xF0);
    reg.apply_alu(Alu::Add, 0x20);
    assert_eq!(0x10, reg.a);
    assert_eq!((false, false, false, true), flags(&reg));
}

#[test]
fn add_ignores_the_carry_flag() {
    let mut reg = with_a(0x01);
    reg.set_cf(true);
    reg.apply_alu(Alu::Add, 0x01);
    assert_eq!(0x02, reg.a);
    assert_eq!((false, false, false, false), flags(&reg));
}

#[test]
fn adc_adds_the_carry_flag() {
    let mut reg = with_a(0xE1);
    reg.set_cf(true);
    reg.apply_alu(Alu::Adc, 0x0F);
    assert_eq!(0xF1, reg.a);
    assert_eq!((false, false, true, false), flags(&reg));

    let mut reg = with_a(0xFF);
    reg.set_cf(true);
    reg.apply_alu(Alu::Adc, 0x00);
    assert_eq!(0x00, reg.a);
    assert_eq!((true, false, true, true), flags(&reg));

    let mut reg = with_a(0x0F);
    reg.set_cf(true);
    reg.apply_alu(Alu::Adc, 0xF0);
    assert_eq!(0x00, reg.a);
    assert_eq!((true, false, true, true), flags(&reg));
}

#[test]
fn sub_sets_borrows() {
    let mut reg = with_a(0x3E);
    reg.apply_alu(Alu::Sub, 0x3E);
    assert_eq!(0x00, reg.a);
    assert_eq!((true, true, false, false), flags(&reg));

    let mut reg = with_a(0x3E);
    reg.apply_alu(Alu::Sub, 0x0F);
    assert_eq!(0x2F, reg.a);
    assert_eq!((false, true, true, false), flags(&reg));

    let mut reg = with_a(0x3E);
    reg.apply_alu(Alu::Sub, 0x40);
    assert_eq!(0xFE, reg.a);
    assert_eq!((false, true, false, true), flags(&reg));
}

#[test]
fn sbc_subtracts_the_carry_flag() {
    let mut reg = with_a(0x3B);
    reg.set_cf(true);
    reg.apply_alu(Alu::Sbc, 0x2A);
    assert_eq!(0x10, reg.a);
    assert_eq!((false, true, false, false), flags(&reg));

    let mut reg = with_a(0x00);
    reg.set_cf(true);
    reg.apply_alu(Alu::Sbc, 0xFF);
    assert_eq!(0x00, reg.a);
    assert_eq!((true, true, true, true), flags(&reg));

    let mut reg = with_a(0x10);
    reg.set_cf(true);
    reg.apply_alu(Alu::Sbc, 0x0F);
    assert_eq!(0x00, reg.a);
    assert_eq!((true, true, true, false), flags(&reg));
}

#[test]
fn logic_operations() {
    let mut reg = with_a(0x5A);
    reg.set_cf(true);
    reg.apply_alu(Alu::And, 0x3F);
    assert_eq!(0x1A, reg.a);
    assert_eq!((false, false, true, false), flags(&reg));

    let mut reg = with_a(0x5A);
    reg.apply_alu(Alu::And, 0xA5);
    assert_eq!(0x00, reg.a);
    assert_eq!((true, false, true, false), flags(&reg));

    let mut reg = with_a(0x5A);
    reg.set_cf(true);
    reg.set_hf(true);
    reg.apply_alu(Alu::Or, 0x0F);
    assert_eq!(0x5F, reg.a);
    assert_eq!((false, false, false, false), flags(&reg));

    let mut reg = with_a(0xFF);
    reg.set_cf(true);
    reg.apply_alu(Alu::Xor, 0xFF);
    assert_eq!(0x00, reg.a);
    assert_eq!((true, false, false, false), flags(&reg));

    let mut reg = with_a(0xFF);
    reg.apply_alu(Alu::Xor, 0x0F);
    assert_eq!(0xF0, reg.a);
    assert_eq!((false, false, false, false), flags(&reg));
}

#[test]
fn cp_is_sub_without_the_result() {
    let mut reg = with_a(0x3C);
    reg.apply_alu(Alu::Cp, 0x2F);
    assert_eq!(0x3C, reg.a);
    assert_eq!((false, true, true, false), flags(&reg));
    reg.apply_alu(Alu::Cp, 0x3C);
    assert_eq!(0x3C, reg.a);
    assert_eq!((true, true, false, false), flags(&reg));
    reg.apply_alu(Alu::Cp, 0x40);
    assert_eq!(0x3C, reg.a);
    assert_eq!((false, true, false, true), flags(&reg));
}

#[test]
fn add_then_sub_restores_the_accumulator() {
    for a in 0..=255u8 {
        for n in [0u8, 1, 0x0F, 0x10, 0x7F, 0x80, 0xFF, a] {
            let mut reg = with_a(a);
            reg.apply_alu(Alu::Add, n);
            reg.apply_alu(Alu::Sub, n);
            assert_eq!(a, reg.a);
        }
    }
}

#[test]
fn inc_and_dec_leave_carry_alone() {
    let mut reg = Registres::default();
    reg.set_cf(true);
    assert_eq!(0x10, reg.apply_modify(Modify::Inc, 0x0F));
    assert_eq!((false, false, true, true), flags(&reg));
    assert_eq!(0x00, reg.apply_modify(Modify::Inc, 0xFF));
    assert_eq!((true, false, true, true), flags(&reg));
    assert_eq!(0x01, reg.apply_modify(Modify::Inc, 0x00));
    assert_eq!((false, false, false, true), flags(&reg));

    reg.set_cf(false);
    assert_eq!(0x0F, reg.apply_modify(Modify::Dec, 0x10));
    assert_eq!((false, true, true, false), flags(&reg));
    assert_eq!(0x00, reg.apply_modify(Modify::Dec, 0x01));
    assert_eq!((true, true, false, false), flags(&reg));
    assert_eq!(0xFF, reg.apply_modify(Modify::Dec, 0x00));
    assert_eq!((false, true, true, false), flags(&reg));
}

#[test]
fn inc_then_dec_restores_every_value() {
    for v in 0..=255u8 {
        let mut reg = Registres::default();
        let up = reg.apply_modify(Modify::Inc, v);
        assert_eq!(v, reg.apply_modify(Modify::Dec, up));
    }
}

#[test]
fn shifts_and_rotates() {
    assert_eq!((0x0B, true), shift(Shift::Rlc, 0x85, false));
    assert_eq!((0x00, false), shift(Shift::Rlc, 0x00, true));
    assert_eq!((0x80, true), shift(Shift::Rrc, 0x01, false));
    assert_eq!((0x01, true), shift(Shift::Rl, 0x80, true));
    assert_eq!((0x00, true), shift(Shift::Rl, 0x80, false));
    assert_eq!((0x22, false), shift(Shift::Rl, 0x11, false));
    assert_eq!((0x80, true), shift(Shift::Rr, 0x01, true));
    assert_eq!((0x00, true), shift(Shift::Rr, 0x01, false));
    assert_eq!((0x45, false), shift(Shift::Rr, 0x8A, false));
    assert_eq!((0x80, true), shift(Shift::Sla, 0xC0, true));
    assert_eq!((0xFE, true), shift(Shift::Sla, 0xFF, false));
    assert_eq!((0xC0, true), shift(Shift::Sra, 0x81, false));
    assert_eq!((0x3F, false), shift(Shift::Sra, 0x7E, true));
    assert_eq!((0x40, true), shift(Shift::Srl, 0x81, true));
    assert_eq!((0x7F, true), shift(Shift::Srl, 0xFF, false));
    assert_eq!((0x0F, false), shift(Shift::Swap, 0xF0, true));
    assert_eq!((0x21, false), shift(Shift::Swap, 0x12, false));
}

#[test]
fn prefixed_shifts_set_zero_from_the_result() {
    let mut reg = Registres::default();
    assert_eq!(0x00, reg.apply_modify(Modify::Shift(Shift::Sla), 0x80));
    assert_eq!((true, false, false, true), flags(&reg));
    assert_eq!(0x00, reg.apply_modify(Modify::Shift(Shift::Swap), 0x00));
    assert_eq!((true, false, false, false), flags(&reg));
    reg.set_hf(true);
    reg.set_nf(true);
    assert_eq!(0x02, reg.apply_modify(Modify::Shift(Shift::Rlc), 0x01));
    assert_eq!((false, false, false, false), flags(&reg));
}

#[test]
fn accumulator_rotates_clear_zero() {
    let mut reg = with_a(0x00);
    reg.set_zf(true);
    reg.rotate_a(Shift::Rlc);
    assert_eq!(0x00, reg.a);
    assert_eq!((false, false, false, false), flags(&reg));

    let mut reg = with_a(0x85);
    reg.rotate_a(Shift::Rlc);
    assert_eq!(0x0B, reg.a);
    assert_eq!((false, false, false, true), flags(&reg));

    let mut reg = with_a(0x95);
    reg.set_cf(true);
    reg.rotate_a(Shift::Rl);
    assert_eq!(0x2B, reg.a);
    assert_eq!((false, false, false, true), flags(&reg));

    let mut reg = with_a(0x3B);
    reg.rotate_a(Shift::Rrc);
    assert_eq!(0x9D, reg.a);
    assert_eq!((false, false, false, true), flags(&reg));

    let mut reg = with_a(0x81);
    reg.rotate_a(Shift::Rr);
    assert_eq!(0x40, reg.a);
    assert_eq!((false, false, false, true), flags(&reg));
}

#[test]
fn bit_set_and_res() {
    let mut reg = Registres::default();
    reg.set_cf(true);
    reg.set_nf(true);
    reg.test_bit(7, 0x80);
    assert_eq!((false, false, true, true), flags(&reg));
    reg.test_bit(0, 0x80);
    assert_eq!((true, false, true, true), flags(&reg));
    reg.test_bit(4, 0xEF);
    assert_eq!((true, false, true, true), flags(&reg));

    let before = reg.f;
    assert_eq!(0x08, reg.apply_modify(Modify::SetBit(3), 0x00));
    assert_eq!(0x80, reg.apply_modify(Modify::SetBit(7), 0x80));
    assert_eq!(0xF7, reg.apply_modify(Modify::ResetBit(3), 0xFF));
    assert_eq!(0x00, reg.apply_modify(Modify::ResetBit(0), 0x01));
    assert_eq!(before, reg.f);
}

#[test]
fn decimal_adjust_after_addition() {
    assert_eq!((0x42, false), decimal_adjust(0x3C, false, false, false));
    assert_eq!((0x00, true), decimal_adjust(0x9A, false, false, false));
    assert_eq!((0x66, true), decimal_adjust(0x00, false, true, true));
    assert_eq!((0x05, true), decimal_adjust(0xA5, false, false, false));
    assert_eq!((0x99, false), decimal_adjust(0x99, false, false, false));
    assert_eq!((0x60, true), decimal_adjust(0x00, false, false, true));
    assert_eq!((0x16, false), decimal_adjust(0x10, false, true, false));
}

#[test]
fn decimal_adjust_after_subtraction() {
    assert_eq!((0x27, false), decimal_adjust(0x2D, true, true, false));
    assert_eq!((0x99, true), decimal_adjust(0xFF, true, true, true));
    assert_eq!((0x40, true), decimal_adjust(0xA0, true, false, true));
    assert_eq!((0x45, false), decimal_adjust(0x45, true, false, false));
}

#[test]
fn decimal_adjust_sets_zero_and_clears_half_carry() {
    let mut reg = with_a(0x99);
    reg.apply_alu(Alu::Add, 0x01);
    assert_eq!(0x9A, reg.a);
    reg.decimal_adjust();
    assert_eq!(0x00, reg.a);
    assert_eq!((true, false, false, true), flags(&reg));

    let mut reg = with_a(0x42);
    reg.apply_alu(Alu::Sub, 0x15);
    assert_eq!(0x2D, reg.a);
    reg.decimal_adjust();
    assert_eq!(0x27, reg.a);
    assert_eq!((false, true, false, false), flags(&reg));
}

fn bcd(v: u32) -> u8 {
    ((v / 10) << 4 | (v % 10)) as u8
}

#[test]
fn decimal_adjust_gives_decimal_sums_and_differences() {
    for x in 0..100u32 {
        for y in 0..100u32 {
            let mut reg = with_a(bcd(x));
            reg.apply_alu(Alu::Add, bcd(y));
            reg.decimal_adjust();
            assert_eq!(bcd((x + y) % 100), reg.a);
            assert_eq!(x + y > 99, reg.cf());

            let mut reg = with_a(bcd(x));
            reg.apply_alu(Alu::Sub, bcd(y));
            reg.decimal_adjust();
            assert_eq!(bcd((100 + x - y) % 100), reg.a);
            assert_eq!(x < y, reg.cf());
        }
    }
}

#[test]
fn complement() {
    let mut reg = with_a(0x35);
    reg.set_zf(true);
    reg.set_cf(true);
    reg.complement_a();
    assert_eq!(0xCA, reg.a);
    assert_eq!((true, true, true, true), flags(&reg));
}

#[test]
fn add_to_hl_carries_out_of_bit_11_and_bit_15() {
    let mut reg = Registres::default();
    reg.set_zf(true);
    reg.set_nf(true);
    reg.write_hl(0x0FFF);
    reg.add_to_hl(0x0001);
    assert_eq!(0x1000, reg.hl());
    assert_eq!((true, false, true, false), flags(&reg));
    reg.write_hl(0xFFFF);
    reg.add_to_hl(0x0001);
    assert_eq!(0x0000, reg.hl());
    assert_eq!((true, false, true, true), flags(&reg));
    reg.write_hl(0x8000);
    reg.add_to_hl(0x8000);
    assert_eq!(0x0000, reg.hl());
    assert_eq!((true, false, false, true), flags(&reg));
    reg.set_zf(false);
    reg.write_hl(0x1234);
    reg.add_to_hl(0x1111);
    assert_eq!(0x2345, reg.hl());
    assert_eq!((false, false, false, false), flags(&reg));
}

#[test]
fn sp_offset_flags_come_from_the_low_byte() {
    let mut reg = Registres::default();
    reg.set_zf(true);
    reg.set_nf(true);
    reg.sp = 0x0001;
    assert_eq!(0x0000, reg.offset_sp(0xFF));
    assert_eq!((false, false, true, true), flags(&reg));
    assert_eq!(0x0001, reg.sp);

    reg.sp = 0xFFFE;
    assert_eq!(0x0000, reg.offset_sp(0x02));
    assert_eq!((false, false, true, true), flags(&reg));

    reg.sp = 0x0001;
    assert_eq!(0xFFFF, reg.offset_sp(0xFE));
    assert_eq!((false, false, false, false), flags(&reg));

    reg.sp = 0x00F0;
    assert_eq!(0x0100, reg.offset_sp(0x10));
    assert_eq!((false, false, false, true), flags(&reg));

    reg.sp = 0x1008;
    assert_eq!(0x1010, reg.offset_sp(0x08));
    assert_eq!((false, false, true, false), flags(&reg));
}

#[test]
fn displacement_is_signed() {
    assert_eq!(0x0102, displaced(0x0100, 0x02));
    assert_eq!(0x017F, displaced(0x0100, 0x7F));
    assert_eq!(0x0080, displaced(0x0100, 0x80));
    assert_eq!(0x00FF, displaced(0x0100, 0xFF));
    assert_eq!(0xFFFF, displaced(0x0000, 0xFF));
    assert_eq!(0x0001, displaced(0xFFFF, 0x02));
    assert_eq!(0x0100, displaced(0x0100, 0x00));
}
