//! Arithmetic and logic: what each operation leaves in the accumulator
//! and in the flags.
//!
//! The flags are written Z, N, H, C. H reports a carry out of (or a
//! borrow into) the low nibble, C out of (or into) the whole byte.
use vstd::prelude::*;
use crate::bits::{lemma_shifts_left, lemma_shifts_right};
use crate::register::Registres;

verus! {

/// The eight operations of the accumulator with an 8-bit operand.
#[derive(Clone, Copy, Debug)]
pub enum Alu {
    Add,
    Adc,
    Sub,
    Sbc,
    And,
    Xor,
    Or,
    Cp,
}

/// The eight rotates and shifts of the prefixed table.
#[derive(Clone, Copy, Debug)]
pub enum Shift {
    Rlc,
    Rrc,
    Rl,
    Rr,
    Sla,
    Sra,
    Swap,
    Srl,
}

/// The operations that read an operand, change it and write it back.
/// `ResetBit` and `SetBit` carry the number of a bit, 0 to 7.
#[derive(Clone, Copy, Debug)]
pub enum Modify {
    Inc,
    Dec,
    Shift(Shift),
    ResetBit(u8),
    SetBit(u8),
}

/// 1 for `true`, 0 for `false`.
pub open spec fn bit_of(b: bool) -> int {
    if b {
        1
    } else {
        0
    }
}

/// The value that the signed byte `e` stands for.
pub open spec fn signed(e: u8) -> int {
    if e < 128 {
        e as int
    } else {
        e - 256
    }
}

/// `base` moved by the signed byte `e`, wrapping at 16 bits.
pub open spec fn displace(base: u16, e: u8) -> u16 {
    ((base + signed(e)) % 0x10000) as u16
}

/// What a rotate or shift makes of `v`, and the bit that leaves `v`.
/// `carry` is the carry flag before.
pub open spec fn shifted(kind: Shift, v: u8, carry: bool) -> (u8, bool) {
    match kind {
        Shift::Rlc => (((v * 2) % 256 + v / 128) as u8, v >= 128),
        Shift::Rrc => ((v / 2 + (v % 2) * 128) as u8, v % 2 == 1),
        Shift::Rl => (((v * 2) % 256 + bit_of(carry)) as u8, v >= 128),
        Shift::Rr => ((v / 2 + bit_of(carry) * 128) as u8, v % 2 == 1),
        Shift::Sla => (((v * 2) % 256) as u8, v >= 128),
        Shift::Sra => ((v / 2 + (v / 128) * 128) as u8, v % 2 == 1),
        Shift::Swap => (((v % 16) * 16 + v / 16) as u8, false),
        Shift::Srl => (v / 2, v % 2 == 1),
    }
}

/// The decimal adjustment of `a` under the flags N, H and C: the adjusted
/// byte and the new C.
///
/// After an addition (N clear) `0x60` is added when C is set or `a` is
/// above `0x99`, and C is then set; `0x06` is added when H is set or the
/// low nibble is above 9. After a subtraction (N set) `0x60` is taken off
/// when C is set and `0x06` when H is set, and C stays.
pub open spec fn decimal_adjusted(a: u8, n: bool, h: bool, c: bool) -> (u8, bool) {
    if !n {
        let high = c || a > 0x99;
        let low = h || a % 16 > 9;
        (((a + (if high { 0x60int } else { 0 }) + (if low { 0x06int } else { 0 })) % 256) as u8, high)
    } else {
        (((a - (if c { 0x60int } else { 0 }) - (if h { 0x06int } else { 0 })) % 256) as u8, c)
    }
}

impl Modify {
    /// The bit number, if any, is below 8.
    pub open spec fn wf(self) -> bool {
        match self {
            Modify::ResetBit(n) => n < 8,
            Modify::SetBit(n) => n < 8,
            _ => true,
        }
    }
}

impl Registres {
    /// After `A + v + carry`: Z from the result, N clear, H and C the
    /// carries out of bit 3 and bit 7.
    pub open spec fn after_add(self, v: u8, carry: bool) -> Registres {
        let sum = self.a + v + bit_of(carry);
        Registres { a: (sum % 256) as u8, ..self }.with_flags(
            sum % 256 == 0,
            false,
            self.a % 16 + v % 16 + bit_of(carry) > 15,
            sum > 255,
        )
    }

    /// After `A - v - carry`: Z from the result, N set, H and C the
    /// borrows into bit 3 and bit 7.
    pub open spec fn after_sub(self, v: u8, carry: bool) -> Registres {
        let diff = self.a - v - bit_of(carry);
        Registres { a: (diff % 256) as u8, ..self }.with_flags(
            diff % 256 == 0,
            true,
            self.a % 16 < v % 16 + bit_of(carry),
            diff < 0,
        )
    }

    /// After one of the eight accumulator operations with operand `v`.
    pub open spec fn after_alu(self, op: Alu, v: u8) -> Registres {
        match op {
            Alu::Add => self.after_add(v, false),
            Alu::Adc => self.after_add(v, self.cf()),
            Alu::Sub => self.after_sub(v, false),
            Alu::Sbc => self.after_sub(v, self.cf()),
            Alu::And => Registres { a: self.a & v, ..self }.with_flags(
                self.a & v == 0,
                false,
                true,
                false,
            ),
            Alu::Xor => Registres { a: self.a ^ v, ..self }.with_flags(
                self.a ^ v == 0,
                false,
                false,
                false,
            ),
            Alu::Or => Registres { a: self.a | v, ..self }.with_flags(
                self.a | v == 0,
                false,
                false,
                false,
            ),
            Alu::Cp => Registres { a: self.a, ..self.after_sub(v, false) },
        }
    }

    /// After an operand that held `v` is changed: the registers, where
    /// only flags change, and the operand's new value.
    ///
    /// INC and DEC leave C alone; a rotate or shift sets Z from the
    /// result and C from the bit that left; RES and SET change no flag.
    pub open spec fn after_modify(self, op: Modify, v: u8) -> (Registres, u8) {
        match op {
            Modify::Inc => (
                self.with_zf(v == 255).with_nf(false).with_hf(v % 16 == 15),
                ((v + 1) % 256) as u8,
            ),
            Modify::Dec => (
                self.with_zf(v == 1).with_nf(true).with_hf(v % 16 == 0),
                ((v - 1) % 256) as u8,
            ),
            Modify::Shift(kind) => {
                let (r, c) = shifted(kind, v, self.cf());
                (self.with_flags(r == 0, false, false, c), r)
            },
            Modify::ResetBit(n) => (self, v & !(1u8 << n)),
            Modify::SetBit(n) => (self, v | (1u8 << n)),
        }
    }

    /// After one of the four rotates of the accumulator: as the rotate of
    /// the same name, but with Z clear.
    pub open spec fn after_rotate_a(self, kind: Shift) -> Registres {
        let (r, c) = shifted(kind, self.a, self.cf());
        Registres { a: r, ..self }.with_flags(false, false, false, c)
    }

    /// After BIT `n`: Z set when bit `n` of `v` is clear, N clear, H set.
    pub open spec fn after_bit(self, n: u8, v: u8) -> Registres {
        self.with_zf((v >> n) & 1 == 0).with_nf(false).with_hf(true)
    }

    /// After the decimal adjustment of the accumulator: A and C as
    /// `decimal_adjusted` gives them, Z from the result, H clear, N as
    /// before.
    pub open spec fn after_daa(self) -> Registres {
        let (a, carry) = decimal_adjusted(self.a, self.nf(), self.hf(), self.cf());
        Registres { a, ..self }.with_zf(a == 0).with_hf(false).with_cf(carry)
    }

    /// After CPL: A complemented, N and H set.
    pub open spec fn after_cpl(self) -> Registres {
        Registres { a: (255 - self.a) as u8, ..self }.with_nf(true).with_hf(true)
    }

    /// After SCF: C set, N and H clear.
    pub open spec fn after_scf(self) -> Registres {
        self.with_nf(false).with_hf(false).with_cf(true)
    }

    /// After CCF: C inverted, N and H clear.
    pub open spec fn after_ccf(self) -> Registres {
        self.with_nf(false).with_hf(false).with_cf(!self.cf())
    }

    /// After `HL + v`: N clear, H and C the carries out of bit 11 and
    /// bit 15, Z as before.
    pub open spec fn after_add_hl(self, v: u16) -> Registres {
        let hl = self.hl();
        self.with_hl(((hl + v) % 0x10000) as u16).with_nf(false).with_hf(
            hl % 0x1000 + v % 0x1000 > 0x0FFF,
        ).with_cf(hl + v > 0xFFFF)
    }

    /// The flags after SP is combined with the signed byte `e`: Z and N
    /// clear, H and C the carries out of bit 3 and bit 7 of the sum of the
    /// low byte of SP and `e` taken as unsigned.
    pub open spec fn after_sp_offset(self, e: u8) -> Registres {
        self.with_flags(false, false, self.sp % 16 + e % 16 > 15, self.sp % 256 + e > 255)
    }

    /// Does the accumulator operation `op` with the operand `v`.
    pub fn apply_alu(&mut self, op: Alu, v: u8)
        ensures
            *final(self) == old(self).after_alu(op, v),
    {
        let a: u8 = self.a;
        match op {
            Alu::Add => self.add_to_a(v, false),
            Alu::Adc => {
                let carry: bool = self.cf();
                self.add_to_a(v, carry)
            },
            Alu::Sub => self.sub_from_a(v, false),
            Alu::Sbc => {
                let carry: bool = self.cf();
                self.sub_from_a(v, carry)
            },
            Alu::And => {
                let result: u8 = a & v;
                self.set_zf(result == 0);
                self.set_nf(false);
                self.set_hf(true);
                self.set_cf(false);
                self.a = result;
            },
            Alu::Xor => {
                let result: u8 = a ^ v;
                self.set_zf(result == 0);
                self.set_nf(false);
                self.set_hf(false);
                self.set_cf(false);
                self.a = result;
            },
            Alu::Or => {
                let result: u8 = a | v;
                self.set_zf(result == 0);
                self.set_nf(false);
                self.set_hf(false);
                self.set_cf(false);
                self.a = result;
            },
            Alu::Cp => {
                self.sub_from_a(v, false);
                self.a = a;
            },
        }
    }

    fn add_to_a(&mut self, v: u8, carry: bool)
        ensures
            *final(self) == old(self).after_add(v, carry),
    {
        let c: u8 = if carry { 1 } else { 0 };
        let a: u8 = self.a;
        let result: u8 = a.wrapping_add(v).wrapping_add(c);
        proof {
            let sum = a + v + c;
            if sum > 255 {
                assert(sum % 256 == sum - 256);
            } else {
                assert(sum % 256 == sum);
            }
            assert(result == sum % 256);
        }
        self.set_zf(result == 0);
        self.set_nf(false);
        self.set_hf((a % 16) + (v % 16) + c > 0x0f);
        self.set_cf((a as u16) + (v as u16) + (c as u16) > 0xff);
        self.a = result;
    }

    fn sub_from_a(&mut self, v: u8, carry: bool)
        ensures
            *final(self) == old(self).after_sub(v, carry),
    {
        let c: u8 = if carry { 1 } else { 0 };
        let a: u8 = self.a;
        let result: u8 = a.wrapping_sub(v).wrapping_sub(c);
        proof {
            let diff = a - v - c;
            if diff < 0 {
                assert(diff % 256 == diff + 256);
            } else {
                assert(diff % 256 == diff);
            }
            assert(result == diff % 256);
        }
        self.set_zf(result == 0);
        self.set_nf(true);
        self.set_hf((a % 16) < (v % 16) + c);
        self.set_cf((v as u16) + (c as u16) > (a as u16));
        self.a = result;
    }

    /// Changes the flags as `op` does on an operand that holds `v`, and
    /// returns the operand's new value.
    pub fn apply_modify(&mut self, op: Modify, v: u8) -> (r: u8)
        requires
            op.wf(),
        ensures
            (*final(self), r) == old(self).after_modify(op, v),
    {
        match op {
            Modify::Inc => {
                let result: u8 = v.wrapping_add(1);
                assert(result == (v + 1) % 256 && (result == 0) == (v == 255)) by {
                    if v == 255 {
                        assert((v + 1) % 256 == 0);
                    } else {
                        assert((v + 1) % 256 == v + 1);
                    }
                }
                self.set_zf(result == 0);
                self.set_nf(false);
                self.set_hf(v % 16 == 0x0f);
                result
            },
            Modify::Dec => {
                let result: u8 = v.wrapping_sub(1);
                assert(result == (v - 1) % 256 && (result == 0) == (v == 1)) by {
                    if v == 0 {
                        assert((v - 1) % 256 == 255);
                    } else {
                        assert((v - 1) % 256 == v - 1);
                    }
                }
                self.set_zf(result == 0);
                self.set_nf(true);
                self.set_hf(v % 16 == 0);
                result
            },
            Modify::Shift(kind) => {
                let carry: bool = self.cf();
                let (result, out) = shift(kind, v, carry);
                self.set_zf(result == 0);
                self.set_nf(false);
                self.set_hf(false);
                self.set_cf(out);
                result
            },
            Modify::ResetBit(n) => v & !(1u8 << n),
            Modify::SetBit(n) => v | (1u8 << n),
        }
    }

    /// Rotates the accumulator as `kind` says and clears Z.
    pub fn rotate_a(&mut self, kind: Shift)
        ensures
            *final(self) == old(self).after_rotate_a(kind),
    {
        let carry: bool = self.cf();
        let (result, out) = shift(kind, self.a, carry);
        self.a = result;
        self.set_zf(false);
        self.set_nf(false);
        self.set_hf(false);
        self.set_cf(out);
    }

    /// Sets the flags for the test of bit `n` of `v`.
    pub fn test_bit(&mut self, n: u8, v: u8)
        requires
            n < 8,
        ensures
            *final(self) == old(self).after_bit(n, v),
    {
        self.set_zf((v >> n) & 1 == 0);
        self.set_nf(false);
        self.set_hf(true);
    }

    /// Adjusts the accumulator to decimal digits.
    pub fn decimal_adjust(&mut self)
        ensures
            *final(self) == old(self).after_daa(),
    {
        let (a, carry) = decimal_adjust(self.a, self.nf(), self.hf(), self.cf());
        self.a = a;
        self.set_zf(a == 0);
        self.set_hf(false);
        self.set_cf(carry);
    }

    /// Complements the accumulator.
    pub fn complement_a(&mut self)
        ensures
            *final(self) == old(self).after_cpl(),
    {
        proof {
            lemma_shifts_left(self.a, 0);
        }
        self.a = !self.a;
        self.set_nf(true);
        self.set_hf(true);
    }

    /// Adds `v` to HL.
    pub fn add_to_hl(&mut self, v: u16)
        ensures
            *final(self) == old(self).after_add_hl(v),
    {
        let hl: u16 = self.hl();
        let hf: bool = (v % 0x1000) + (hl % 0x1000) > 0x0fff;
        let cf: bool = (v as u32) + (hl as u32) > 0xffff;
        let sum: u16 = hl.wrapping_add(v);
        assert(sum == (hl + v) % 0x10000) by {
            if hl + v > 0xffff {
                assert((hl + v) % 0x10000 == hl + v - 0x10000);
            } else {
                assert((hl + v) % 0x10000 == hl + v);
            }
        }
        self.write_hl(sum);
        self.set_nf(false);
        self.set_hf(hf);
        self.set_cf(cf);
    }

    /// Sets the flags for SP combined with the signed byte `e` and
    /// returns the sum.
    pub fn offset_sp(&mut self, e: u8) -> (r: u16)
        ensures
            *final(self) == old(self).after_sp_offset(e),
            r == displace(old(self).sp, e),
    {
        let sp: u16 = self.sp;
        let hf: bool = (sp % 16) + ((e % 16) as u16) > 0x000f;
        let cf: bool = (sp % 256) + (e as u16) > 0x00ff;
        self.set_zf(false);
        self.set_nf(false);
        self.set_hf(hf);
        self.set_cf(cf);
        displaced(sp, e)
    }
}

/// The decimal adjustment of `a` under the flags N, H and C.
pub fn decimal_adjust(a: u8, n: bool, h: bool, c: bool) -> (r: (u8, bool))
    ensures
        r == decimal_adjusted(a, n, h, c),
{
    let mut correction: u8 = 0;
    let mut carry: bool = c;
    if !n {
        if h || a % 16 > 0x09 {
            correction = 0x06;
        }
        if c || a > 0x99 {
            correction = correction + 0x60;
            carry = true;
        }
        (a.wrapping_add(correction), carry)
    } else {
        if h {
            correction = 0x06;
        }
        if c {
            correction = correction + 0x60;
        }
        (a.wrapping_sub(correction), carry)
    }
}

/// `base` moved by the signed byte `e`, wrapping at 16 bits.
pub fn displaced(base: u16, e: u8) -> (r: u16)
    ensures
        r == displace(base, e),
{
    proof {
        let moved = base + signed(e);
        if moved > 0xffff {
            assert(moved % 0x10000 == moved - 0x10000);
        } else if moved < 0 {
            assert(moved % 0x10000 == moved + 0x10000);
        } else {
            assert(moved % 0x10000 == moved);
        }
    }
    if e < 0x80 {
        base.wrapping_add(e as u16)
    } else {
        base.wrapping_sub(0x100 - (e as u16))
    }
}

/// The result of a rotate or shift of `v` and the bit that leaves `v`.
pub fn shift(kind: Shift, v: u8, carry: bool) -> (r: (u8, bool))
    ensures
        r == shifted(kind, v, carry),
{
    let c: u8 = if carry { 1 } else { 0 };
    proof {
        lemma_shifts_left(v, c);
        lemma_shifts_right(v, c);
    }
    match kind {
        Shift::Rlc => ((v << 1) | (v >> 7), v & 0x80 != 0),
        Shift::Rrc => ((v >> 1) | (v << 7), v & 0x01 != 0),
        Shift::Rl => ((v << 1) | c, v & 0x80 != 0),
        Shift::Rr => ((v >> 1) | (c << 7), v & 0x01 != 0),
        Shift::Sla => (v << 1, v & 0x80 != 0),
        Shift::Sra => ((v >> 1) | (v & 0x80), v & 0x01 != 0),
        Shift::Swap => ((v >> 4) | (v << 4), false),
        Shift::Srl => (v >> 1, v & 0x01 != 0),
    }
}

} // verus!
