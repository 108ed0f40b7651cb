//! The architectural register file: eight 8-bit registers, the stack
//! pointer and the program counter, with the paired 16-bit views and the
//! four flags kept in the high nibble of `f`.
use vstd::prelude::*;
use crate::bits::{has_bit, lemma_flag_masks, lemma_join, put_bit};

verus! {

/// Weight of the zero flag within `f`.
pub const FLAG_Z: u8 = 0x80;

/// Weight of the subtract flag within `f`.
pub const FLAG_N: u8 = 0x40;

/// Weight of the half-carry flag within `f`.
pub const FLAG_H: u8 = 0x20;

/// Weight of the carry flag within `f`.
pub const FLAG_C: u8 = 0x10;

/// The word whose high byte is `hi` and whose low byte is `lo`.
pub open spec fn word(hi: u8, lo: u8) -> u16 {
    (hi * 256 + lo) as u16
}

/// The register file.
#[derive(Clone, Copy)]
pub struct Registres {
    pub pc: u16,
    pub sp: u16,
    pub a: u8,
    pub b: u8,
    pub c: u8,
    pub d: u8,
    pub e: u8,
    pub f: u8,
    pub h: u8,
    pub l: u8,
}

impl Default for Registres {
    fn default() -> (r: Self)
        ensures
            r == (Registres { pc: 0, sp: 0, a: 0, b: 0, c: 0, d: 0, e: 0, f: 0, h: 0, l: 0 }),
    {
        Registres { pc: 0, sp: 0, a: 0, b: 0, c: 0, d: 0, e: 0, f: 0, h: 0, l: 0 }
    }
}

impl Registres {
    /// The low nibble of `f` is zero.
    pub open spec fn flags_clean(&self) -> bool {
        self.f % 16 == 0
    }

    /// The pair AF.
    pub open spec fn spec_af(&self) -> u16 {
        word(self.a, self.f)
    }

    /// The pair BC.
    pub open spec fn spec_bc(&self) -> u16 {
        word(self.b, self.c)
    }

    /// The pair DE.
    pub open spec fn spec_de(&self) -> u16 {
        word(self.d, self.e)
    }

    /// The pair HL.
    pub open spec fn spec_hl(&self) -> u16 {
        word(self.h, self.l)
    }

    /// The registers after `val` is stored in AF: the low nibble of `val`
    /// does not reach `f`.
    pub open spec fn with_af(self, val: u16) -> Registres {
        Registres { a: (val / 256) as u8, f: (val % 256 - val % 16) as u8, ..self }
    }

    /// The registers after `val` is stored in BC.
    pub open spec fn with_bc(self, val: u16) -> Registres {
        Registres { b: (val / 256) as u8, c: (val % 256) as u8, ..self }
    }

    /// The registers after `val` is stored in DE.
    pub open spec fn with_de(self, val: u16) -> Registres {
        Registres { d: (val / 256) as u8, e: (val % 256) as u8, ..self }
    }

    /// The registers after `val` is stored in HL.
    pub open spec fn with_hl(self, val: u16) -> Registres {
        Registres { h: (val / 256) as u8, l: (val % 256) as u8, ..self }
    }

    /// The zero flag.
    pub open spec fn spec_zf(&self) -> bool {
        has_bit(self.f, FLAG_Z)
    }

    /// The subtract flag.
    pub open spec fn spec_nf(&self) -> bool {
        has_bit(self.f, FLAG_N)
    }

    /// The half-carry flag.
    pub open spec fn spec_hf(&self) -> bool {
        has_bit(self.f, FLAG_H)
    }

    /// The carry flag.
    pub open spec fn spec_cf(&self) -> bool {
        has_bit(self.f, FLAG_C)
    }

    /// The registers with the zero flag replaced.
    pub open spec fn with_zf(self, zf: bool) -> Registres {
        Registres { f: put_bit(self.f, FLAG_Z, zf), ..self }
    }

    /// The registers with the subtract flag replaced.
    pub open spec fn with_nf(self, nf: bool) -> Registres {
        Registres { f: put_bit(self.f, FLAG_N, nf), ..self }
    }

    /// The registers with the half-carry flag replaced.
    pub open spec fn with_hf(self, hf: bool) -> Registres {
        Registres { f: put_bit(self.f, FLAG_H, hf), ..self }
    }

    /// The registers with the carry flag replaced.
    pub open spec fn with_cf(self, cf: bool) -> Registres {
        Registres { f: put_bit(self.f, FLAG_C, cf), ..self }
    }

    /// The registers after all four flags are given.
    pub open spec fn with_flags(self, zf: bool, nf: bool, hf: bool, cf: bool) -> Registres {
        self.with_zf(zf).with_nf(nf).with_hf(hf).with_cf(cf)
    }

    /// The pair AF.
    #[verifier::when_used_as_spec(spec_af)]
    pub fn af(&self) -> (r: u16)
        ensures
            r == self.spec_af(),
    {
        proof {
            lemma_join(self.a, self.f);
        }
        ((self.a as u16) << 8) | (self.f as u16)
    }

    /// The pair BC.
    #[verifier::when_used_as_spec(spec_bc)]
    pub fn bc(&self) -> (r: u16)
        ensures
            r == self.spec_bc(),
    {
        proof {
            lemma_join(self.b, self.c);
        }
        ((self.b as u16) << 8) | (self.c as u16)
    }

    /// The pair DE.
    #[verifier::when_used_as_spec(spec_de)]
    pub fn de(&self) -> (r: u16)
        ensures
            r == self.spec_de(),
    {
        proof {
            lemma_join(self.d, self.e);
        }
        ((self.d as u16) << 8) | (self.e as u16)
    }

    /// The pair HL.
    #[verifier::when_used_as_spec(spec_hl)]
    pub fn hl(&self) -> (r: u16)
        ensures
            r == self.spec_hl(),
    {
        proof {
            lemma_join(self.h, self.l);
        }
        ((self.h as u16) << 8) | (self.l as u16)
    }

    /// Stores `val` in AF; its low nibble does not reach F.
    pub fn write_af(&mut self, val: u16)
        ensures
            *final(self) == old(self).with_af(val),
            final(self).flags_clean(),
    {
        self.a = (val / 256) as u8;
        self.f = (val % 256 - val % 16) as u8;
    }

    /// Stores `val` in BC.
    pub fn write_bc(&mut self, val: u16)
        ensures
            *final(self) == old(self).with_bc(val),
            final(self).bc() == val,
    {
        self.b = (val / 256) as u8;
        self.c = (val % 256) as u8;
    }

    /// Stores `val` in DE.
    pub fn write_de(&mut self, val: u16)
        ensures
            *final(self) == old(self).with_de(val),
            final(self).de() == val,
    {
        self.d = (val / 256) as u8;
        self.e = (val % 256) as u8;
    }

    /// Stores `val` in HL.
    pub fn write_hl(&mut self, val: u16)
        ensures
            *final(self) == old(self).with_hl(val),
            final(self).hl() == val,
    {
        self.h = (val / 256) as u8;
        self.l = (val % 256) as u8;
    }

    /// The zero flag.
    #[verifier::when_used_as_spec(spec_zf)]
    pub fn zf(&self) -> (r: bool)
        ensures
            r == self.spec_zf(),
    {
        proof {
            lemma_flag_masks(self.f);
        }
        (self.f & 0b_1000_0000) > 0
    }

    /// The subtract flag.
    #[verifier::when_used_as_spec(spec_nf)]
    pub fn nf(&self) -> (r: bool)
        ensures
            r == self.spec_nf(),
    {
        proof {
            lemma_flag_masks(self.f);
        }
        (self.f & 0b_0100_0000) > 0
    }

    /// The half-carry flag.
    #[verifier::when_used_as_spec(spec_hf)]
    pub fn hf(&self) -> (r: bool)
        ensures
            r == self.spec_hf(),
    {
        proof {
            lemma_flag_masks(self.f);
        }
        (self.f & 0b_0010_0000) > 0
    }

    /// The carry flag.
    #[verifier::when_used_as_spec(spec_cf)]
    pub fn cf(&self) -> (r: bool)
        ensures
            r == self.spec_cf(),
    {
        proof {
            lemma_flag_masks(self.f);
        }
        (self.f & 0b_0001_0000) > 0
    }

    /// Replaces the zero flag.
    pub fn set_zf(&mut self, zf: bool)
        ensures
            *final(self) == old(self).with_zf(zf),
            final(self).zf() == zf,
            final(self).nf() == old(self).nf(),
            final(self).hf() == old(self).hf(),
            final(self).cf() == old(self).cf(),
            final(self).f % 16 == old(self).f % 16,
    {
        proof {
            reveal(put_bit);
            lemma_flag_masks(self.f);
            lemma_zf_is_independent(*self, zf);
        }
        if zf {
            self.f |= 0b_1000_0000;
        } else {
            self.f &= 0b_0111_1111;
        }
    }

    /// Replaces the subtract flag.
    pub fn set_nf(&mut self, nf: bool)
        ensures
            *final(self) == old(self).with_nf(nf),
            final(self).zf() == old(self).zf(),
            final(self).nf() == nf,
            final(self).hf() == old(self).hf(),
            final(self).cf() == old(self).cf(),
            final(self).f % 16 == old(self).f % 16,
    {
        proof {
            reveal(put_bit);
            lemma_flag_masks(self.f);
            lemma_nf_is_independent(*self, nf);
        }
        if nf {
            self.f |= 0b_0100_0000;
        } else {
            self.f &= 0b_1011_1111;
        }
    }

    /// Replaces the half-carry flag.
    pub fn set_hf(&mut self, hf: bool)
        ensures
            *final(self) == old(self).with_hf(hf),
            final(self).zf() == old(self).zf(),
            final(self).nf() == old(self).nf(),
            final(self).hf() == hf,
            final(self).cf() == old(self).cf(),
            final(self).f % 16 == old(self).f % 16,
    {
        proof {
            reveal(put_bit);
            lemma_flag_masks(self.f);
            lemma_hf_is_independent(*self, hf);
        }
        if hf {
            self.f |= 0b_0010_0000;
        } else {
            self.f &= 0b_1101_1111;
        }
    }

    /// Replaces the carry flag.
    pub fn set_cf(&mut self, cf: bool)
        ensures
            *final(self) == old(self).with_cf(cf),
            final(self).zf() == old(self).zf(),
            final(self).nf() == old(self).nf(),
            final(self).hf() == old(self).hf(),
            final(self).cf() == cf,
            final(self).f % 16 == old(self).f % 16,
    {
        proof {
            reveal(put_bit);
            lemma_flag_masks(self.f);
            lemma_cf_is_independent(*self, cf);
        }
        if cf {
            self.f |= 0b_0001_0000;
        } else {
            self.f &= 0b_1110_1111;
        }
    }
}

/// Writing Z gives it the value written, leaves N, H and C as they were,
/// and changes nothing below bit 4.
pub proof fn lemma_zf_is_independent(r: Registres, on: bool)
    ensures
        r.with_zf(on).zf() == on,
        r.with_zf(on).nf() == r.nf(),
        r.with_zf(on).hf() == r.hf(),
        r.with_zf(on).cf() == r.cf(),
        r.with_zf(on).f % 16 == r.f % 16,
{
    reveal(put_bit);
}

/// Writing N gives it the value written, leaves Z, H and C as they were,
/// and changes nothing below bit 4.
pub proof fn lemma_nf_is_independent(r: Registres, on: bool)
    ensures
        r.with_nf(on).zf() == r.zf(),
        r.with_nf(on).nf() == on,
        r.with_nf(on).hf() == r.hf(),
        r.with_nf(on).cf() == r.cf(),
        r.with_nf(on).f % 16 == r.f % 16,
{
    reveal(put_bit);
}

/// Writing H gives it the value written, leaves Z, N and C as they were,
/// and changes nothing below bit 4.
pub proof fn lemma_hf_is_independent(r: Registres, on: bool)
    ensures
        r.with_hf(on).zf() == r.zf(),
        r.with_hf(on).nf() == r.nf(),
        r.with_hf(on).hf() == on,
        r.with_hf(on).cf() == r.cf(),
        r.with_hf(on).f % 16 == r.f % 16,
{
    reveal(put_bit);
}

/// Writing C gives it the value written, leaves Z, N and H as they were,
/// and changes nothing below bit 4.
pub proof fn lemma_cf_is_independent(r: Registres, on: bool)
    ensures
        r.with_cf(on).zf() == r.zf(),
        r.with_cf(on).nf() == r.nf(),
        r.with_cf(on).hf() == r.hf(),
        r.with_cf(on).cf() == on,
        r.with_cf(on).f % 16 == r.f % 16,
{
    reveal(put_bit);
}

/// Writing one flag gives it the value written, leaves the other three as
/// they were, and changes nothing below bit 4.
pub proof fn lemma_flags_are_independent(r: Registres, on: bool)
    ensures
        r.with_zf(on).zf() == on,
        r.with_zf(on).nf() == r.nf(),
        r.with_zf(on).hf() == r.hf(),
        r.with_zf(on).cf() == r.cf(),
        r.with_zf(on).f % 16 == r.f % 16,
        r.with_nf(on).zf() == r.zf(),
        r.with_nf(on).nf() == on,
        r.with_nf(on).hf() == r.hf(),
        r.with_nf(on).cf() == r.cf(),
        r.with_nf(on).f % 16 == r.f % 16,
        r.with_hf(on).zf() == r.zf(),
        r.with_hf(on).nf() == r.nf(),
        r.with_hf(on).hf() == on,
        r.with_hf(on).cf() == r.cf(),
        r.with_hf(on).f % 16 == r.f % 16,
        r.with_cf(on).zf() == r.zf(),
        r.with_cf(on).nf() == r.nf(),
        r.with_cf(on).hf() == r.hf(),
        r.with_cf(on).cf() == on,
        r.with_cf(on).f % 16 == r.f % 16,
{
    lemma_zf_is_independent(r, on);
    lemma_nf_is_independent(r, on);
    lemma_hf_is_independent(r, on);
    lemma_cf_is_independent(r, on);
}

/// After all four flags are written each has the value given, and nothing
/// below bit 4 has changed.
pub proof fn lemma_with_flags(r: Registres, z: bool, n: bool, h: bool, c: bool)
    ensures
        r.with_flags(z, n, h, c).zf() == z,
        r.with_flags(z, n, h, c).nf() == n,
        r.with_flags(z, n, h, c).hf() == h,
        r.with_flags(z, n, h, c).cf() == c,
        r.with_flags(z, n, h, c).f % 16 == r.f % 16,
{
    lemma_flags_are_independent(r, z);
    lemma_flags_are_independent(r.with_zf(z), n);
    lemma_flags_are_independent(r.with_zf(z).with_nf(n), h);
    lemma_flags_are_independent(r.with_zf(z).with_nf(n).with_hf(h), c);
}

} // verus!
