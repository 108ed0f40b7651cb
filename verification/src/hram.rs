//! High RAM: 128 bytes, reached through any address by its low 7 bits.
use vstd::prelude::*;
use crate::bits::lemma_offset_masks;

verus! {

/// Number of bytes of high RAM.
pub const HRAM_SIZE: usize = 0x80;

/// The cell of high RAM that `addr` selects.
pub open spec fn hram_offset(addr: u16) -> int {
    addr as int % 0x80
}

/// The high RAM.
pub struct HRam(Vec<u8>);

impl View for HRam {
    type V = Seq<u8>;

    closed spec fn view(&self) -> Seq<u8> {
        self.0@
    }
}

impl HRam {
    /// The memory has its length.
    #[verifier::type_invariant]
    pub closed spec fn well_formed(self) -> bool {
        self.0@.len() == HRAM_SIZE
    }

    /// A well-formed high RAM holds as many bytes as it should.
    pub proof fn lemma_view_wf(self)
        requires
            self.well_formed(),
        ensures
            self@.len() == HRAM_SIZE,
    {
    }

    /// High RAM filled with zeroes.
    pub fn new() -> (r: Self)
        ensures
            r@ == Seq::new(HRAM_SIZE as nat, |i: int| 0u8),
    {
        let r = Self(vec![0; HRAM_SIZE]);
        assert(r.0@ =~= Seq::new(HRAM_SIZE as nat, |i: int| 0u8));
        r
    }

    /// The byte in the cell that `addr` selects.
    pub fn read(&self, addr: u16) -> (r: u8)
        ensures
            self@.len() == HRAM_SIZE,
            r == self@[hram_offset(addr)],
    {
        proof {
            use_type_invariant(self);
            lemma_offset_masks(addr);
        }
        self.0[(addr as usize) & 0x7f]
    }

    /// Stores `val` in the cell that `addr` selects.
    pub fn write(&mut self, addr: u16, val: u8)
        ensures
            old(self)@.len() == HRAM_SIZE,
            final(self)@ == old(self)@.update(hram_offset(addr), val),
    {
        proof {
            use_type_invariant(&*self);
            lemma_offset_masks(addr);
        }
        self.0[(addr as usize) & 0x7f] = val;
    }
}

} // verus!
